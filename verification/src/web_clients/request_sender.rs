//! How sending a request can fail.

use vstd::prelude::*;

verus! {

/// Why a request brought no response that can be used.
#[derive(Debug)]
pub enum SendingError {
    /// The sender's own failure, in its own words.
    SenderSpecificError(String),
    /// The request never got a response; what the transport says of it.
    SendingError(String),
    /// The response came with a status that marks an error.
    ErrorStatus(u16),
}

impl SendingError {
    /// The status that the failure carries, if it carries one.
    pub open spec fn spec_status(&self) -> Option<u16> {
        match self {
            SendingError::ErrorStatus(status) => Some(*status),
            _ => None,
        }
    }

    /// The status that the failure carries, if it carries one.
    pub fn status(&self) -> (res: Option<u16>)
        ensures
            res == self.spec_status(),
    {
        match self {
            SendingError::ErrorStatus(status) => Some(*status),
            _ => None,
        }
    }
}

} // verus!
