//! What the portal answers, as far as the session's rules read it.

use super::request_sender::SendingError;
use crate::schemas::{Assignment, AuthResponse, CurrentYear, DiaryInfo, PreAuthData, SchoolInfo};
use vstd::prelude::*;

verus! {

/// The shape that a request wants its answer's body read as.
#[derive(Clone, Copy, Debug, PartialEq, Eq, Structural)]
pub enum Shape {
    /// The body is not read.
    Nothing,
    PreAuthData,
    AuthResponse,
    DiaryInfo,
    CurrentYear,
    Assignments,
    Schools,
}

/// The body of an answer, read as the request wanted it.
#[derive(Debug)]
pub enum Body {
    /// The body was not read.
    Unread,
    /// The body is not JSON at all, or it does not match the wanted shape.
    Malformed,
    PreAuthData(PreAuthData),
    AuthResponse(AuthResponse),
    DiaryInfo(DiaryInfo),
    CurrentYear(CurrentYear),
    Assignments(Vec<Assignment>),
    Schools(Vec<SchoolInfo>),
}

/// An answer of the portal.
#[derive(Debug)]
pub struct Response {
    pub status: u16,
    pub body: Body,
}

/// Whether `status` marks a success: 200 to 299.
pub open spec fn is_success(status: u16) -> bool {
    200 <= status < 300
}

/// The outcome of a request as the session's rules read it: an answer whose
/// status is no success is a failure with that status, and everything else is
/// what it is.
pub open spec fn spec_settled(outcome: Result<Response, SendingError>) -> Result<
    Response,
    SendingError,
> {
    match outcome {
        Ok(response) => if is_success(response.status) {
            Ok(response)
        } else {
            Err(SendingError::ErrorStatus(response.status))
        },
        Err(error) => Err(error),
    }
}

/// The outcome of a request as the session's rules read it.
pub fn settled(outcome: Result<Response, SendingError>) -> (res: Result<Response, SendingError>)
    ensures
        res == spec_settled(outcome),
{
    match outcome {
        Ok(response) => {
            if 200 <= response.status && response.status < 300 {
                Ok(response)
            } else {
                Err(SendingError::ErrorStatus(response.status))
            }
        },
        Err(error) => Err(error),
    }
}

} // verus!
