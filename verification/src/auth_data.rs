//! What a user logs on with.

use crate::schemas::SchoolInfo;
use vstd::prelude::*;

verus! {

#[derive(Debug)]
pub struct AuthData {
    pub username: String,
    pub password: String,
    pub school_info: SchoolInfo,
}

} // verus!
