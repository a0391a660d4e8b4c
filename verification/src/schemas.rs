//! The shapes that travel between this library and the portal.

use crate::json::StrNum;
use vstd::prelude::*;

verus! {

/// Used to distinguish between the Gosuslugi log-on and username-password
/// log-on.
#[derive(Clone, Copy, Debug, PartialEq, Eq, Structural)]
pub enum LoginType {
    /// With username and password.
    Regular,
}

impl LoginType {
    /// The number that the portal knows this kind of log-on by.
    pub open spec fn spec_code(self) -> u8 {
        1
    }

    /// The number that the portal knows this kind of log-on by.
    pub fn code(self) -> (res: u8)
        ensures
            res == self.spec_code(),
    {
        1
    }
}

#[derive(Clone, Copy, Debug, PartialEq, Eq, Structural)]
pub enum EducationalInstitutionType {
    PreSchool,
    School,
    /// An institution used simultaneously with any other insitution.
    /// Examples: sports school, arts school. This does not have to be a
    /// distinct institution though, so the institutions with the `Additional`
    /// type are highly likely to be present in the `School` or `PreSchool`
    /// lists (sometimes even in both of them).
    Additional,
}

impl EducationalInstitutionType {
    /// The number that the portal knows this kind of institution by.
    pub open spec fn spec_code(self) -> u8 {
        match self {
            EducationalInstitutionType::PreSchool => 1,
            EducationalInstitutionType::School => 2,
            EducationalInstitutionType::Additional => 3,
        }
    }

    /// The number that the portal knows this kind of institution by.
    pub fn code(self) -> (res: u8)
        ensures
            res == self.spec_code(),
    {
        match self {
            EducationalInstitutionType::PreSchool => 1,
            EducationalInstitutionType::School => 2,
            EducationalInstitutionType::Additional => 3,
        }
    }
}

impl Default for EducationalInstitutionType {
    fn default() -> (res: Self)
        ensures
            res == EducationalInstitutionType::School,
    {
        EducationalInstitutionType::School
    }
}

/// What the portal hands out before a log-on.
#[derive(Debug)]
pub struct PreAuthData {
    /// Handed back to the portal as it came.
    pub lt: String,
    /// Handed back to the portal as it came.
    pub ver: String,
    /// A salt that should be used when hashing a password.
    pub salt: String,
}

/// One school of the portal's directory.
#[derive(Debug)]
pub struct SchoolInfo {
    pub country_id: StrNum,
    pub state_id: StrNum,
    pub pid: StrNum,
    pub city_id: StrNum,
    pub educational_institution_type: EducationalInstitutionType,
    pub id: StrNum,
    /// Names the school for people; the portal is never sent it.
    pub name: String,
}

impl Clone for SchoolInfo {
    fn clone(&self) -> (res: Self)
        ensures
            res == *self,
    {
        SchoolInfo {
            country_id: self.country_id.clone(),
            state_id: self.state_id.clone(),
            pid: self.pid.clone(),
            city_id: self.city_id.clone(),
            educational_institution_type: self.educational_institution_type,
            id: self.id.clone(),
            name: self.name.clone(),
        }
    }
}

/// The body of the log-on request.
#[derive(Debug)]
pub struct AuthRequest {
    pub login_type: LoginType,
    pub username: String,
    /// The md5_hex(salt + md5_hex(windows_cp1251(salt))) encoded password.
    pub full_encoded_password: String,
    /// Same as `full_encoded_password`, but trimmed (from the end) to the
    /// length of the password.
    pub trimmed_encoded_password: String,
    pub pre_auth_data: PreAuthData,
    pub school_info: SchoolInfo,
}

/// What the portal answers to a log-on that it accepts.
#[derive(Debug)]
pub struct AuthResponse {
    pub auth_token: String,
}

#[derive(Debug)]
pub struct Student {
    pub student_id: StrNum,
}

#[derive(Debug)]
pub struct DiaryInfo {
    pub students: Vec<Student>,
    /// Where in `students` the current student stands; not the student's id.
    pub current_student_id: StrNum,
}

#[derive(Debug)]
pub struct CurrentYear {
    pub id: StrNum,
}

#[derive(Debug)]
pub struct Assignment {
    pub id: StrNum,
    pub name: String,
}

} // verus!
