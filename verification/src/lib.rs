//! Session engine for the NetSchool portal: the salted password digest, the
//! credentials and session data, and the rules that take a session from
//! inactive to logged in and back.

pub mod auth_data;
pub mod digest;
pub mod json;
pub mod net_school_clients;
pub mod schemas;
pub mod user_data;
pub mod web_clients;
