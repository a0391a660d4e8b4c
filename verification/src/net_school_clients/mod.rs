pub mod inactive_client;
pub mod logged_in_client;
pub mod logged_out_client;
