pub mod logged_in_web_client;
pub mod logged_out_web_client;
pub mod request_builder;
pub mod request_sender;
pub mod response;
pub mod url_ending_with_a_slash;
pub mod url_with_api_base_route;
pub mod web_client_trait;
pub mod web_client_wrapper;
