pub mod http_response_builder;
pub mod ws_connection_response_builder;
