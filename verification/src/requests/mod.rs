pub mod http_method;
pub mod http_request;
