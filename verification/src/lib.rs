use vstd::prelude::*;

pub mod autostart;
pub mod build_resources;
pub mod config;
pub mod logger;
pub mod new_src;
pub mod request_parser;
pub mod requests;
pub mod server;
pub mod responses;
pub mod vpn;
pub mod vpn_core;
pub mod text;
pub mod utils;

verus! {
} // verus!
