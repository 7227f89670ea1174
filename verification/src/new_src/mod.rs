//! Reading and validating the address and port, and command templates.
pub mod args_reader;
pub mod args_validator;
pub mod commander;
