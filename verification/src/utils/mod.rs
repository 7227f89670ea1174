//! Command-line reading of the bind address and port, and unique ids.
pub mod args_reader;
pub mod unique_id_generator;
