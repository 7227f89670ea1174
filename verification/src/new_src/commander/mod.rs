//! Command lines assembled from templates.
pub mod cli_command_template;
