//! Registry of named services and the shell commands that start, stop and
//! restart them.

pub mod commands;
pub mod errors;
pub mod laws;
pub mod layout;
pub mod paths;
pub mod services;
