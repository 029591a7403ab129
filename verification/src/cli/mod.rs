//! What the command line decides and shows, apart from reading its arguments
//! and printing.
pub mod commands;
