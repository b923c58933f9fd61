//! A command-line chat assistant's core: the message transcript, the
//! conversation engine that drives request/response turns, the
//! classification of transport failures and the validation of a session's
//! configuration.  Network, terminal and file access live with the binary.
pub mod text;
pub mod model;
pub mod api;
pub mod openai;
pub mod cli;
pub mod validation;
pub mod conversation;
pub mod session;
pub mod prompt;
pub mod hook;
