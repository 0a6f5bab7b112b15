//! A small interactive command interpreter: a line parser, a dispatcher for the
//! built-in directives, and the decisions of the read-dispatch-wait loop.
pub mod tokens;
pub mod command;
pub mod child;
pub mod system;
pub mod session;
pub mod laws;
