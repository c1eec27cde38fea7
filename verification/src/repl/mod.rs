//! The interactive debugger front end: command parsing, help, the state it
//! keeps and the decisions and replies of its commands.
pub mod actions;
pub mod breakpoint;
pub mod commands;
pub mod help;
pub mod sources;
pub mod lists;
pub mod plan;
pub mod json_plan;
pub mod table;
pub mod json_response;
pub mod exceptions;
pub mod replies;
pub mod logpoints;
pub mod emulated;
pub mod context;
pub mod stop;
pub mod sent;
