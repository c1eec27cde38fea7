use vstd::prelude::*;

pub mod text;
pub mod num;
pub mod text_map;
pub mod repl;
pub mod data_watch;
pub mod memory;
pub mod navigation;
pub mod routing;
pub mod gateway;
pub mod plugin;
pub mod paths;
pub mod instance;
pub mod cli;
pub mod display;
pub mod session_init;
pub mod instruction;
pub mod child_session;
pub mod grammar;
pub mod proxy;
pub mod render;
pub mod attach;
pub mod reverse_request;
pub mod bounds;
pub mod json_text;
pub mod sorted;

verus! {
} // verus!
