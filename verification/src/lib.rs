//! Core logic of a terminal front end for git: command plans, output parsers,
//! panel state and syntax-language selection, each with its contract.

pub mod text;
pub mod order;
pub mod paths;
pub mod model;
pub mod git;
pub mod gui;
pub mod pager;
pub mod config;
pub mod os;
