//! Configuration, control and command-line building logic of a playout
//! server, with its behaviour stated as contracts and proved.

pub mod text;
pub mod shell;
pub mod config;
pub mod control;
pub mod headers;
pub mod db;
pub mod filter;
