//! Runtime configuration of a solar-event utility: built-in defaults, an
//! optional configuration file and the command line are parsed, validated and
//! merged into one resolved [`config::Config`].

pub mod config;
pub mod enums;
pub mod errors;
pub mod parsers;
pub mod structs;
pub mod text;
pub mod time;
