//! Turns podman commands and compose files into podman quadlet files.
//!
//! The crate holds what is decided and computed: which files a command line asks for, what they
//! are called, where they go, what they contain, and in which order they are made. Reading and
//! writing is left to the program around it.

pub mod cli;
pub mod command;
pub mod compose;
pub mod convert;
pub mod failure;
pub mod image;
pub mod laws;
pub mod output;
pub mod path;
pub mod podman;
pub mod quadlet;
pub mod run;
pub mod services;
pub mod source;
pub mod text;
pub mod yaml;
