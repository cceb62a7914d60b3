//! Baking system extensions: a directory tree becomes a filesystem image in
//! one file, made by the filesystem tools of the system.
//!
//! This library decides what is to be done and leaves the doing to its
//! caller. It neither starts a process nor touches a file.
//!
//! - [`cli`] holds the options of the command line and its grammar.
//! - [`native_commands`] holds invocations of external tools as values, and
//!   what a tool left behind when it ended.
//! - [`bake`] lays out the baking of one extension; [`bake::filesystem`]
//!   holds the strategies that build the image, one for each filesystem,
//!   and [`bake::version`] the reading of a tool's version.
//! - [`render`] renders templates with values.
//! - [`text`] holds the scanning of characters that the parsers share.

pub mod bake;
pub mod cli;
pub mod native_commands;
pub mod render;
pub mod text;
