//! An interactive scene editor: a named collection of geometric shapes,
//! edited through reversible commands that are read from lines of text,
//! and rendered to a pluggable sink.

pub mod app;
pub mod command;
pub mod commander;
pub mod executor;
pub mod log;
pub mod render;
pub mod shape;
pub mod text;
