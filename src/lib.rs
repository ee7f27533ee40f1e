//! A project browser's core: discovery of project directories, incremental
//! filtering and selection, the screen layout and the key-driven session.
pub mod text;
pub mod project;
pub mod session;
pub mod catalog;
pub mod render;
pub mod input;
