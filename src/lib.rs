//! Packages a native dynamic library as a Python wheel: derives the names and
//! paths that the packaging files need, renders those files, and decides what
//! a run writes.

pub mod error;
pub mod header;
pub mod metadata;
pub mod names;
pub mod paths;
pub mod pipeline;
pub mod setup_py;
pub mod templates;
pub mod text;
