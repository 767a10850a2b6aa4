//! A small configuration manager for a terminal project tool: it owns the
//! on-disk configuration record (a projects directory and an editor command),
//! validates both on every load and save, and plans persistence as an atomic
//! write-to-temporary-then-rename so the previous file is never half
//! overwritten.

pub mod config;
pub mod logging;
pub mod project;
pub mod text;
