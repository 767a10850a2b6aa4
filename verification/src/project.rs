pub mod create;
pub mod list;
