pub mod component;
pub mod entry;
