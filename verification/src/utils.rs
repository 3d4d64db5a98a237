pub mod component;
pub mod project;
pub mod template_finder;
pub mod text;
