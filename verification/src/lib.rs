pub mod collate;
pub mod project;
