//! The objects that the service hands out.

pub mod collaborator;
pub mod color;
pub mod comment;
pub mod label;
pub mod project;
pub mod section;
pub mod task;
