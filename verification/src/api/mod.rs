//! The calls of the service, one module for each kind of object.

pub mod comments;
pub mod labels;
pub mod projects;
pub mod sections;
pub mod tasks;
