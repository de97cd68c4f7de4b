pub mod api;
pub mod model;
pub mod request;
pub mod text;
pub mod todoist_config;
pub mod validation;
