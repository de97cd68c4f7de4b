//! The bodies of the requests that create or change something.

use vstd::prelude::*;
use crate::model::color::Color;
use crate::model::comment::CommentAttachment;
use crate::model::project::ProjectViewStyle;
use crate::model::task::TaskDurationUnit;

verus! {

/// The body of the request that creates a comment.
#[derive(Debug, Clone)]
pub struct CreateNewCommentArgs {
    pub task_id: Option<String>,
    pub project_id: Option<String>,
    pub content: String,
    pub attachment: Option<CommentAttachment>,
}

/// The body of the request that changes a comment.
#[derive(Debug, Clone)]
pub struct UpdateCommentArgs {
    pub content: String,
}

/// The body of the request that creates a personal label.
#[derive(Debug, Clone)]
pub struct CreateNewPersonalLabelArgs {
    pub name: String,
    pub order: Option<u32>,
    pub color: Option<Color>,
    pub is_favorite: Option<bool>,
}

/// The body of the request that changes a personal label.
#[derive(Debug, Clone)]
pub struct UpdatePersonalLabelArgs {
    pub name: Option<String>,
    pub order: Option<u32>,
    pub color: Option<Color>,
    pub is_favorite: Option<bool>,
}

/// The body of the request that renames a shared label.
#[derive(Debug, Clone)]
pub struct RenameSharedLabelsArgs {
    pub name: String,
    pub new_name: String,
}

/// The body of the request that removes a shared label.
#[derive(Debug, Clone)]
pub struct RemoveSharedLabelsArgs {
    pub name: String,
}

/// The body of the request that creates a project.
#[derive(Debug, Clone)]
pub struct CreateNewProjectArgs {
    pub name: String,
    pub parent_id: Option<String>,
    pub color: Option<Color>,
    pub is_favorite: Option<bool>,
    pub view_style: Option<ProjectViewStyle>,
}

/// The body of the request that changes a project.
#[derive(Debug, Clone)]
pub struct UpdateProjectArgs {
    pub name: Option<String>,
    pub color: Option<Color>,
    pub is_favorite: Option<bool>,
    pub view_style: Option<ProjectViewStyle>,
}

/// The body of the request that creates a section.
#[derive(Debug, Clone)]
pub struct CreateNewSectionArgs {
    pub name: String,
    pub project_id: String,
    pub order: Option<u32>,
}

/// The body of the request that changes a section.
#[derive(Debug, Clone)]
pub struct UpdateSectionArgs {
    pub name: String,
}

/// The body of the request that creates a task.
#[derive(Debug, Clone)]
pub struct CreateNewTaskArgs {
    pub content: String,
    pub description: Option<String>,
    pub project_id: Option<String>,
    pub section_id: Option<String>,
    pub parent_id: Option<String>,
    pub order: Option<u32>,
    pub labels: Option<Vec<String>>,
    pub priority: Option<u8>,
    pub due_string: Option<String>,
    pub due_date: Option<String>,
    pub due_datetime: Option<String>,
    pub due_lang: Option<String>,
    pub assignee_id: Option<String>,
    pub duration: Option<u64>,
    pub duration_unit: Option<TaskDurationUnit>,
}

/// The body of the request that changes a task.
#[derive(Debug, Clone)]
pub struct UpdateTaskArgs {
    pub content: Option<String>,
    pub description: Option<String>,
    pub labels: Option<Vec<String>>,
    pub priority: Option<u8>,
    pub due_string: Option<String>,
    pub due_date: Option<String>,
    pub due_datetime: Option<String>,
    pub due_lang: Option<String>,
    pub assignee_id: Option<String>,
    pub duration: Option<u64>,
    pub duration_unit: Option<TaskDurationUnit>,
}

} // verus!
