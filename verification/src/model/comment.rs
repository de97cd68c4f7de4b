//! Comments on tasks and projects.

use vstd::prelude::*;

verus! {

/// A comment.
#[derive(Debug, Clone)]
pub struct Comment {
    /// The comment ID.
    pub id: String,
    /// The ID of the task that the comment belongs to; none where it belongs to
    /// a project.
    pub task_id: Option<String>,
    /// The ID of the project that the comment belongs to; none where it belongs
    /// to a task.
    pub project_id: Option<String>,
    /// The text of the comment, which may hold markdown and hyperlinks.
    pub content: String,
    /// The file attached to the comment, if there is one.
    pub attachment: Option<CommentAttachment>,
}

/// A file attached to a comment.
#[derive(Debug, Clone)]
pub struct CommentAttachment {
    /// The name of the file.
    pub file_name: String,
    /// The media type of the file, such as `application/pdf`.
    pub file_type: String,
    /// Where the file can be fetched.
    pub file_url: String,
    /// The kind of resource, such as `file`.
    pub resource_type: String,
}

} // verus!
