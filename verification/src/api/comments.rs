//! Comments on tasks and projects.

use vstd::prelude::*;
use vstd::string::StringExecFns;
use crate::model::comment::CommentAttachment;
use crate::request::models::{CreateNewCommentArgs, UpdateCommentArgs};
use crate::request::paths::{is_key, item_path, resource_text, COMMENTS};
use crate::request::{is_rooted, Request, RequestMethod};

verus! {

/// The ID of what a comment belongs to: a task or a project.
#[derive(Debug)]
pub enum TaskOrProjectID {
    /// The ID of a task.
    Task(String),
    /// The ID of a project.
    Project(String),
}

impl TaskOrProjectID {
    /// The ID, whichever kind it is of.
    pub open spec fn id(self) -> Seq<char> {
        match self {
            TaskOrProjectID::Task(id) => id@,
            TaskOrProjectID::Project(id) => id@,
        }
    }

    /// The name of the parameter that takes the ID.
    pub open spec fn key(self) -> Seq<char> {
        match self {
            TaskOrProjectID::Task(_) => "task_id"@,
            TaskOrProjectID::Project(_) => "project_id"@,
        }
    }

    /// The ID, whichever kind it is of.
    pub fn get_id(&self) -> (id: &String)
        ensures
            id@ == self.id(),
    {
        match self {
            TaskOrProjectID::Task(id) => id,
            TaskOrProjectID::Project(id) => id,
        }
    }

    /// The name of the parameter that takes the ID.
    pub fn get_key(&self) -> (key: String)
        ensures
            key@ == self.key(),
    {
        match self {
            TaskOrProjectID::Task(_) => String::from_str("task_id"),
            TaskOrProjectID::Project(_) => String::from_str("project_id"),
        }
    }
}

/// The request for all comments of a task or a project.
pub fn get_all_comments(task_or_project_id: &TaskOrProjectID) -> (request: Request<()>)
    ensures
        is_rooted(request.path@),
        request.asks(
            RequestMethod::Get,
            "/comments"@ + "?"@ + task_or_project_id.key() + "="@ + task_or_project_id.id(),
            None,
            false,
        ),
{
    proof {
        reveal_strlit("/comments");
    }
    let mut path = String::from_str(COMMENTS);
    path.append("?");
    path.append(task_or_project_id.get_key().as_str());
    path.append("=");
    path.append(task_or_project_id.get_id().as_str());
    Request::get(path)
}

/// The request that creates a comment on a task or a project.
pub fn create_new_comment(
    task_or_project_id: &TaskOrProjectID,
    content: String,
    attachment: Option<CommentAttachment>,
) -> (request: Request<CreateNewCommentArgs>)
    ensures
        is_rooted(request.path@),
        request.method == RequestMethod::Post,
        request.path@ == "/comments"@,
        request.include_request_id,
        request.body matches Some(args) && {
            &&& args.content == content
            &&& args.attachment == attachment
            &&& match *task_or_project_id {
                TaskOrProjectID::Task(id) => args.task_id == Some(id) && args.project_id is None,
                TaskOrProjectID::Project(id) => args.project_id == Some(id) && args.task_id
                    is None,
            }
        },
{
    proof {
        reveal_strlit("/comments");
    }
    Request::post(
        String::from_str(COMMENTS),
        Some(
            CreateNewCommentArgs {
                task_id: match task_or_project_id {
                    TaskOrProjectID::Task(id) => Some(id.clone()),
                    TaskOrProjectID::Project(_) => None,
                },
                project_id: match task_or_project_id {
                    TaskOrProjectID::Task(_) => None,
                    TaskOrProjectID::Project(id) => Some(id.clone()),
                },
                content,
                attachment,
            },
        ),
        true,
    )
}

/// The request for one comment.
pub fn get_comment(comment_id: String) -> (request: Request<()>)
    requires
        !is_key(comment_id@),
    ensures
        is_rooted(request.path@),
        request.asks(RequestMethod::Get, "/comments"@ + resource_text(comment_id@), None, false),
{
    Request::get(get_comment_path(comment_id))
}

/// The request that changes the text of a comment.
pub fn update_comment(comment_id: String, content: String) -> (request: Request<
    UpdateCommentArgs,
>)
    requires
        !is_key(comment_id@),
    ensures
        is_rooted(request.path@),
        request.asks(
            RequestMethod::Post,
            "/comments"@ + resource_text(comment_id@),
            Some(UpdateCommentArgs { content }),
            true,
        ),
{
    Request::post(get_comment_path(comment_id), Some(UpdateCommentArgs { content }), true)
}

/// The request that deletes a comment.
pub fn delete_comment(comment_id: String) -> (request: Request<()>)
    requires
        !is_key(comment_id@),
    ensures
        is_rooted(request.path@),
        request.asks(
            RequestMethod::Delete,
            "/comments"@ + resource_text(comment_id@),
            None,
            false,
        ),
{
    Request::delete(get_comment_path(comment_id))
}

/// The path of one comment.
pub fn get_comment_path(comment_id: String) -> (path: String)
    requires
        !is_key(comment_id@),
    ensures
        path@ == "/comments"@ + resource_text(comment_id@),
        path@.len() > 0 && path@[0] == '/',
{
    proof {
        reveal_strlit("/comments");
    }
    item_path(COMMENTS, comment_id.as_str())
}

} // verus!
