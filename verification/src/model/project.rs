//! Projects.

use vstd::prelude::*;
use crate::api::comments::TaskOrProjectID;
use crate::api::projects::{create_new_project, delete_project, get_project, update_project};
use crate::model::color::Color;
use crate::model::comment::CommentAttachment;
use crate::request::models::{CreateNewCommentArgs, CreateNewProjectArgs, UpdateProjectArgs};
use crate::request::paths::{is_key, resource_text};
use crate::request::{is_rooted, Request, RequestMethod};

verus! {

/// A project.
#[derive(Debug, Clone)]
pub struct Project {
    /// The project ID.
    pub id: String,
    /// The project name.
    pub name: String,
    /// The color of the project icon.
    pub color: Color,
    /// The ID of the parent project; none for a top-level project.
    pub parent_id: Option<String>,
    /// The position of the project under its parent; 0 for the inbox and the
    /// team inbox.
    pub order: u32,
    /// The number of comments on the project.
    pub comment_count: u32,
    /// Whether the project is shared.
    pub is_shared: bool,
    /// Whether the project is a favorite.
    pub is_favorite: bool,
    /// Whether the project is the user's inbox.
    pub is_inbox_project: bool,
    /// Whether the project is the team inbox.
    pub is_team_inbox: bool,
    /// How clients lay the project out.
    pub view_style: ProjectViewStyle,
    /// Where the project is found in the web and mobile applications.
    pub url: String,
}

impl Project {
    /// The request that creates a project like this one, under a new ID.
    pub fn create_new_copy(self) -> (request: Request<CreateNewProjectArgs>)
        ensures
            is_rooted(request.path@),
            request.asks(
                RequestMethod::Post,
                "/projects"@,
                Some(
                    CreateNewProjectArgs {
                        name: self.name,
                        parent_id: self.parent_id,
                        color: Some(self.color),
                        is_favorite: Some(self.is_favorite),
                        view_style: Some(self.view_style),
                    },
                ),
                true,
            ),
    {
        create_new_project(
            self.name,
            self.parent_id,
            Some(self.color),
            Some(self.is_favorite),
            Some(self.view_style),
        )
    }

    /// The request for the project as the service holds it now.
    pub fn retrieve_updated(self) -> (request: Request<()>)
        requires
            !is_key(self.id@),
        ensures
            is_rooted(request.path@),
            request.asks(RequestMethod::Get, "/projects"@ + resource_text(self.id@), None, false),
    {
        get_project(self.id)
    }

    /// The request that writes this project over the one that the service
    /// holds.
    pub fn update(self) -> (request: Request<UpdateProjectArgs>)
        requires
            !is_key(self.id@),
        ensures
            is_rooted(request.path@),
            request.asks(
                RequestMethod::Post,
                "/projects"@ + resource_text(self.id@),
                Some(
                    UpdateProjectArgs {
                        name: Some(self.name),
                        color: Some(self.color),
                        is_favorite: Some(self.is_favorite),
                        view_style: Some(self.view_style),
                    },
                ),
                true,
            ),
    {
        update_project(
            self.id,
            Some(self.name),
            Some(self.color),
            Some(self.is_favorite),
            Some(self.view_style),
        )
    }

    /// The request that deletes the project.
    pub fn delete(self) -> (request: Request<()>)
        requires
            !is_key(self.id@),
        ensures
            is_rooted(request.path@),
            request.asks(
                RequestMethod::Delete,
                "/projects"@ + resource_text(self.id@),
                None,
                false,
            ),
    {
        delete_project(self.id)
    }

    /// The request for all comments on the project.
    pub fn get_all_comments(self) -> (request: Request<()>)
        ensures
            is_rooted(request.path@),
            request.asks(
                RequestMethod::Get,
                "/comments"@ + "?"@ + "project_id"@ + "="@ + self.id@,
                None,
                false,
            ),
    {
        crate::api::comments::get_all_comments(&TaskOrProjectID::Project(self.id))
    }

    /// The request that creates a comment on the project.
    pub fn create_new_comment(
        self,
        content: String,
        attachment: Option<CommentAttachment>,
    ) -> (request: Request<CreateNewCommentArgs>)
        ensures
            is_rooted(request.path@),
            request.asks(
                RequestMethod::Post,
                "/comments"@,
                Some(
                    CreateNewCommentArgs {
                        task_id: None,
                        project_id: Some(self.id),
                        content,
                        attachment,
                    },
                ),
                true,
            ),
    {
        crate::api::comments::create_new_comment(
            &TaskOrProjectID::Project(self.id),
            content,
            attachment,
        )
    }
}

/// How clients lay a project out.
#[derive(Debug, Clone, Copy, PartialEq, Eq, Structural)]
pub enum ProjectViewStyle {
    /// As a list.
    List,
    /// As a board.
    Board,
}

} // verus!
