//! Projects and those who share them.

use vstd::prelude::*;
use vstd::string::StringExecFns;
use crate::model::color::Color;
use crate::model::project::ProjectViewStyle;
use crate::request::models::{CreateNewProjectArgs, UpdateProjectArgs};
use crate::request::paths::{is_key, item_path, resource_text, COLLABORATORS, PROJECTS};
use crate::request::{is_rooted, Request, RequestMethod};

verus! {

/// The request for all projects of the user.
pub fn get_all_projects() -> (request: Request<()>)
    ensures
        is_rooted(request.path@),
        request.asks(RequestMethod::Get, "/projects"@, None, false),
{
    proof {
        reveal_strlit("/projects");
    }
    Request::get(String::from_str(PROJECTS))
}

/// The request that creates a project.
pub fn create_new_project(
    name: String,
    parent_id: Option<String>,
    color: Option<Color>,
    is_favorite: Option<bool>,
    view_style: Option<ProjectViewStyle>,
) -> (request: Request<CreateNewProjectArgs>)
    ensures
        is_rooted(request.path@),
        request.asks(
            RequestMethod::Post,
            "/projects"@,
            Some(CreateNewProjectArgs { name, parent_id, color, is_favorite, view_style }),
            true,
        ),
{
    proof {
        reveal_strlit("/projects");
    }
    Request::post(
        String::from_str(PROJECTS),
        Some(CreateNewProjectArgs { name, parent_id, color, is_favorite, view_style }),
        true,
    )
}

/// The path of one project.
pub fn get_project_path(project_id: String) -> (path: String)
    requires
        !is_key(project_id@),
    ensures
        path@ == "/projects"@ + resource_text(project_id@),
        path@.len() > 0 && path@[0] == '/',
{
    proof {
        reveal_strlit("/projects");
    }
    item_path(PROJECTS, project_id.as_str())
}

/// The request for one project.
pub fn get_project(project_id: String) -> (request: Request<()>)
    requires
        !is_key(project_id@),
    ensures
        is_rooted(request.path@),
        request.asks(RequestMethod::Get, "/projects"@ + resource_text(project_id@), None, false),
{
    Request::get(get_project_path(project_id))
}

/// The request that changes a project.
pub fn update_project(
    project_id: String,
    name: Option<String>,
    color: Option<Color>,
    is_favorite: Option<bool>,
    view_style: Option<ProjectViewStyle>,
) -> (request: Request<UpdateProjectArgs>)
    requires
        !is_key(project_id@),
    ensures
        is_rooted(request.path@),
        request.asks(
            RequestMethod::Post,
            "/projects"@ + resource_text(project_id@),
            Some(UpdateProjectArgs { name, color, is_favorite, view_style }),
            true,
        ),
{
    Request::post(
        get_project_path(project_id),
        Some(UpdateProjectArgs { name, color, is_favorite, view_style }),
        true,
    )
}

/// The request that deletes a project.
pub fn delete_project(project_id: String) -> (request: Request<()>)
    requires
        !is_key(project_id@),
    ensures
        is_rooted(request.path@),
        request.asks(
            RequestMethod::Delete,
            "/projects"@ + resource_text(project_id@),
            None,
            false,
        ),
{
    Request::delete(get_project_path(project_id))
}

/// The request for all who share a project.
pub fn get_all_collaborators(project_id: String) -> (request: Request<()>)
    requires
        !is_key(project_id@),
    ensures
        is_rooted(request.path@),
        request.asks(
            RequestMethod::Get,
            "/projects"@ + resource_text(project_id@) + "/collaborators"@,
            None,
            false,
        ),
{
    let mut path = get_project_path(project_id);
    path.append(COLLABORATORS);
    Request::get(path)
}

} // verus!
