//! Sections of projects.

use vstd::prelude::*;
use vstd::string::StringExecFns;
use crate::request::models::{CreateNewSectionArgs, UpdateSectionArgs};
use crate::request::paths::{
    filtered_path,
    is_bare,
    is_key,
    item_path,
    resource_text,
    PARAM_PROJECT_ID,
    SECTIONS,
};
use crate::request::{is_rooted, Request, RequestMethod};

verus! {

/// The path of all sections, or of those of one project.
pub open spec fn sections_path(project_id: Option<Seq<char>>) -> Seq<char> {
    match project_id {
        Some(id) => "/sections"@ + "?project_id="@ + id,
        None => "/sections"@,
    }
}

/// The request for all sections, or for those of one project.
pub fn get_all_sections(project_id: Option<String>) -> (request: Request<()>)
    requires
        project_id matches Some(id) ==> is_bare(id@),
    ensures
        is_rooted(request.path@),
        request.asks(
            RequestMethod::Get,
            sections_path(
                match project_id {
                    Some(id) => Some(id@),
                    None => None,
                },
            ),
            None,
            false,
        ),
{
    proof {
        reveal_strlit("/sections");
    }
    let path = match project_id {
        Some(id) => {
            proof {
                reveal_strlit("/sections");
                reveal_strlit("project_id=");
                reveal_strlit("?project_id=");
                assert("?project_id="@ =~= seq!['?'] + "project_id="@);
                assert(sections_path(Some(id@)) =~= "/sections"@ + seq!['?'] + "project_id="@
                    + id@);
            }
            filtered_path(SECTIONS, PARAM_PROJECT_ID, id.as_str())
        },
        None => String::from_str(SECTIONS),
    };
    Request::get(path)
}

/// The request that creates a section.
pub fn create_new_section(project_id: String, name: String, order: Option<u32>) -> (request:
    Request<CreateNewSectionArgs>)
    ensures
        is_rooted(request.path@),
        request.asks(
            RequestMethod::Post,
            "/sections"@,
            Some(CreateNewSectionArgs { name, project_id, order }),
            false,
        ),
{
    proof {
        reveal_strlit("/sections");
    }
    Request::post(
        String::from_str(SECTIONS),
        Some(CreateNewSectionArgs { project_id, name, order }),
        false,
    )
}

/// The request for one section.
pub fn get_section(section_id: String) -> (request: Request<()>)
    requires
        !is_key(section_id@),
    ensures
        is_rooted(request.path@),
        request.asks(RequestMethod::Get, "/sections"@ + resource_text(section_id@), None, false),
{
    Request::get(get_section_path(section_id))
}

/// The request that renames a section.
pub fn update_section(section_id: String, name: String) -> (request: Request<UpdateSectionArgs>)
    requires
        !is_key(section_id@),
    ensures
        is_rooted(request.path@),
        request.asks(
            RequestMethod::Post,
            "/sections"@ + resource_text(section_id@),
            Some(UpdateSectionArgs { name }),
            false,
        ),
{
    Request::post(get_section_path(section_id), Some(UpdateSectionArgs { name }), false)
}

/// The request that deletes a section.
pub fn delete_section(section_id: String) -> (request: Request<()>)
    requires
        !is_key(section_id@),
    ensures
        is_rooted(request.path@),
        request.asks(
            RequestMethod::Delete,
            "/sections"@ + resource_text(section_id@),
            None,
            false,
        ),
{
    Request::delete(get_section_path(section_id))
}

/// The path of one section.
pub fn get_section_path(section_id: String) -> (path: String)
    requires
        !is_key(section_id@),
    ensures
        path@ == "/sections"@ + resource_text(section_id@),
        path@.len() > 0 && path@[0] == '/',
{
    proof {
        reveal_strlit("/sections");
    }
    item_path(SECTIONS, section_id.as_str())
}

} // verus!
