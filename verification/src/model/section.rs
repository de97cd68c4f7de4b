//! Sections of projects.

use vstd::prelude::*;
use crate::api::sections::{create_new_section, delete_section, get_section, update_section};
use crate::request::models::{CreateNewSectionArgs, UpdateSectionArgs};
use crate::request::paths::{is_key, resource_text};
use crate::request::{is_rooted, Request, RequestMethod};

verus! {

/// A section of a project.
#[derive(Debug, Clone)]
pub struct Section {
    /// The section ID.
    pub id: String,
    /// The ID of the project that the section belongs to.
    pub project_id: String,
    /// The position of the section among the sections of its project.
    pub order: u32,
    /// The section name.
    pub name: String,
}

impl Section {
    /// The request that creates a section like this one, under a new ID.
    pub fn create_new_copy(self) -> (request: Request<CreateNewSectionArgs>)
        ensures
            is_rooted(request.path@),
            request.asks(
                RequestMethod::Post,
                "/sections"@,
                Some(
                    CreateNewSectionArgs {
                        name: self.name,
                        project_id: self.project_id,
                        order: Some(self.order),
                    },
                ),
                false,
            ),
    {
        create_new_section(self.project_id, self.name, Some(self.order))
    }

    /// The request for the section as the service holds it now.
    pub fn retrieve_updated(self) -> (request: Request<()>)
        requires
            !is_key(self.id@),
        ensures
            is_rooted(request.path@),
            request.asks(RequestMethod::Get, "/sections"@ + resource_text(self.id@), None, false),
    {
        get_section(self.id)
    }

    /// The request that gives the section that the service holds the name of
    /// this one.
    pub fn update(self) -> (request: Request<UpdateSectionArgs>)
        requires
            !is_key(self.id@),
        ensures
            is_rooted(request.path@),
            request.asks(
                RequestMethod::Post,
                "/sections"@ + resource_text(self.id@),
                Some(UpdateSectionArgs { name: self.name }),
                false,
            ),
    {
        update_section(self.id, self.name)
    }

    /// The request that deletes the section.
    pub fn delete(self) -> (request: Request<()>)
        requires
            !is_key(self.id@),
        ensures
            is_rooted(request.path@),
            request.asks(
                RequestMethod::Delete,
                "/sections"@ + resource_text(self.id@),
                None,
                false,
            ),
    {
        delete_section(self.id)
    }
}

} // verus!
