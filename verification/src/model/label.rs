//! Personal labels.

use vstd::prelude::*;
use crate::api::labels::{
    create_new_personal_label,
    delete_personal_label,
    get_personal_label,
    update_personal_label,
};
use crate::model::color::Color;
use crate::request::models::{CreateNewPersonalLabelArgs, UpdatePersonalLabelArgs};
use crate::request::paths::{is_key, resource_text};
use crate::request::{is_rooted, Request, RequestMethod};

verus! {

/// A personal label.
#[derive(Debug, Clone)]
pub struct PersonalLabel {
    /// The label ID.
    pub id: String,
    /// The label name.
    pub name: String,
    /// The color of the label icon.
    pub color: Color,
    /// The number by which clients sort the list of labels.
    pub order: u32,
    /// Whether the label is a favorite.
    pub is_favorite: bool,
}

impl PersonalLabel {
    /// The request that creates a label like this one, under a new ID.
    pub fn create_new_copy(self) -> (request: Request<CreateNewPersonalLabelArgs>)
        ensures
            is_rooted(request.path@),
            request.asks(
                RequestMethod::Post,
                "/labels"@,
                Some(
                    CreateNewPersonalLabelArgs {
                        name: self.name,
                        order: Some(self.order),
                        color: Some(self.color),
                        is_favorite: Some(self.is_favorite),
                    },
                ),
                true,
            ),
    {
        create_new_personal_label(
            self.name,
            Some(self.order),
            Some(self.color),
            Some(self.is_favorite),
        )
    }

    /// The request for the label as the service holds it now.
    pub fn retrieve_updated(self) -> (request: Request<()>)
        requires
            !is_key(self.id@),
        ensures
            is_rooted(request.path@),
            request.asks(RequestMethod::Get, "/labels"@ + resource_text(self.id@), None, false),
    {
        get_personal_label(self.id)
    }

    /// The request that writes this label over the one that the service holds.
    pub fn update(self) -> (request: Request<UpdatePersonalLabelArgs>)
        requires
            !is_key(self.id@),
        ensures
            is_rooted(request.path@),
            request.asks(
                RequestMethod::Post,
                "/labels"@ + resource_text(self.id@),
                Some(
                    UpdatePersonalLabelArgs {
                        name: Some(self.name),
                        order: Some(self.order),
                        color: Some(self.color),
                        is_favorite: Some(self.is_favorite),
                    },
                ),
                true,
            ),
    {
        update_personal_label(
            self.id,
            Some(self.name),
            Some(self.order),
            Some(self.color),
            Some(self.is_favorite),
        )
    }

    /// The request that deletes the label.
    pub fn delete(self) -> (request: Request<()>)
        requires
            !is_key(self.id@),
        ensures
            is_rooted(request.path@),
            request.asks(
                RequestMethod::Delete,
                "/labels"@ + resource_text(self.id@),
                None,
                false,
            ),
    {
        delete_personal_label(self.id)
    }
}

} // verus!
