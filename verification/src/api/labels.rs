//! Labels. A personal label belongs to the user and has an ID; a shared label
//! is known by its name alone.

use vstd::prelude::*;
use vstd::string::StringExecFns;
use crate::model::color::Color;
use crate::request::models::{
    CreateNewPersonalLabelArgs,
    RemoveSharedLabelsArgs,
    RenameSharedLabelsArgs,
    UpdatePersonalLabelArgs,
};
use crate::request::paths::{
    is_key,
    item_path,
    resource_text,
    LABELS,
    LABELS_SHARED,
    LABELS_SHARED_REMOVE,
    LABELS_SHARED_RENAME,
};
use crate::request::{is_rooted, Request, RequestMethod};

verus! {

/// The request for all personal labels.
pub fn get_all_personal_labels() -> (request: Request<()>)
    ensures
        is_rooted(request.path@),
        request.asks(RequestMethod::Get, "/labels"@, None, false),
{
    proof {
        reveal_strlit("/labels");
    }
    Request::get(String::from_str(LABELS))
}

/// The request that creates a personal label.
pub fn create_new_personal_label(
    name: String,
    order: Option<u32>,
    color: Option<Color>,
    is_favorite: Option<bool>,
) -> (request: Request<CreateNewPersonalLabelArgs>)
    ensures
        is_rooted(request.path@),
        request.asks(
            RequestMethod::Post,
            "/labels"@,
            Some(CreateNewPersonalLabelArgs { name, order, color, is_favorite }),
            true,
        ),
{
    proof {
        reveal_strlit("/labels");
    }
    Request::post(
        String::from_str(LABELS),
        Some(CreateNewPersonalLabelArgs { name, order, color, is_favorite }),
        true,
    )
}

/// The request for one personal label.
pub fn get_personal_label(label_id: String) -> (request: Request<()>)
    requires
        !is_key(label_id@),
    ensures
        is_rooted(request.path@),
        request.asks(RequestMethod::Get, "/labels"@ + resource_text(label_id@), None, false),
{
    Request::get(get_label_path(label_id))
}

/// The request that changes a personal label.
pub fn update_personal_label(
    label_id: String,
    name: Option<String>,
    order: Option<u32>,
    color: Option<Color>,
    is_favorite: Option<bool>,
) -> (request: Request<UpdatePersonalLabelArgs>)
    requires
        !is_key(label_id@),
    ensures
        is_rooted(request.path@),
        request.asks(
            RequestMethod::Post,
            "/labels"@ + resource_text(label_id@),
            Some(UpdatePersonalLabelArgs { name, order, color, is_favorite }),
            true,
        ),
{
    Request::post(
        get_label_path(label_id),
        Some(UpdatePersonalLabelArgs { name, order, color, is_favorite }),
        true,
    )
}

/// The request that deletes a personal label, and with it every use of the
/// label on a task.
pub fn delete_personal_label(label_id: String) -> (request: Request<()>)
    requires
        !is_key(label_id@),
    ensures
        is_rooted(request.path@),
        request.asks(RequestMethod::Delete, "/labels"@ + resource_text(label_id@), None, false),
{
    Request::delete(get_label_path(label_id))
}

/// The query string that says whether personal labels are to be left out.
pub open spec fn omit_personal_query(omit_personal: Option<bool>) -> Seq<char> {
    match omit_personal {
        Some(true) => "?omit_personal=true"@,
        Some(false) => "?omit_personal=false"@,
        None => ""@,
    }
}

/// The request for the names of all shared labels in use. The names of the
/// personal labels come with them unless `omit_personal` is true.
pub fn get_all_shared_labels(omit_personal: Option<bool>) -> (request: Request<()>)
    ensures
        is_rooted(request.path@),
        request.asks(
            RequestMethod::Get,
            "/labels/shared"@ + omit_personal_query(omit_personal),
            None,
            false,
        ),
{
    proof {
        reveal_strlit("/labels/shared");
    }
    let mut path = String::from_str(LABELS_SHARED);
    match omit_personal {
        Some(true) => path.append("?omit_personal=true"),
        Some(false) => path.append("?omit_personal=false"),
        None => path.append(""),
    }
    Request::get(path)
}

/// The request that renames a shared label wherever it is used.
pub fn rename_shared_labels(name: String, new_name: String) -> (request: Request<
    RenameSharedLabelsArgs,
>)
    ensures
        is_rooted(request.path@),
        request.asks(
            RequestMethod::Post,
            "/labels/shared/rename"@,
            Some(RenameSharedLabelsArgs { name, new_name }),
            true,
        ),
{
    proof {
        reveal_strlit("/labels/shared/rename");
    }
    Request::post(
        String::from_str(LABELS_SHARED_RENAME),
        Some(RenameSharedLabelsArgs { name, new_name }),
        true,
    )
}

/// The request that removes a shared label wherever it is used.
pub fn remove_shared_labels(name: String) -> (request: Request<RemoveSharedLabelsArgs>)
    ensures
        is_rooted(request.path@),
        request.asks(
            RequestMethod::Post,
            "/labels/shared/remove"@,
            Some(RemoveSharedLabelsArgs { name }),
            true,
        ),
{
    proof {
        reveal_strlit("/labels/shared/remove");
    }
    Request::post(
        String::from_str(LABELS_SHARED_REMOVE),
        Some(RemoveSharedLabelsArgs { name }),
        true,
    )
}

/// The path of one personal label.
pub fn get_label_path(label_id: String) -> (path: String)
    requires
        !is_key(label_id@),
    ensures
        path@ == "/labels"@ + resource_text(label_id@),
        path@.len() > 0 && path@[0] == '/',
{
    proof {
        reveal_strlit("/labels");
    }
    item_path(LABELS, label_id.as_str())
}

} // verus!
