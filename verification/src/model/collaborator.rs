//! Those who share a project.

use vstd::prelude::*;

verus! {

/// Someone a project is shared with.
#[derive(Debug, Clone)]
pub struct Collaborator {
    /// The collaborator's ID.
    pub id: String,
    /// The collaborator's name.
    pub name: String,
    /// The collaborator's email address.
    pub email: String,
}

} // verus!
