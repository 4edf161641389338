//! Project rows: each owned by one user, with a non-empty name.

use vstd::prelude::*;

verus! {

/// A project row.
#[derive(Debug)]
pub struct Project {
    /// The unique identifier of the project.
    pub id: u128,
    /// The project's name; never empty.
    pub name: String,
    /// The user who owns the project.
    pub user_id: u128,
    /// When the project was created, ISO-8601 UTC.
    pub created_at: String,
    /// When the project was last updated, ISO-8601 UTC.
    pub updated_at: String,
}

/// The mathematical form of a project row.
pub struct ProjectV {
    pub id: u128,
    pub name: Seq<char>,
    pub user_id: u128,
    pub created_at: Seq<char>,
    pub updated_at: Seq<char>,
}

impl View for Project {
    type V = ProjectV;

    open spec fn view(&self) -> ProjectV {
        ProjectV {
            id: self.id,
            name: self.name@,
            user_id: self.user_id,
            created_at: self.created_at@,
            updated_at: self.updated_at@,
        }
    }
}

impl Project {
    /// The row's invariant: the name is non-empty.
    pub open spec fn wf(self) -> bool {
        self.name@.len() > 0
    }
}

/// The row for a newly created project: owned by `owner`, stamped `now` as
/// both its creation and update time. An empty name is refused.
pub fn create_project(owner: u128, name: String, id: u128, now: String) -> (r: Option<Project>)
    ensures
        match r {
            Some(p) => name@.len() > 0 && p@ == (ProjectV {
                id,
                name: name@,
                user_id: owner,
                created_at: now@,
                updated_at: now@,
            }) && p.wf(),
            None => name@.len() == 0,
        },
{
    if name.as_str().is_empty() {
        return None;
    }
    let created_at = now.clone();
    Some(Project { id, name, user_id: owner, created_at, updated_at: now })
}

} // verus!
