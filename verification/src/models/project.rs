//! Projects and users, and the identifier that the store gives them.
//!
//! A record has no identifier before it is persisted and has one afterwards.
//! The client never chooses it: an identifier that arrives with a record to
//! create is dropped.

use vstd::prelude::*;

verus! {

/// The identifier that the store assigns to a record: twelve opaque bytes.
#[derive(Clone, Copy, Debug, PartialEq, Eq, PartialOrd, Ord, Hash)]
pub struct ObjectId {
    pub bytes: [u8; 12],
}

impl View for ObjectId {
    type V = Seq<u8>;

    open spec fn view(&self) -> Seq<u8> {
        self.bytes@
    }
}

/// The view of an identifier that may be absent.
pub open spec fn id_view(id: Option<ObjectId>) -> Option<Seq<u8>> {
    match id {
        Some(id) => Some(id@),
        None => None,
    }
}

/// A project.
#[derive(Clone, Debug, PartialEq, Eq)]
pub struct Projects {
    pub _id: Option<ObjectId>,
    pub project_name: String,
    pub project_owner_id: u64,
    pub start_date: String,
    pub end_date: String,
    pub project_member_id: u64,
}

/// What a project holds.
pub struct ProjectsView {
    pub id: Option<Seq<u8>>,
    pub project_name: Seq<char>,
    pub project_owner_id: nat,
    pub start_date: Seq<char>,
    pub end_date: Seq<char>,
    pub project_member_id: nat,
}

impl ProjectsView {
    /// The same project with no identifier.
    pub open spec fn without_id(self) -> ProjectsView {
        ProjectsView { id: None, ..self }
    }
}

impl View for Projects {
    type V = ProjectsView;

    open spec fn view(&self) -> ProjectsView {
        ProjectsView {
            id: id_view(self._id),
            project_name: self.project_name@,
            project_owner_id: self.project_owner_id as nat,
            start_date: self.start_date@,
            end_date: self.end_date@,
            project_member_id: self.project_member_id as nat,
        }
    }
}

impl Projects {
    /// A copy of this project as it is handed to the store for creation: all
    /// fields but the identifier, which is left for the store to assign.
    pub fn without_id(&self) -> (fresh: Projects)
        ensures
            fresh@ == self@.without_id(),
    {
        Projects {
            _id: None,
            project_name: self.project_name.clone(),
            project_owner_id: self.project_owner_id,
            start_date: self.start_date.clone(),
            end_date: self.end_date.clone(),
            project_member_id: self.project_member_id,
        }
    }
}

/// A user. The two timestamps are the client's; the service does not
/// maintain them.
#[derive(Clone, Debug, PartialEq, Eq)]
pub struct Users {
    pub _id: Option<ObjectId>,
    pub user_name: String,
    pub created: String,
    pub updated: String,
}

/// What a user holds.
pub struct UsersView {
    pub id: Option<Seq<u8>>,
    pub user_name: Seq<char>,
    pub created: Seq<char>,
    pub updated: Seq<char>,
}

impl UsersView {
    /// The same user with no identifier.
    pub open spec fn without_id(self) -> UsersView {
        UsersView { id: None, ..self }
    }
}

impl View for Users {
    type V = UsersView;

    open spec fn view(&self) -> UsersView {
        UsersView {
            id: id_view(self._id),
            user_name: self.user_name@,
            created: self.created@,
            updated: self.updated@,
        }
    }
}

impl Users {
    /// A copy of this user as it is handed to the store for creation: all
    /// fields but the identifier, which is left for the store to assign.
    pub fn without_id(&self) -> (fresh: Users)
        ensures
            fresh@ == self@.without_id(),
    {
        Users {
            _id: None,
            user_name: self.user_name.clone(),
            created: self.created.clone(),
            updated: self.updated.clone(),
        }
    }
}

} // verus!
