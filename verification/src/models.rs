//! Locally stored records: the signed-in user, projects and screenshots.

use vstd::prelude::*;
use crate::settings::{LoginResponse, RemoteOrganization, RemoteProject};

verus! {

/// The signed-in user with the tokens used for the server.
#[derive(Debug, Clone, PartialEq, Eq)]
pub struct User {
    pub id: i64,
    pub remote_id: String,
    pub email: String,
    pub name: String,
    pub avatar: Option<String>,
    pub role: String,
    pub access_token: String,
    pub refresh_token: String,
    pub created_at: String,
    pub org_id: Option<String>,
    pub org_name: Option<String>,
}

/// A project the user can track time on.
#[derive(Debug, Clone, PartialEq, Eq)]
pub struct Project {
    pub id: i64,
    pub remote_id: String,
    pub name: String,
    pub is_active: i64,
    pub created_at: String,
}

/// A captured screenshot waiting for upload.
#[derive(Debug, Clone, PartialEq, Eq)]
pub struct Screenshot {
    pub id: i64,
    pub time_slot_id: i64,
    pub file_path: String,
    pub taken_at: String,
    pub synced: i64,
}

impl User {
    /// The local record of a freshly signed-in user: the server's profile
    /// and tokens, with no local id and no organization yet.
    pub fn from_login(res: LoginResponse) -> (u: User)
        ensures
            u.id == 0,
            u.remote_id == res.user.id,
            u.email == res.user.email,
            u.name == res.user.name,
            u.avatar == res.user.avatar,
            u.role == res.user.role,
            u.access_token == res.access_token,
            u.refresh_token == res.refresh_token,
            u.created_at == res.user.created_at,
            u.org_id is None,
            u.org_name is None,
    {
        User {
            id: 0,
            remote_id: res.user.id,
            email: res.user.email,
            name: res.user.name,
            avatar: res.user.avatar,
            role: res.user.role,
            access_token: res.access_token,
            refresh_token: res.refresh_token,
            created_at: res.user.created_at,
            org_id: None,
            org_name: None,
        }
    }

    /// Whether the user's organization still has to be looked up.
    pub fn needs_org_backfill(&self) -> (r: bool)
        ensures
            r == (self.org_name is None),
    {
        self.org_name.is_none()
    }

    /// The user with the first listed organization attached; `None` when
    /// the list is empty.
    pub fn with_first_org(self, orgs: &Vec<RemoteOrganization>) -> (r: Option<User>)
        ensures
            orgs@.len() == 0 ==> r is None,
            orgs@.len() > 0 ==> r == Some(
                User {
                    org_id: Some(orgs@[0].id),
                    org_name: Some(orgs@[0].name),
                    ..self
                },
            ),
    {
        if orgs.len() == 0 {
            return None;
        }
        let id = orgs[0].id.clone();
        let name = orgs[0].name.clone();
        Some(User { org_id: Some(id), org_name: Some(name), ..self })
    }
}

impl Project {
    /// The local record of a project listed by the server, active and
    /// created at `created_at`.
    pub fn from_remote(p: RemoteProject, created_at: String) -> (r: Project)
        ensures
            r == (Project {
                id: 0,
                remote_id: p.id,
                name: p.name,
                is_active: 1,
                created_at,
            }),
    {
        Project { id: 0, remote_id: p.id, name: p.name, is_active: 1, created_at }
    }
}

} // verus!
