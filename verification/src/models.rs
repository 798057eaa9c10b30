//! The user record and the request/response shapes of the service.

use vstd::prelude::*;

verus! {

/// Mathematical model of a stored user record: every string field is
/// abstracted to its character sequence.
#[verifier::ext_equal]
pub struct UserModel {
    pub id: u64,
    pub username: Option<Seq<char>>,
    pub name: Seq<char>,
    pub premium: bool,
    pub created_at: i64,
    pub updated_at: i64,
}

/// A stored user record.
///
/// `id` is assigned by the store at creation and never reused; `username`,
/// when present, is unique across live records; `created_at` and
/// `updated_at` are timestamps (microseconds since the Unix epoch) with
/// `updated_at >= created_at`.
pub struct User {
    pub id: u64,
    pub username: Option<String>,
    pub name: String,
    pub premium: bool,
    pub created_at: i64,
    pub updated_at: i64,
}

/// The view of an optional string: the character sequence, if present.
pub open spec fn opt_view(s: Option<String>) -> Option<Seq<char>> {
    match s {
        Some(x) => Some(x@),
        None => None,
    }
}

impl View for User {
    type V = UserModel;

    open spec fn view(&self) -> UserModel {
        UserModel {
            id: self.id,
            username: opt_view(self.username),
            name: self.name@,
            premium: self.premium,
            created_at: self.created_at,
            updated_at: self.updated_at,
        }
    }
}

impl Clone for User {
    fn clone(&self) -> (r: Self)
        ensures
            r@ == self@,
    {
        User {
            id: self.id,
            username: match &self.username {
                Some(u) => Some(u.clone()),
                None => None,
            },
            name: self.name.clone(),
            premium: self.premium,
            created_at: self.created_at,
            updated_at: self.updated_at,
        }
    }
}

/// One page of the user listing: `count` is the number of records returned
/// in this page, `limit` and `offset` echo the (defaulted) pagination
/// parameters the page was read with.
pub struct Users {
    pub count: i32,
    pub limit: i32,
    pub offset: i32,
    pub users: Vec<User>,
}

/// The query parameters of the listing endpoint: optional exact-match
/// filters on `id` and `username`, and pagination.
pub struct Get {
    pub id: Option<u64>,
    pub username: Option<String>,
    pub limit: Option<i32>,
    pub offset: Option<i32>,
}

impl Default for Get {
    fn default() -> (r: Self)
        ensures
            r.id is None,
            r.username is None,
            r.limit == Some(20i32),
            r.offset == Some(0i32),
    {
        Get { id: None, username: None, limit: Some(20), offset: Some(0) }
    }
}

/// The bare pagination parameters of the listing endpoint.
pub struct GetUsers {
    pub limit: Option<i32>,
    pub offset: Option<i32>,
}

impl Default for GetUsers {
    fn default() -> (r: Self)
        ensures
            r.limit == Some(20i32),
            r.offset == Some(0i32),
    {
        GetUsers { limit: Some(20), offset: Some(0) }
    }
}

/// The body of a create request: `username` is required and must be
/// non-empty; `name` defaults to "User" when omitted.
pub struct Create {
    pub username: Option<String>,
    pub name: Option<String>,
}

impl Default for Create {
    fn default() -> (r: Self)
        ensures
            r.username is None,
            r.name matches Some(n) && n@ == "User"@,
    {
        Create { username: None, name: Some("User".to_owned()) }
    }
}

/// The body of a create request, under the flat model namespace's name.
pub type CreateUser = Create;

/// The body of an update request: `id` is required; only the supplied
/// fields overwrite stored values.
pub struct Update {
    pub id: Option<u64>,
    pub username: Option<String>,
    pub name: Option<String>,
}

impl Default for Update {
    fn default() -> (r: Self)
        ensures
            r.id is None,
            r.username is None,
            r.name is None,
    {
        Update { id: None, username: None, name: None }
    }
}

/// The body of a delete request: `id` is required.
pub struct Delete {
    pub id: Option<u64>,
}

impl Default for Delete {
    fn default() -> (r: Self)
        ensures
            r.id is None,
    {
        Delete { id: None }
    }
}

/// The body of the health endpoint's reply.
pub struct Health {
    pub successful: bool,
}

} // verus!
