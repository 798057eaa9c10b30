//! The user table: the in-process store of user records.  A concurrent
//! deployment shares one table behind a lock; the operations themselves
//! are sequential.
//!
//! The table keeps records in insertion order and assigns identifiers from
//! a monotone counter, so an identifier is never reused.  Its
//! well-formedness invariant carries the data-model guarantees: identifiers
//! are unique, usernames (when present) are unique, and `updated_at` never
//! precedes `created_at`.

use vstd::prelude::*;

use crate::error::ErrorModel;
use crate::models::User;
use crate::models::UserModel;

verus! {

/// Mathematical model of the whole store: the records in insertion order,
/// and the identifier the next created record will receive.
#[verifier::ext_equal]
pub struct TableModel {
    pub users: Seq<UserModel>,
    pub next_id: u64,
}

/// The store of user records.
pub struct UserTable {
    pub users: Vec<User>,
    pub next_id: u64,
}

/// The model of a sequence of records.
pub open spec fn models(s: Seq<User>) -> Seq<UserModel> {
    s.map_values(|u: User| u@)
}

impl View for UserTable {
    type V = TableModel;

    open spec fn view(&self) -> TableModel {
        TableModel { users: models(self.users@), next_id: self.next_id }
    }
}

/// No two records share an identifier.
pub open spec fn ids_unique(s: Seq<UserModel>) -> bool {
    forall|i: int, j: int|
        0 <= i < s.len() && 0 <= j < s.len() && i != j ==> #[trigger] s[i].id != #[trigger] s[j].id
}

/// No two records share a present username.
pub open spec fn usernames_unique(s: Seq<UserModel>) -> bool {
    forall|i: int, j: int|
        0 <= i < s.len() && 0 <= j < s.len() && i != j && #[trigger] s[i].username is Some ==> s[i].username
            != #[trigger] s[j].username
}

/// Every record was updated no earlier than it was created.
pub open spec fn timestamps_ordered(s: Seq<UserModel>) -> bool {
    forall|i: int| 0 <= i < s.len() ==> #[trigger] s[i].updated_at >= s[i].created_at
}

/// Every identifier in use is below the counter, so a created record can
/// never collide with, nor resurrect, an existing one.
pub open spec fn ids_below(s: Seq<UserModel>, next_id: u64) -> bool {
    forall|i: int| 0 <= i < s.len() ==> #[trigger] s[i].id < next_id
}

/// Well-formedness of a table model.
pub open spec fn table_wf(t: TableModel) -> bool {
    &&& ids_unique(t.users)
    &&& usernames_unique(t.users)
    &&& timestamps_ordered(t.users)
    &&& ids_below(t.users, t.next_id)
}

/// Some record holds the identifier `id`.
pub open spec fn has_id(s: Seq<UserModel>, id: u64) -> bool {
    exists|i: int| 0 <= i < s.len() && #[trigger] s[i].id == id
}

/// The index of the record holding `id` (meaningful only when `has_id`).
pub open spec fn idx_of_id(s: Seq<UserModel>, id: u64) -> int {
    choose|i: int| 0 <= i < s.len() && #[trigger] s[i].id == id
}

/// Some record holds the username `u`.
pub open spec fn has_username(s: Seq<UserModel>, u: Seq<char>) -> bool {
    exists|i: int| 0 <= i < s.len() && #[trigger] s[i].username == Some(u)
}

/// The index of the record holding username `u` (meaningful only when
/// `has_username`).
pub open spec fn idx_of_username(s: Seq<UserModel>, u: Seq<char>) -> int {
    choose|i: int| 0 <= i < s.len() && #[trigger] s[i].username == Some(u)
}

/// Some record other than the one with identifier `id` holds username `u`.
pub open spec fn has_username_other(s: Seq<UserModel>, u: Seq<char>, id: u64) -> bool {
    exists|i: int| 0 <= i < s.len() && #[trigger] s[i].username == Some(u) && s[i].id != id
}

impl UserTable {
    /// The table is well formed.
    pub open spec fn wf(&self) -> bool {
        table_wf(self@)
    }

    /// An empty table; identifiers start at 1.
    pub fn new() -> (r: UserTable)
        ensures
            r.wf(),
            r@.users == Seq::<UserModel>::empty(),
            r@.next_id == 1u64,
    {
        let r = UserTable { users: Vec::new(), next_id: 1 };
        proof {
            assert(models(r.users@) =~= Seq::<UserModel>::empty());
        }
        r
    }

    /// The number of records currently stored.
    pub fn len(&self) -> (r: usize)
        ensures
            r == self@.users.len(),
    {
        self.users.len()
    }

    /// The index of the record holding `id`, if any.
    pub(crate) fn find_by_id(&self, id: u64) -> (r: Option<usize>)
        ensures
            match r {
                Some(i) => i < self@.users.len() && self@.users[i as int].id == id,
                None => !has_id(self@.users, id),
            },
    {
        let ghost s = self@.users;
        let n = self.users.len();
        let mut i: usize = 0;
        while i < n
            invariant
                n == self.users.len(),
                s == self@.users,
                i <= n,
                forall|k: int| 0 <= k < i ==> #[trigger] s[k].id != id,
            decreases n - i,
        {
            if self.users[i].id == id {
                return Some(i);
            }
            i += 1;
        }
        None
    }

    /// The index of the record holding username `u`, if any.
    pub(crate) fn find_by_username(&self, u: &String) -> (r: Option<usize>)
        ensures
            match r {
                Some(i) => i < self@.users.len() && self@.users[i as int].username == Some(u@),
                None => !has_username(self@.users, u@),
            },
    {
        let ghost s = self@.users;
        let n = self.users.len();
        let mut i: usize = 0;
        while i < n
            invariant
                n == self.users.len(),
                s == self@.users,
                i <= n,
                forall|k: int| 0 <= k < i ==> #[trigger] s[k].username != Some(u@),
            decreases n - i,
        {
            match &self.users[i].username {
                Some(name) => {
                    if *name == *u {
                        return Some(i);
                    }
                },
                None => {},
            }
            i += 1;
        }
        None
    }

    /// The index of a record other than the one with identifier `id` that
    /// holds username `u`, if any.
    pub(crate) fn find_by_username_excluding(&self, u: &String, id: u64) -> (r: Option<usize>)
        ensures
            match r {
                Some(i) => i < self@.users.len() && self@.users[i as int].username == Some(u@)
                    && self@.users[i as int].id != id,
                None => !has_username_other(self@.users, u@, id),
            },
    {
        let ghost s = self@.users;
        let n = self.users.len();
        let mut i: usize = 0;
        while i < n
            invariant
                n == self.users.len(),
                s == self@.users,
                i <= n,
                forall|k: int|
                    0 <= k < i ==> !(#[trigger] s[k].username == Some(u@) && s[k].id != id),
            decreases n - i,
        {
            if self.users[i].id != id {
                match &self.users[i].username {
                    Some(name) => {
                        if *name == *u {
                            return Some(i);
                        }
                    },
                    None => {},
                }
            }
            i += 1;
        }
        None
    }
}

/// With unique identifiers, any index holding `id` is the index
/// `idx_of_id` denotes.
pub proof fn lemma_idx_of_id_unique(s: Seq<UserModel>, i: int, id: u64)
    requires
        ids_unique(s),
        0 <= i < s.len(),
        s[i].id == id,
    ensures
        has_id(s, id),
        idx_of_id(s, id) == i,
{
    assert(has_id(s, id));
    let j = idx_of_id(s, id);
    assert(0 <= j < s.len() && s[j].id == id);
    if j != i {
        assert(s[j].id != s[i].id);
    }
}

/// With unique usernames, any index holding username `u` is the index
/// `idx_of_username` denotes.
pub proof fn lemma_idx_of_username_unique(s: Seq<UserModel>, i: int, u: Seq<char>)
    requires
        usernames_unique(s),
        0 <= i < s.len(),
        s[i].username == Some(u),
    ensures
        has_username(s, u),
        idx_of_username(s, u) == i,
{
    assert(has_username(s, u));
    let j = idx_of_username(s, u);
    assert(0 <= j < s.len() && s[j].username == Some(u));
    if j != i {
        assert(s[j].username != s[i].username);
    }
}

/// The display name a created record receives: the supplied one, or the
/// placeholder "User".
pub open spec fn spec_name_or_placeholder(name: Option<Seq<char>>) -> Seq<char> {
    match name {
        Some(n) => n,
        None => "User"@,
    }
}

/// The `updated_at` a mutating write leaves behind: the current time,
/// clamped so that it never precedes the record's creation.
pub open spec fn spec_refreshed(created_at: i64, now: i64) -> i64 {
    if now >= created_at {
        now
    } else {
        created_at
    }
}

/// What an exact-match read by identifier returns.
pub open spec fn spec_get_by_id(t: TableModel, id: u64) -> Result<UserModel, ErrorModel> {
    if has_id(t.users, id) {
        Ok(t.users[idx_of_id(t.users, id)])
    } else {
        Err(ErrorModel::NotFound { entity: "User"@ })
    }
}

/// What an exact-match read by username returns.
pub open spec fn spec_get_by_username(t: TableModel, u: Seq<char>) -> Result<
    UserModel,
    ErrorModel,
> {
    if has_username(t.users, u) {
        Ok(t.users[idx_of_username(t.users, u)])
    } else {
        Err(ErrorModel::NotFound { entity: "User"@ })
    }
}

/// What a create performed at time `now` does to the table, and what it
/// returns.  A missing or empty username is rejected before the store is
/// touched; a username already in use yields `BusyUsername` and no write;
/// an exhausted identifier pool is a store-integrity failure.
pub open spec fn spec_create(
    t: TableModel,
    username: Option<Seq<char>>,
    name: Option<Seq<char>>,
    now: i64,
) -> (TableModel, Result<UserModel, ErrorModel>) {
    if username is None {
        (t, Err(ErrorModel::InvalidField { field: "username"@, explanation: "not none"@ }))
    } else if username->0.len() == 0 {
        (t, Err(ErrorModel::InvalidField { field: "username"@, explanation: "not empty"@ }))
    } else if has_username(t.users, username->0) {
        (t, Err(ErrorModel::BusyUsername { username: username->0 }))
    } else if t.next_id == u64::MAX {
        (t, Err(ErrorModel::Internal { err: "identifier pool exhausted"@ }))
    } else {
        let new = UserModel {
            id: t.next_id,
            username: Some(username->0),
            name: spec_name_or_placeholder(name),
            premium: false,
            created_at: now,
            updated_at: now,
        };
        (TableModel { users: t.users.push(new), next_id: (t.next_id + 1) as u64 }, Ok(new))
    }
}

/// What a partial update performed at time `now` does to the table, and
/// what it returns.  A missing `id` is rejected first; then a username
/// held by a different record yields `BusyUsername` before any write; then
/// an unknown `id` yields `NotFound`.  Only the supplied fields overwrite
/// stored values, and `updated_at` is refreshed.
pub open spec fn spec_update(
    t: TableModel,
    id: Option<u64>,
    username: Option<Seq<char>>,
    name: Option<Seq<char>>,
    now: i64,
) -> (TableModel, Result<UserModel, ErrorModel>) {
    if id is None {
        (t, Err(ErrorModel::InvalidField { field: "id"@, explanation: "not none"@ }))
    } else if username matches Some(u) && has_username_other(t.users, u, id->0) {
        (t, Err(ErrorModel::BusyUsername { username: username->0 }))
    } else if !has_id(t.users, id->0) {
        (t, Err(ErrorModel::NotFound { entity: "User"@ }))
    } else {
        let i = idx_of_id(t.users, id->0);
        let stored = t.users[i];
        let new = UserModel {
            id: stored.id,
            username: match username {
                Some(u) => Some(u),
                None => stored.username,
            },
            name: match name {
                Some(n) => n,
                None => stored.name,
            },
            premium: stored.premium,
            created_at: stored.created_at,
            updated_at: spec_refreshed(stored.created_at, now),
        };
        (TableModel { users: t.users.update(i, new), next_id: t.next_id }, Ok(new))
    }
}

/// What a delete does to the table, and what it returns: the removed
/// record on success, `NotFound` and no write when the identifier is not
/// held, `InvalidField` when it is missing from the request.
pub open spec fn spec_delete(t: TableModel, id: Option<u64>) -> (TableModel, Result<
    UserModel,
    ErrorModel,
>) {
    if id is None {
        (t, Err(ErrorModel::InvalidField { field: "id"@, explanation: "not none"@ }))
    } else if !has_id(t.users, id->0) {
        (t, Err(ErrorModel::NotFound { entity: "User"@ }))
    } else {
        let i = idx_of_id(t.users, id->0);
        (TableModel { users: t.users.remove(i), next_id: t.next_id }, Ok(t.users[i]))
    }
}

} // verus!
