//! Laws of the CRUD operations, stated over the table model and proved
//! for every well-formed table.

use vstd::prelude::*;

use crate::error::ErrorModel;
use crate::models::UserModel;
use crate::store::TableModel;
use crate::store::has_id;
use crate::store::has_username;
use crate::store::idx_of_id;
use crate::store::ids_unique;
use crate::store::lemma_idx_of_id_unique;
use crate::store::spec_create;
use crate::store::spec_delete;
use crate::store::spec_get_by_id;
use crate::store::spec_update;
use crate::store::table_wf;

verus! {

/// Creating a user with a previously unused, non-empty username always
/// succeeds, and the created record's `created_at` equals its
/// `updated_at`.  The one input left out by the premises: a table whose
/// 64-bit identifier pool is exhausted.
pub proof fn lemma_create_fresh_username_succeeds(
    t: TableModel,
    username: Seq<char>,
    name: Option<Seq<char>>,
    now: i64,
)
    requires
        table_wf(t),
        username.len() > 0,
        !has_username(t.users, username),
        t.next_id < u64::MAX,
    ensures
        ({
            let (t2, res) = spec_create(t, Some(username), name, now);
            &&& res matches Ok(u) && u.created_at == u.updated_at && u.username == Some(username)
            &&& t2.users.len() == t.users.len() + 1
        }),
{
}

/// Creating a second user with a username already held by a record
/// returns `BusyUsername` and leaves the table — in particular its row
/// count — unchanged.
pub proof fn lemma_create_busy_username(
    t: TableModel,
    username: Seq<char>,
    name: Option<Seq<char>>,
    now: i64,
)
    requires
        username.len() > 0,
        has_username(t.users, username),
    ensures
        spec_create(t, Some(username), name, now) == (
            t,
            Err::<UserModel, ErrorModel>(ErrorModel::BusyUsername { username }),
        ),
{
}

/// Deleting an identifier no record holds returns `NotFound` and leaves
/// the table unchanged.
pub proof fn lemma_delete_missing_id(t: TableModel, id: u64)
    requires
        !has_id(t.users, id),
    ensures
        spec_delete(t, Some(id)) == (
            t,
            Err::<UserModel, ErrorModel>(ErrorModel::NotFound { entity: "User"@ }),
        ),
{
}

/// Updating only `name` on an existing record changes `name` and
/// `updated_at`, and leaves `id`, `username`, `premium`, `created_at` and
/// every other record unchanged.  The premise on `now` is what a clock
/// read after the record's last write gives: a strictly later timestamp.
pub proof fn lemma_update_name_only(t: TableModel, id: u64, name: Seq<char>, now: i64)
    requires
        table_wf(t),
        has_id(t.users, id),
        now > t.users[idx_of_id(t.users, id)].updated_at,
    ensures
        ({
            let i = idx_of_id(t.users, id);
            let stored = t.users[i];
            let (t2, res) = spec_update(t, Some(id), None, Some(name), now);
            &&& res matches Ok(u)
                && {
                &&& u.id == stored.id
                &&& u.username == stored.username
                &&& u.premium == stored.premium
                &&& u.created_at == stored.created_at
                &&& u.name == name
                &&& u.updated_at == now
                &&& u.updated_at != stored.updated_at
                &&& t2.users == t.users.update(i, u)
            }
            &&& forall|j: int|
                0 <= j < t2.users.len() && j != i ==> #[trigger] t2.users[j] == t.users[j]
        }),
{
    let i = idx_of_id(t.users, id);
    assert(0 <= i < t.users.len() && t.users[i].id == id);
    assert(t.users[i].updated_at >= t.users[i].created_at);
}

/// Round trip: a freshly created record is returned by a read of its
/// identifier; deleting that identifier returns the same record and
/// restores the former rows; a further read then reports `NotFound`.
pub proof fn lemma_user_round_trip(
    t: TableModel,
    username: Seq<char>,
    name: Option<Seq<char>>,
    now: i64,
)
    requires
        table_wf(t),
        username.len() > 0,
        !has_username(t.users, username),
        t.next_id < u64::MAX,
    ensures
        ({
            let (t1, res) = spec_create(t, Some(username), name, now);
            &&& res matches Ok(u)
                && {
                &&& spec_get_by_id(t1, u.id) == Ok::<UserModel, ErrorModel>(u)
                &&& spec_delete(t1, Some(u.id)).1 == Ok::<UserModel, ErrorModel>(u)
                &&& spec_delete(t1, Some(u.id)).0.users == t.users
                &&& spec_get_by_id(spec_delete(t1, Some(u.id)).0, u.id) == Err::<
                    UserModel,
                    ErrorModel,
                >(ErrorModel::NotFound { entity: "User"@ })
            }
        }),
{
    let (t1, res) = spec_create(t, Some(username), name, now);
    let u = res->Ok_0;
    let s1 = t1.users;
    let last = s1.len() - 1;
    assert(s1[last].id == u.id);
    assert(ids_unique(s1)) by {
        assert forall|a: int, b: int|
            0 <= a < s1.len() && 0 <= b < s1.len() && a != b implies #[trigger] s1[a].id
            != #[trigger] s1[b].id by {
            if a < last && b < last {
                assert(s1[a] == t.users[a] && s1[b] == t.users[b]);
            } else if a == last {
                assert(s1[b] == t.users[b] && t.users[b].id < t.next_id);
            } else {
                assert(s1[a] == t.users[a] && t.users[a].id < t.next_id);
            }
        }
    }
    lemma_idx_of_id_unique(s1, last, u.id);
    assert(s1.remove(last) =~= t.users);
    assert(!has_id(t.users, u.id)) by {
        if has_id(t.users, u.id) {
            let k = idx_of_id(t.users, u.id);
            assert(0 <= k < t.users.len() && t.users[k].id == u.id);
            assert(t.users[k].id < t.next_id);
        }
    }
}

} // verus!
