//! The CRUD handlers: one per operation, each composing validation, one
//! store operation and the response shaping.
//!
//! Every handler's contract states, over the table model, exactly which
//! inputs succeed, which error each rejected input yields, and what the
//! operation leaves in the table.

use vstd::prelude::*;

use crate::clock::now_micros;
use crate::error::Error;
use crate::error::ErrorModel;
use crate::models::Create;
use crate::models::Delete;
use crate::models::Get;
use crate::models::Health;
use crate::models::User;
use crate::models::Users;
use crate::models::Update;
use crate::models::UserModel;
use crate::models::opt_view;
use crate::store::UserTable;
use crate::store::lemma_idx_of_id_unique;
use crate::store::lemma_idx_of_username_unique;
use crate::store::models;
use crate::store::spec_create;
use crate::store::spec_delete;
use crate::store::spec_get_by_id;
use crate::store::spec_get_by_username;
use crate::store::spec_update;

verus! {

/// The handler result corresponds to the modelled result: same success or
/// failure, and the payload's model is the modelled payload.
pub open spec fn result_models(r: Result<User, Error>, m: Result<UserModel, ErrorModel>) -> bool {
    match (r, m) {
        (Ok(u), Ok(um)) => u@ == um,
        (Err(e), Err(em)) => e@ == em,
        _ => false,
    }
}

/// A record passes the listing filter: the absent predicates match every
/// record, the present ones match exactly.
pub open spec fn spec_matches(u: UserModel, qid: Option<u64>, qname: Option<Seq<char>>) -> bool {
    &&& (qid matches Some(i) ==> u.id == i)
    &&& (qname matches Some(n) ==> u.username == Some(n))
}

/// The records passing the listing filter, in stored order.
pub open spec fn spec_filtered(
    s: Seq<UserModel>,
    qid: Option<u64>,
    qname: Option<Seq<char>>,
) -> Seq<UserModel>
    decreases s.len(),
{
    if s.len() == 0 {
        Seq::empty()
    } else {
        let rest = spec_filtered(s.drop_last(), qid, qname);
        if spec_matches(s.last(), qid, qname) {
            rest.push(s.last())
        } else {
            rest
        }
    }
}

/// One page of a sequence: up to `limit` records starting at `offset`.
pub open spec fn spec_page(s: Seq<UserModel>, offset: int, limit: int) -> Seq<UserModel> {
    let start = if offset <= s.len() {
        offset
    } else {
        s.len() as int
    };
    let end = if offset + limit <= s.len() {
        offset + limit
    } else {
        s.len() as int
    };
    s.subrange(start, end)
}

/// The effective page size: the supplied one, or the default of 20.
pub open spec fn spec_limit(limit: Option<i32>) -> i32 {
    match limit {
        Some(l) => l,
        None => 20,
    }
}

/// The effective page start: the supplied one, or the default of 0.
pub open spec fn spec_offset(offset: Option<i32>) -> i32 {
    match offset {
        Some(o) => o,
        None => 0,
    }
}

/// The filtered, paginated listing.  The pagination parameters are
/// validated first — a limit outside `1 ..= 100` or a negative offset is
/// an invalid request and no read happens.  On success the page holds the
/// records passing the filter, in stored order, from `offset` on and at
/// most `limit` of them, and `count` is the number of records in this
/// page.
pub fn get_users(table: &UserTable, req: &Get) -> (r: Result<Users, Error>)
    requires
        table.wf(),
    ensures
        ({
            let lim = spec_limit(req.limit);
            let off = spec_offset(req.offset);
            match r {
                Ok(page) => {
                    &&& 1 <= lim <= 100
                    &&& 0 <= off
                    &&& page.limit == lim
                    &&& page.offset == off
                    &&& models(page.users@) == spec_page(
                        spec_filtered(table@.users, req.id, opt_view(req.username)),
                        off as int,
                        lim as int,
                    )
                    &&& page.count == page.users@.len()
                },
                Err(e) => {
                    &&& !(1 <= lim <= 100 && 0 <= off)
                    &&& e@ == (if !(1 <= lim <= 100) {
                        ErrorModel::InvalidField {
                            field: "limit"@,
                            explanation: "0 < limit <= 100"@,
                        }
                    } else {
                        ErrorModel::InvalidField { field: "offset"@, explanation: "0 <= offset"@ }
                    })
                },
            }
        }),
{
    let limit: i32 = match req.limit {
        Some(l) => l,
        None => 20,
    };
    if limit < 1 || limit > 100 {
        return Err(
            Error::InvalidField {
                field: "limit".to_owned(),
                explanation: "0 < limit <= 100".to_owned(),
            },
        );
    }
    let offset: i32 = match req.offset {
        Some(o) => o,
        None => 0,
    };
    if offset < 0 {
        return Err(
            Error::InvalidField { field: "offset".to_owned(), explanation: "0 <= offset".to_owned() },
        );
    }
    let ghost sv = table@.users;
    let ghost qname = opt_view(req.username);
    let n = table.users.len();
    let mut matched: Vec<User> = Vec::new();
    let mut i: usize = 0;
    while i < n
        invariant
            n == table.users.len(),
            sv == table@.users,
            qname == opt_view(req.username),
            i <= n,
            models(matched@) == spec_filtered(sv.take(i as int), req.id, qname),
        decreases n - i,
    {
        proof {
            assert(sv.take(i + 1).drop_last() =~= sv.take(i as int));
            assert(sv.take(i + 1).last() == sv[i as int]);
        }
        let u = &table.users[i];
        let id_ok = match req.id {
            Some(qid) => u.id == qid,
            None => true,
        };
        let name_ok = match (&req.username, &u.username) {
            (Some(qn), Some(un)) => *qn == *un,
            (Some(_), None) => false,
            (None, _) => true,
        };
        if id_ok && name_ok {
            let ghost before = matched@;
            matched.push(u.clone());
            proof {
                assert(models(before.push(matched@.last())) =~= models(before).push(
                    matched@.last()@,
                ));
            }
        }
        i += 1;
    }
    proof {
        assert(sv.take(n as int) =~= sv);
    }
    let ghost f = spec_filtered(sv, req.id, qname);
    let lim_u: usize = limit as usize;
    let off_u: usize = offset as usize;
    let mlen = matched.len();
    let start = if off_u <= mlen {
        off_u
    } else {
        mlen
    };
    let mut page: Vec<User> = Vec::new();
    let mut j = start;
    while j < mlen && page.len() < lim_u
        invariant
            mlen == matched.len(),
            models(matched@) == f,
            start <= j <= mlen,
            start == (if off_u <= mlen {
                off_u as int
            } else {
                mlen as int
            }),
            page@.len() == j - start,
            page@.len() <= lim_u,
            models(page@) == f.subrange(start as int, j as int),
        decreases mlen - j,
    {
        let ghost before = page@;
        page.push(matched[j].clone());
        proof {
            assert(models(before.push(page@.last())) =~= models(before).push(page@.last()@));
            assert(f.subrange(start as int, j + 1) =~= f.subrange(start as int, j as int).push(
                f[j as int],
            ));
        }
        j += 1;
    }
    proof {
        assert(f.len() == mlen);
        assert(models(page@) =~= spec_page(f, offset as int, limit as int));
    }
    let count: i32 = page.len() as i32;
    Ok(Users { count, limit, offset, users: page })
}

/// The health endpoint's reply: always successful.
pub fn healthcheck() -> (r: Health)
    ensures
        r.successful,
{
    Health { successful: true }
}

/// Exact-match read by identifier: the unique record holding `id`, or
/// `NotFound`.
pub fn get_user_by_id(table: &UserTable, id: u64) -> (r: Result<User, Error>)
    requires
        table.wf(),
    ensures
        result_models(r, spec_get_by_id(table@, id)),
{
    match table.find_by_id(id) {
        Some(i) => {
            let u = table.users[i].clone();
            proof {
                lemma_idx_of_id_unique(table@.users, i as int, id);
            }
            Ok(u)
        },
        None => Err(Error::NotFound { entity: "User".to_owned() }),
    }
}

/// Exact-match read by username: the unique record holding `username`, or
/// `NotFound`.
pub fn get_user_by_username(table: &UserTable, username: &String) -> (r: Result<User, Error>)
    requires
        table.wf(),
    ensures
        result_models(r, spec_get_by_username(table@, username@)),
{
    match table.find_by_username(username) {
        Some(i) => {
            let u = table.users[i].clone();
            proof {
                lemma_idx_of_username_unique(table@.users, i as int, username@);
            }
            Ok(u)
        },
        None => Err(Error::NotFound { entity: "User".to_owned() }),
    }
}

/// Transactional delete-and-return: removes the record holding the
/// requested identifier and hands it back; a missing `id` field is an
/// invalid request, an unknown identifier is `NotFound`, and in both
/// failure cases the table is untouched.
pub fn delete_user(table: &mut UserTable, req: &Delete) -> (r: Result<User, Error>)
    requires
        old(table).wf(),
    ensures
        final(table).wf(),
        final(table)@ == spec_delete(old(table)@, req.id).0,
        result_models(r, spec_delete(old(table)@, req.id).1),
{
    let id = match req.id {
        Some(id) => id,
        None => {
            return Err(
                Error::InvalidField { field: "id".to_owned(), explanation: "not none".to_owned() },
            );
        },
    };
    match table.find_by_id(id) {
        Some(i) => {
            let ghost s = old(table)@.users;
            let u = table.users.remove(i);
            proof {
                lemma_idx_of_id_unique(s, i as int, id);
                assert(models(old(table).users@.remove(i as int)) =~= models(
                    old(table).users@,
                ).remove(i as int));
                let s2 = final(table)@.users;
                assert forall|a: int| 0 <= a < s2.len() implies s2[a] == (if a < i {
                    s[a]
                } else {
                    s[a + 1]
                }) by {}
                assert(final(table).wf()) by {
                    assert forall|a: int, b: int|
                        0 <= a < s2.len() && 0 <= b < s2.len() && a != b implies #[trigger] s2[a].id
                        != #[trigger] s2[b].id by {}
                    assert forall|a: int, b: int|
                        0 <= a < s2.len() && 0 <= b < s2.len() && a != b
                            && #[trigger] s2[a].username is Some implies s2[a].username
                        != #[trigger] s2[b].username by {}
                }
            }
            Ok(u)
        },
        None => Err(Error::NotFound { entity: "User".to_owned() }),
    }
}

/// Create with the timestamp supplied: inside one synchronized operation,
/// insert a fresh record with a server-assigned identifier,
/// `premium = false` and `created_at = updated_at = now`.  A missing or
/// empty username is rejected before the store is touched; a username
/// already in use yields `BusyUsername`; in every failure case the table
/// is untouched.
pub fn create_user_at(table: &mut UserTable, req: &Create, now: i64) -> (r: Result<User, Error>)
    requires
        old(table).wf(),
    ensures
        final(table).wf(),
        final(table)@ == spec_create(old(table)@, opt_view(req.username), opt_view(req.name), now).0,
        result_models(
            r,
            spec_create(old(table)@, opt_view(req.username), opt_view(req.name), now).1,
        ),
{
    let uname = match &req.username {
        Some(u) => u,
        None => {
            return Err(
                Error::InvalidField {
                    field: "username".to_owned(),
                    explanation: "not none".to_owned(),
                },
            );
        },
    };
    if uname.as_str().is_empty() {
        return Err(
            Error::InvalidField { field: "username".to_owned(), explanation: "not empty".to_owned() },
        );
    }
    if table.find_by_username(uname).is_some() {
        return Err(Error::BusyUsername { username: uname.clone() });
    }
    if table.next_id == u64::MAX {
        return Err(Error::Internal { err: "identifier pool exhausted".to_owned() });
    }
    let u = User {
        id: table.next_id,
        username: Some(uname.clone()),
        name: match &req.name {
            Some(n) => n.clone(),
            None => "User".to_owned(),
        },
        premium: false,
        created_at: now,
        updated_at: now,
    };
    let result = u.clone();
    let ghost s = old(table)@.users;
    let ghost um = u@;
    table.users.push(u);
    table.next_id = table.next_id + 1;
    proof {
        assert(models(old(table).users@.push(result)) =~= models(old(table).users@).push(um));
        assert(final(table)@.users =~= s.push(um));
        let s2 = final(table)@.users;
        assert(final(table).wf()) by {
            assert forall|a: int, b: int|
                0 <= a < s2.len() && 0 <= b < s2.len() && a != b implies #[trigger] s2[a].id
                != #[trigger] s2[b].id by {}
            assert forall|a: int, b: int|
                0 <= a < s2.len() && 0 <= b < s2.len() && a != b
                    && #[trigger] s2[a].username is Some implies s2[a].username
                != #[trigger] s2[b].username by {}
        }
    }
    Ok(result)
}

/// Partial update with the timestamp supplied: only the supplied fields
/// overwrite stored values, and `updated_at` is refreshed.  A missing `id`
/// field is an invalid request; a username held by a different record
/// yields `BusyUsername` before any write; an unknown identifier yields
/// `NotFound`; in every failure case the table is untouched.
pub fn update_user_at(table: &mut UserTable, req: &Update, now: i64) -> (r: Result<User, Error>)
    requires
        old(table).wf(),
    ensures
        final(table).wf(),
        final(table)@ == spec_update(
            old(table)@,
            req.id,
            opt_view(req.username),
            opt_view(req.name),
            now,
        ).0,
        result_models(
            r,
            spec_update(old(table)@, req.id, opt_view(req.username), opt_view(req.name), now).1,
        ),
{
    let id = match req.id {
        Some(id) => id,
        None => {
            return Err(
                Error::InvalidField { field: "id".to_owned(), explanation: "not none".to_owned() },
            );
        },
    };
    if let Some(uname) = &req.username {
        if table.find_by_username_excluding(uname, id).is_some() {
            return Err(Error::BusyUsername { username: uname.clone() });
        }
    }
    let i = match table.find_by_id(id) {
        Some(i) => i,
        None => {
            return Err(Error::NotFound { entity: "User".to_owned() });
        },
    };
    proof {
        lemma_idx_of_id_unique(old(table)@.users, i as int, id);
    }
    let stored = &table.users[i];
    let created_at = stored.created_at;
    let updated_at: i64 = if now >= created_at {
        now
    } else {
        created_at
    };
    let new_u = User {
        id: stored.id,
        username: match &req.username {
            Some(u) => Some(u.clone()),
            None => match &stored.username {
                Some(x) => Some(x.clone()),
                None => None,
            },
        },
        name: match &req.name {
            Some(n) => n.clone(),
            None => stored.name.clone(),
        },
        premium: stored.premium,
        created_at,
        updated_at,
    };
    let result = new_u.clone();
    let ghost s = old(table)@.users;
    let ghost um = new_u@;
    table.users[i] = new_u;
    proof {
        assert(models(old(table).users@.update(i as int, result)) =~= models(
            old(table).users@,
        ).update(i as int, um));
        assert(final(table)@.users =~= s.update(i as int, um));
        let s2 = final(table)@.users;
        assert(final(table).wf()) by {
            assert forall|a: int, b: int|
                0 <= a < s2.len() && 0 <= b < s2.len() && a != b implies #[trigger] s2[a].id
                != #[trigger] s2[b].id by {}
            assert forall|a: int, b: int|
                0 <= a < s2.len() && 0 <= b < s2.len() && a != b
                    && #[trigger] s2[a].username is Some implies s2[a].username
                != #[trigger] s2[b].username by {
                if a == i as int && s2[b].username is Some && s2[a].username == s2[b].username {
                    assert(s[b].username == s2[b].username);
                    assert(s[b].id != id);
                }
                if b == i as int && s2[a].username is Some && s2[a].username == s2[b].username {
                    assert(s[a].username == s2[a].username);
                    assert(s[a].id != id);
                }
            }
        }
    }
    Ok(result)
}

/// Partial update stamped with the current clock: acceptance, rejection
/// and the written record are as `spec_update` states for some timestamp.
pub fn update_user(table: &mut UserTable, req: &Update) -> (r: Result<User, Error>)
    requires
        old(table).wf(),
    ensures
        final(table).wf(),
        r matches Ok(u) ==> u@.updated_at >= u@.created_at,
        exists|now: i64|
            {
                &&& final(table)@ == #[trigger] spec_update(
                    old(table)@,
                    req.id,
                    opt_view(req.username),
                    opt_view(req.name),
                    now,
                ).0
                &&& result_models(
                    r,
                    spec_update(
                        old(table)@,
                        req.id,
                        opt_view(req.username),
                        opt_view(req.name),
                        now,
                    ).1,
                )
            },
{
    let now = now_micros();
    update_user_at(table, req, now)
}

/// Create stamped with the current clock: the created record's
/// `created_at` and `updated_at` are equal, and everything else —
/// acceptance, rejection, and the shape of the stored record — is as
/// `spec_create` states for some timestamp.
pub fn create_user(table: &mut UserTable, req: &Create) -> (r: Result<User, Error>)
    requires
        old(table).wf(),
    ensures
        final(table).wf(),
        r matches Ok(u) ==> u@.created_at == u@.updated_at,
        exists|now: i64|
            {
                &&& final(table)@ == #[trigger] spec_create(
                    old(table)@,
                    opt_view(req.username),
                    opt_view(req.name),
                    now,
                ).0
                &&& result_models(
                    r,
                    spec_create(old(table)@, opt_view(req.username), opt_view(req.name), now).1,
                )
            },
{
    let now = now_micros();
    create_user_at(table, req, now)
}

} // verus!
