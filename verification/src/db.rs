//! The profile repository: an in-memory store of user profiles with
//! create, lookup, list, and field-wise partial update.

use crate::api::is_vocab;
use crate::time_of_day::{current_time_of_day, TimeOfDay};
use vstd::pervasive::VecAdditionalExecFns;
use vstd::prelude::*;

verus! {

/// One user profile.
pub struct User {
    pub id: i64,
    pub tg_id: u64,
    pub city: String,
    pub tags: Vec<String>,
    pub notification_time: TimeOfDay,
    pub events_interval: u32,
}

/// The mathematical content of a profile.
pub ghost struct UserV {
    pub id: i64,
    pub tg_id: u64,
    pub city: Seq<char>,
    pub tags: Seq<Seq<char>>,
    pub notification_time: TimeOfDay,
    pub events_interval: u32,
}

impl View for User {
    type V = UserV;

    open spec fn view(&self) -> UserV {
        UserV {
            id: self.id,
            tg_id: self.tg_id,
            city: self.city@,
            tags: self.tags.deep_view(),
            notification_time: self.notification_time,
            events_interval: self.events_interval,
        }
    }
}

impl DeepView for User {
    type V = UserV;

    open spec fn deep_view(&self) -> UserV {
        self.view()
    }
}

impl UserV {
    /// The profile invariant: a named place, at least one category and only
    /// vocabulary ones, a well-formed time, a positive lookahead.
    pub open spec fn wf(self) -> bool {
        self.city.len() > 0 && self.tags.len() > 0 && (forall|j: int|
            0 <= j < self.tags.len() ==> is_vocab(self.tags[j])) && self.notification_time.wf()
            && self.events_interval > 0
    }
}

impl User {
    /// The placeholder profile: not yet valid (it has no categories); its
    /// notification time is whatever the clock shows.
    pub fn default() -> (r: User)
        ensures
            r.id == -1,
            r.tg_id == 1,
            r@.city == "w"@,
            r@.tags.len() == 0,
            r.notification_time.wf(),
            r.events_interval == 1,
    {
        User {
            id: -1,
            tg_id: 1,
            city: "w".to_owned(),
            tags: Vec::new(),
            notification_time: current_time_of_day(),
            events_interval: 1,
        }
    }
}

/// A fresh copy of a tag list.
fn clone_tags(tags: &Vec<String>) -> (r: Vec<String>)
    ensures
        r.deep_view() == tags.deep_view(),
{
    let mut r: Vec<String> = Vec::new();
    let mut i: usize = 0;
    while i < tags.len()
        invariant
            0 <= i <= tags.len(),
            r@.len() == i,
            forall|k: int| 0 <= k < i ==> r@[k] == tags@[k],
        decreases tags.len() - i,
    {
        r.push(tags[i].clone());
        i += 1;
    }
    proof {
        assert(r.deep_view() =~= tags.deep_view());
    }
    r
}

/// A fresh copy of a profile.
pub fn clone_user(u: &User) -> (r: User)
    ensures
        r@ == u@,
{
    User {
        id: u.id,
        tg_id: u.tg_id,
        city: u.city.clone(),
        tags: clone_tags(&u.tags),
        notification_time: u.notification_time,
        events_interval: u.events_interval,
    }
}

/// A partial update: each present field replaces the stored one.
pub struct UserFilter {
    pub id: Option<i64>,
    pub tg_id: Option<u64>,
    pub city: Option<String>,
    pub tags: Option<Vec<String>>,
    pub notification_time: Option<TimeOfDay>,
    pub events_interval: Option<u32>,
}

/// The mathematical content of a partial update.
pub ghost struct UserFilterV {
    pub id: Option<i64>,
    pub tg_id: Option<u64>,
    pub city: Option<Seq<char>>,
    pub tags: Option<Seq<Seq<char>>>,
    pub notification_time: Option<TimeOfDay>,
    pub events_interval: Option<u32>,
}

impl View for UserFilter {
    type V = UserFilterV;

    open spec fn view(&self) -> UserFilterV {
        UserFilterV {
            id: self.id,
            tg_id: self.tg_id,
            city: match self.city {
                Some(c) => Some(c@),
                None => None,
            },
            tags: match self.tags {
                Some(t) => Some(t.deep_view()),
                None => None,
            },
            notification_time: self.notification_time,
            events_interval: self.events_interval,
        }
    }
}

impl UserFilterV {
    /// Every present field satisfies the profile invariant.
    pub open spec fn wf(self) -> bool {
        (self.city matches Some(c) ==> c.len() > 0) && (self.tags matches Some(t) ==> t.len() > 0
            && forall|j: int| 0 <= j < t.len() ==> is_vocab(t[j])) && (self.notification_time
            matches Some(t) ==> t.wf()) && (self.events_interval matches Some(n) ==> n > 0)
    }
}

/// The stored profile with the update's present fields written over it,
/// field by field. The repository key and the recipient are stable: an
/// update never moves them.
pub open spec fn merged(u: UserV, f: UserFilterV) -> UserV {
    UserV {
        id: u.id,
        tg_id: u.tg_id,
        city: if f.city is Some {
            f.city->0
        } else {
            u.city
        },
        tags: if f.tags is Some {
            f.tags->0
        } else {
            u.tags
        },
        notification_time: if f.notification_time is Some {
            f.notification_time->0
        } else {
            u.notification_time
        },
        events_interval: if f.events_interval is Some {
            f.events_interval->0
        } else {
            u.events_interval
        },
    }
}

/// Applying one partial update twice gives the same profile as applying it
/// once: the repository's update is idempotent.
pub proof fn lemma_update_idempotent(u: UserV, f: UserFilterV)
    ensures
        merged(merged(u, f), f) == merged(u, f),
{
}

/// A valid update of a valid profile is a valid profile.
pub proof fn lemma_merged_wf(u: UserV, f: UserFilterV)
    requires
        u.wf(),
        f.wf(),
    ensures
        merged(u, f).wf(),
{
}

#[derive(Clone, Copy, PartialEq, Eq, Structural, Debug)]
pub enum DbError {
    DuplicateRecipient,
    NotFound,
}

/// Whether some stored profile belongs to the recipient.
pub open spec fn has_recipient(users: Seq<UserV>, tg_id: u64) -> bool {
    exists|k: int| 0 <= k < users.len() && users[k].tg_id == tg_id
}

/// Where the recipient's profile sits (meaningful when it exists; unique
/// under the repository invariant).
pub open spec fn recipient_index(users: Seq<UserV>, tg_id: u64) -> int {
    choose|k: int| 0 <= k < users.len() && users[k].tg_id == tg_id
}

/// The profile store: the single source of truth that the dialogue engine
/// and the dispatcher share.
pub struct Db {
    users: Vec<User>,
}

impl View for Db {
    type V = Seq<UserV>;

    closed spec fn view(&self) -> Seq<UserV> {
        self.users.deep_view()
    }
}

impl Db {
    /// The repository invariant: every profile is valid, recipients are
    /// unique, and each key is the position the profile was created at.
    pub closed spec fn wf(self) -> bool {
        (forall|i: int| 0 <= i < self@.len() ==> self@[i].wf()) && (forall|i: int, j: int|
            0 <= i < j < self@.len() ==> self@[i].tg_id != self@[j].tg_id) && (forall|i: int|
            0 <= i < self@.len() ==> self@[i].id == i)
    }
}

/// What the repository invariant gives every reader: each stored profile is
/// valid (vocabulary-only categories, a positive lookahead, a well-formed
/// time, a named place) and a recipient identifies at most one profile.
pub proof fn lemma_db_wf(db: Db)
    requires
        db.wf(),
    ensures
        forall|i: int| 0 <= i < db@.len() ==> db@[i].wf(),
        forall|i: int, j: int| 0 <= i < j < db@.len() ==> db@[i].tg_id != db@[j].tg_id,
{
}

proof fn lemma_recipient_at(db: Db, tg_id: u64, i: int)
    requires
        db.wf(),
        0 <= i < db@.len(),
        db@[i].tg_id == tg_id,
    ensures
        has_recipient(db@, tg_id),
        recipient_index(db@, tg_id) == i,
{
    assert(has_recipient(db@, tg_id));
    let k = recipient_index(db@, tg_id);
    assert(0 <= k < db@.len() && db@[k].tg_id == tg_id);
    if k < i {
        assert(db@[k].tg_id != db@[i].tg_id);
    } else if i < k {
        assert(db@[i].tg_id != db@[k].tg_id);
    }
}

/// A fresh, empty repository.
pub fn init_db() -> (r: Db)
    ensures
        r@ == Seq::<UserV>::empty(),
        r.wf(),
{
    let r = Db { users: Vec::new() };
    proof {
        assert(r@ =~= Seq::<UserV>::empty());
    }
    r
}

/// The profile as stored: everything from the given profile, under the
/// assigned key.
pub open spec fn with_id(u: UserV, id: i64) -> UserV {
    UserV {
        id: id,
        tg_id: u.tg_id,
        city: u.city,
        tags: u.tags,
        notification_time: u.notification_time,
        events_interval: u.events_interval,
    }
}

/// Adds a new profile, assigning it a fresh repository key; refused when the
/// recipient already has one. The key bound is a machine limit.
pub fn insert_user(db: &mut Db, user: User) -> (r: Result<i64, DbError>)
    requires
        old(db).wf(),
        user@.wf(),
        old(db)@.len() < i64::MAX,
    ensures
        final(db).wf(),
        r is Ok <==> !has_recipient(old(db)@, user.tg_id),
        r matches Ok(id) ==> id == old(db)@.len() && final(db)@ == old(db)@.push(
            with_id(user@, id),
        ),
        r is Err ==> final(db)@ == old(db)@ && r == Err::<i64, DbError>(
            DbError::DuplicateRecipient,
        ),
{
    let n = db.users.len();
    let mut i: usize = 0;
    while i < n
        invariant
            *db == *old(db),
            old(db).wf(),
            n == old(db)@.len(),
            0 <= i <= n,
            forall|k: int| 0 <= k < i ==> old(db)@[k].tg_id != user.tg_id,
        decreases n - i,
    {
        if db.users[i].tg_id == user.tg_id {
            proof {
                assert(old(db)@[i as int].tg_id == user.tg_id);
                assert(has_recipient(old(db)@, user.tg_id));
            }
            return Err(DbError::DuplicateRecipient);
        }
        i += 1;
    }
    let id = db.users.len() as i64;
    let stored = User {
        id,
        tg_id: user.tg_id,
        city: user.city,
        tags: user.tags,
        notification_time: user.notification_time,
        events_interval: user.events_interval,
    };
    db.users.push(stored);
    proof {
        assert(final(db)@ =~= old(db)@.push(with_id(user@, id)));
    }
    Ok(id)
}

/// The recipient's profile, when one is stored.
pub fn get_user(db: &Db, id: u64) -> (r: Option<User>)
    requires
        db.wf(),
    ensures
        r is Some <==> has_recipient(db@, id),
        r matches Some(u) ==> 0 <= recipient_index(db@, id) < db@.len() && u@ == db@[recipient_index(db@, id)] && u@.tg_id == id && u@.wf(),
{
    let n = db.users.len();
    let mut i: usize = 0;
    while i < n
        invariant
            db.wf(),
            n == db@.len(),
            0 <= i <= n,
            forall|k: int| 0 <= k < i ==> db@[k].tg_id != id,
        decreases n - i,
    {
        if db.users[i].tg_id == id {
            let u = clone_user(&db.users[i]);
            proof {
                assert(db@[i as int].tg_id == id);
                lemma_recipient_at(*db, id, i as int);
            }
            return Some(u);
        }
        i += 1;
    }
    None
}

/// Every stored profile, in order; `None` when the store is empty.
pub fn get_all_users(db: &Db) -> (r: Option<Vec<User>>)
    requires
        db.wf(),
    ensures
        r is Some <==> db@.len() > 0,
        r matches Some(v) ==> v.deep_view() == db@,
{
    let n = db.users.len();
    if n == 0 {
        return None;
    }
    let mut v: Vec<User> = Vec::new();
    let mut i: usize = 0;
    while i < n
        invariant
            db.wf(),
            n == db@.len(),
            0 <= i <= n,
            v@.len() == i,
            forall|k: int| 0 <= k < i ==> v@[k]@ == db@[k],
        decreases n - i,
    {
        v.push(clone_user(&db.users[i]));
        i += 1;
    }
    proof {
        assert(v.deep_view() =~= db@);
    }
    Some(v)
}

/// Merges the update's present fields over the recipient's stored profile
/// and writes the result back; fails, changing nothing, when the recipient
/// has no profile.
pub fn update_user(db: &mut Db, values: UserFilter, tg_id: u64) -> (r: Result<(), DbError>)
    requires
        old(db).wf(),
        values@.wf(),
    ensures
        final(db).wf(),
        r is Ok <==> has_recipient(old(db)@, tg_id),
        r is Ok ==> 0 <= recipient_index(old(db)@, tg_id) < old(db)@.len() && final(db)@ == old(
            db,
        )@.update(
            recipient_index(old(db)@, tg_id),
            merged(old(db)@[recipient_index(old(db)@, tg_id)], values@),
        ),
        r is Err ==> final(db)@ == old(db)@ && r == Err::<(), DbError>(DbError::NotFound),
{
    let n = db.users.len();
    let mut i: usize = 0;
    while i < n
        invariant
            *db == *old(db),
            old(db).wf(),
            values@.wf(),
            n == old(db)@.len(),
            0 <= i <= n,
            forall|k: int| 0 <= k < i ==> old(db)@[k].tg_id != tg_id,
        decreases n - i,
    {
        if db.users[i].tg_id == tg_id {
            let old_user = &db.users[i];
            let id = old_user.id;
            let city = match values.city {
                Some(c) => c,
                None => old_user.city.clone(),
            };
            let tags = match values.tags {
                Some(t) => t,
                None => clone_tags(&old_user.tags),
            };
            let notification_time = match values.notification_time {
                Some(t) => t,
                None => old_user.notification_time,
            };
            let events_interval = match values.events_interval {
                Some(x) => x,
                None => old_user.events_interval,
            };
            let new_user = User { id, tg_id, city, tags, notification_time, events_interval };
            proof {
                assert(new_user@ == merged(old(db)@[i as int], values@));
                lemma_merged_wf(old(db)@[i as int], values@);
            }
            proof {
                assert(old(db)@[i as int].tg_id == tg_id);
                lemma_recipient_at(*old(db), tg_id, i as int);
            }
            db.users.set(i, new_user);
            proof {
                assert(final(db)@ =~= old(db)@.update(i as int, merged(old(db)@[i as int], values@)));
            }
            return Ok(());
        }
        i += 1;
    }
    Err(DbError::NotFound)
}

} // verus!
