use vstd::prelude::*;
use dashmap::mapref::entry::Entry;
use dashmap::DashMap;
use crate::error::BackendError;
use vstd::string::StringExecFns;

verus! {

/// A lock record, kept verbatim as the client sent it.
#[allow(non_snake_case)]
#[derive(Debug, Clone)]
pub struct LockInfo {
    pub ID: String,
    pub Operation: Option<String>,
    pub Info: Option<String>,
    pub Who: Option<String>,
    pub Version: Option<String>,
    pub Created: Option<String>,
}

/// The contents of a lock record.
pub struct LockRecord {
    pub id: Seq<char>,
    pub operation: Option<Seq<char>>,
    pub info: Option<Seq<char>>,
    pub who: Option<Seq<char>>,
    pub version: Option<Seq<char>>,
    pub created: Option<Seq<char>>,
}

/// The contents of an optional text field.
pub open spec fn opt_view(o: Option<String>) -> Option<Seq<char>> {
    match o {
        Some(s) => Some(s@),
        None => None,
    }
}

impl View for LockInfo {
    type V = LockRecord;

    open spec fn view(&self) -> LockRecord {
        LockRecord {
            id: self.ID@,
            operation: opt_view(self.Operation),
            info: opt_view(self.Info),
            who: opt_view(self.Who),
            version: opt_view(self.Version),
            created: opt_view(self.Created),
        }
    }
}

fn copy_opt(o: &Option<String>) -> (r: Option<String>)
    ensures
        opt_view(r) == opt_view(*o),
{
    match o {
        Some(s) => Some(s.clone()),
        None => None,
    }
}

impl LockInfo {
    /// A copy of this record with the same contents.
    pub fn copy(&self) -> (r: LockInfo)
        ensures
            r@ == self@,
    {
        LockInfo {
            ID: self.ID.clone(),
            Operation: copy_opt(&self.Operation),
            Info: copy_opt(&self.Info),
            Who: copy_opt(&self.Who),
            Version: copy_opt(&self.Version),
            Created: copy_opt(&self.Created),
        }
    }
}

#[verifier::external_type_specification]
#[verifier::external_body]
#[verifier::reject_recursive_types(K)]
#[verifier::reject_recursive_types(V)]
#[verifier::reject_recursive_types(S)]
pub struct ExDashMap<K, V, S>(DashMap<K, V, S>);

/// What a lock table holds: the lock record of each workspace name.
pub uninterp spec fn lock_table(m: DashMap<String, LockInfo>) -> Map<Seq<char>, LockRecord>;

/// Relies on DashMap::new: the new map is empty.
#[verifier::external_body]
fn new_table() -> (r: DashMap<String, LockInfo>)
    ensures
        lock_table(r).is_empty(),
{
    DashMap::new()
}

/// Relies on DashMap::get: the record stored under the key, if any, which is
/// then cloned (a derived clone, field by field).
#[verifier::external_body]
fn table_get(m: &DashMap<String, LockInfo>, name: &str) -> (r: Option<LockInfo>)
    ensures
        r is Some == lock_table(*m).contains_key(name@),
        r is Some ==> r->0@ == lock_table(*m)[name@],
{
    m.get(name).map(|x| x.clone())
}

/// Relies on DashMap::remove: takes out the entry under the key, if any, and
/// returns its value.
#[verifier::external_body]
fn table_remove(m: &mut DashMap<String, LockInfo>, name: &str) -> (r: Option<LockInfo>)
    ensures
        r is Some == lock_table(*old(m)).contains_key(name@),
        r is Some ==> r->0@ == lock_table(*old(m))[name@],
        lock_table(*final(m)) == lock_table(*old(m)).remove(name@),
{
    m.remove(name).map(|x| x.1)
}

/// Relies on DashMap::entry and VacantEntry::insert: under the lock of the
/// key's shard, the value is stored exactly when the key is vacant.
#[verifier::external_body]
fn table_insert_vacant(m: &mut DashMap<String, LockInfo>, name: String, info: LockInfo) -> (r: bool)
    ensures
        r == !lock_table(*old(m)).contains_key(name@),
        lock_table(*final(m)) == (if r {
            lock_table(*old(m)).insert(name@, info@)
        } else {
            lock_table(*old(m))
        }),
{
    match m.entry(name) {
        Entry::Occupied(_) => false,
        Entry::Vacant(e) => {
            e.insert(info);
            true
        },
    }
}

/// Whether an attempt to lock `name` with `rec` gets the lock: no lock is
/// held there, and the record carries the creation time that its audit copy
/// is filed under.
pub open spec fn acquire_ok(held: Map<Seq<char>, LockRecord>, name: Seq<char>, rec: LockRecord) -> bool {
    !held.contains_key(name) && rec.created is Some
}

/// The registry after an attempt to lock `name` with `rec`: unchanged when
/// the attempt does not get the lock.
pub open spec fn after_acquire(
    held: Map<Seq<char>, LockRecord>,
    name: Seq<char>,
    rec: LockRecord,
) -> Map<Seq<char>, LockRecord> {
    if acquire_ok(held, name, rec) {
        held.insert(name, rec)
    } else {
        held
    }
}

/// Whether the lock of `name` is held under token `id`.
pub open spec fn holds_token(held: Map<Seq<char>, LockRecord>, name: Seq<char>, id: Seq<char>) -> bool {
    held.contains_key(name) && held[name].id == id
}

/// The file, under `dir`, that records a lock of `name` created at `created`.
pub open spec fn audit_file(dir: Seq<char>, name: Seq<char>, created: Seq<char>) -> Seq<char> {
    dir + seq!['/'] + name + seq!['/'] + created + seq!['.', 'l', 'o', 'c', 'k']
}

/// The lock registry: at most one lock per workspace name, and the directory
/// under which each acquired lock is filed for audit.
pub struct LockContainer {
    locks: DashMap<String, LockInfo>,
    persisted: String,
}

impl LockContainer {
    /// The locks held, by workspace name.
    pub closed spec fn held(&self) -> Map<Seq<char>, LockRecord> {
        lock_table(self.locks)
    }

    /// The directory under which audit copies are filed.
    pub closed spec fn audit_dir(&self) -> Seq<char> {
        self.persisted@
    }

    /// The directory under which audit copies are filed.
    pub fn persisted(&self) -> (r: &String)
        ensures
            r@ == self.audit_dir(),
    {
        &self.persisted
    }

    /// A registry with no lock held, filing audit records under `dir`.
    pub fn new(dir: String) -> (r: Self)
        ensures
            r.held().is_empty(),
            r.audit_dir() == dir@,
    {
        LockContainer { locks: new_table(), persisted: dir }
    }

    /// The lock held on `name`, if any.
    pub fn get(&self, name: &str) -> (r: Option<LockInfo>)
        ensures
            r is Some == self.held().contains_key(name@),
            r is Some ==> r->0@ == self.held()[name@],
    {
        table_get(&self.locks, name)
    }

    /// Takes out the lock held on `name`, if any, and returns it.
    pub fn remove(&mut self, name: &str) -> (r: Option<LockInfo>)
        ensures
            r is Some == old(self).held().contains_key(name@),
            r is Some ==> r->0@ == old(self).held()[name@],
            final(self).held() == old(self).held().remove(name@),
            final(self).audit_dir() == old(self).audit_dir(),
    {
        table_remove(&mut self.locks, name)
    }

    /// Whether the lock on `name` is held under the token `lock_id`.
    pub fn verify_lock(&self, name: &str, lock_id: &str) -> (r: bool)
        ensures
            r == holds_token(self.held(), name@, lock_id@),
    {
        match self.get(name) {
            Some(info) => info.ID == lock_id.to_owned(),
            None => false,
        }
    }

    /// Stores `lock_info` as the lock of `name` if no lock is held there, in
    /// one step; returns whether it was stored. A record without a creation
    /// time is never stored.
    pub fn insert(&mut self, name: &str, lock_info: LockInfo) -> (r: bool)
        ensures
            r == acquire_ok(old(self).held(), name@, lock_info@),
            final(self).held() == after_acquire(old(self).held(), name@, lock_info@),
            final(self).audit_dir() == old(self).audit_dir(),
    {
        if lock_info.Created.is_none() {
            return false;
        }
        table_insert_vacant(&mut self.locks, name.to_string(), lock_info)
    }

    /// The file that records `lock_info` as a lock of `name`; none when the
    /// record carries no creation time.
    pub fn audit_path(&self, name: &str, lock_info: &LockInfo) -> (r: Option<String>)
        ensures
            r is Some == lock_info.Created is Some,
            r is Some ==> r->0@ == audit_file(self.audit_dir(), name@, lock_info.Created->0@),
    {
        match &lock_info.Created {
            Some(created) => {
                let mut path = self.persisted.clone();
                path.append("/");
                path.append(name);
                path.append("/");
                path.append(created.as_str());
                path.append(".lock");
                proof {
                    reveal_strlit("/");
                    reveal_strlit(".lock");
                }
                Some(path)
            },
            None => None,
        }
    }
}

/// Locks the workspace `name` with `info`: fails with `Conflict` when a lock
/// is already held there, else with `MissingCreated` when `info` carries no
/// creation time, and changes nothing then; else stores `info` and returns it.
pub fn lock(locks: &mut LockContainer, name: &str, info: LockInfo) -> (r: Result<LockInfo, BackendError>)
    ensures
        final(locks).held() == after_acquire(old(locks).held(), name@, info@),
        final(locks).audit_dir() == old(locks).audit_dir(),
        r is Ok == acquire_ok(old(locks).held(), name@, info@),
        r is Ok ==> r->Ok_0@ == info@,
        r is Err ==> r->Err_0 == (if old(locks).held().contains_key(name@) {
            BackendError::Conflict
        } else {
            BackendError::MissingCreated
        }),
{
    if info.Created.is_none() {
        return if locks.get(name).is_some() {
            Err(BackendError::Conflict)
        } else {
            Err(BackendError::MissingCreated)
        };
    }
    let stored = info.copy();
    if locks.insert(name, stored) {
        Ok(info)
    } else {
        Err(BackendError::Conflict)
    }
}

/// Completes a lock of `name` once the write of its audit copy is done: the
/// lock stands when the copy was `written`; else it is taken back, so that
/// neither remains, and the attempt fails with `StorageFailure`.
pub fn finish_lock(locks: &mut LockContainer, name: &str, written: bool) -> (r: Result<(), BackendError>)
    ensures
        final(locks).audit_dir() == old(locks).audit_dir(),
        written ==> r is Ok && final(locks).held() == old(locks).held(),
        !written ==> r == Err::<(), BackendError>(BackendError::StorageFailure)
            && final(locks).held() == old(locks).held().remove(name@),
{
    if written {
        Ok(())
    } else {
        let _ = locks.remove(name);
        Err(BackendError::StorageFailure)
    }
}

/// Unlocks the workspace `name`: returns the lock that was held there, or
/// fails with `NotFound` when none was.
pub fn unlock(locks: &mut LockContainer, name: &str) -> (r: Result<LockInfo, BackendError>)
    ensures
        final(locks).held() == old(locks).held().remove(name@),
        final(locks).audit_dir() == old(locks).audit_dir(),
        r is Ok == old(locks).held().contains_key(name@),
        r is Ok ==> r->Ok_0@ == old(locks).held()[name@],
        r is Err ==> r->Err_0 == BackendError::NotFound,
{
    match locks.remove(name) {
        Some(info) => Ok(info),
        None => Err(BackendError::NotFound),
    }
}

} // verus!
