use vstd::prelude::*;
use crate::error::BackendError;
use vstd::string::StringExecFns;
use crate::lock::{holds_token, opt_view, LockContainer, LockRecord};

verus! {

/// The lock token that a request on a state presents, if any.
#[allow(non_snake_case)]
pub struct LockQuery {
    /// ID of the holding lock
    pub ID: Option<String>,
}

/// The store of state blobs: one file per workspace name under `dir`.
pub struct StateContainer {
    pub dir: String,
}

/// The file, under `dir`, that holds the blob of `name`.
pub open spec fn blob_file(dir: Seq<char>, name: Seq<char>) -> Seq<char> {
    dir + seq!['/'] + name
}

impl StateContainer {
    /// A store that keeps its blobs under `dir`.
    pub fn new(dir: String) -> (r: Self)
        ensures
            r.dir@ == dir@,
    {
        StateContainer { dir }
    }

    /// The file that holds the blob of `name`.
    pub fn path(&self, name: &str) -> (r: String)
        ensures
            r@ == blob_file(self.dir@, name@),
    {
        let mut p = self.dir.clone();
        p.append("/");
        p.append(name);
        proof {
            reveal_strlit("/");
        }
        p
    }
}

/// Whether a change of the blob of `name` that presents `token` may go ahead:
/// with a token, the lock of `name` must be held under it; without one, no
/// lock may be held on `name`.
pub open spec fn write_permitted(
    held: Map<Seq<char>, LockRecord>,
    name: Seq<char>,
    token: Option<Seq<char>>,
) -> bool {
    match token {
        Some(t) => holds_token(held, name, t),
        None => !held.contains_key(name),
    }
}

/// Checks that a change of the blob of `name` presenting `token` may go ahead.
pub fn check_lock(locks: &LockContainer, name: &str, token: &Option<String>) -> (r: Result<(), BackendError>)
    ensures
        r is Ok == write_permitted(locks.held(), name@, opt_view(*token)),
        r is Err ==> r->Err_0 == BackendError::LockMismatch,
{
    let ok = match token {
        Some(t) => locks.verify_lock(name, t.as_str()),
        None => locks.get(name).is_none(),
    };
    if ok {
        Ok(())
    } else {
        Err(BackendError::LockMismatch)
    }
}

/// The answer to a read of a state, from what the store found: the blob, or
/// `NotFound`.
pub fn get_state(found: Option<Vec<u8>>) -> (r: Result<Vec<u8>, BackendError>)
    ensures
        r is Ok == found is Some,
        r is Ok ==> r->Ok_0@ == found->0@,
        r is Err ==> r->Err_0 == BackendError::NotFound,
{
    match found {
        Some(data) => Ok(data),
        None => Err(BackendError::NotFound),
    }
}

/// Decides a write of the blob of `name`: the file to write the new blob to,
/// or `LockMismatch` when the lock forbids it (nothing is to be written then).
pub fn put_state(
    states: &StateContainer,
    locks: &LockContainer,
    name: &str,
    lock: &LockQuery,
) -> (r: Result<String, BackendError>)
    ensures
        r is Ok == write_permitted(locks.held(), name@, opt_view(lock.ID)),
        r is Ok ==> r->Ok_0@ == blob_file(states.dir@, name@),
        r is Err ==> r->Err_0 == BackendError::LockMismatch,
{
    check_lock(locks, name, &lock.ID)?;
    Ok(states.path(name))
}

/// Decides a deletion of the blob of `name`: the file to remove, or
/// `LockMismatch` when the lock forbids it (nothing is to be removed then).
pub fn delete_state(
    states: &StateContainer,
    locks: &LockContainer,
    name: &str,
    lock: &LockQuery,
) -> (r: Result<String, BackendError>)
    ensures
        r is Ok == write_permitted(locks.held(), name@, opt_view(lock.ID)),
        r is Ok ==> r->Ok_0@ == blob_file(states.dir@, name@),
        r is Err ==> r->Err_0 == BackendError::LockMismatch,
{
    check_lock(locks, name, &lock.ID)?;
    Ok(states.path(name))
}

} // verus!
