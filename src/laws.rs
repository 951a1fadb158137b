use vstd::prelude::*;
use crate::lock::{acquire_ok, after_acquire, LockRecord};
use crate::state::write_permitted;

verus! {

/// Once `name` has been locked with `r`, a second attempt to lock it, with any
/// record `r2`, is refused and leaves `r` in place.
pub proof fn second_acquire_conflicts(
    held: Map<Seq<char>, LockRecord>,
    name: Seq<char>,
    r: LockRecord,
    r2: LockRecord,
)
    requires
        !held.contains_key(name),
        r.created is Some,
    ensures
        after_acquire(held, name, r).contains_key(name),
        after_acquire(after_acquire(held, name, r), name, r2) == after_acquire(held, name, r),
        after_acquire(held, name, r)[name] == r,
{
}

/// Locking `name` with `r` and unlocking it hands back `r` and restores the
/// registry; a second unlock then finds nothing.
pub proof fn release_returns_acquired(held: Map<Seq<char>, LockRecord>, name: Seq<char>, r: LockRecord)
    requires
        !held.contains_key(name),
        r.created is Some,
    ensures
        after_acquire(held, name, r).contains_key(name),
        after_acquire(held, name, r)[name] == r,
        !after_acquire(held, name, r).remove(name).contains_key(name),
        after_acquire(held, name, r).remove(name) == held,
{
    assert(after_acquire(held, name, r).remove(name) =~= held);
}

/// While `name` is locked under token `t`, a change of its blob goes ahead
/// exactly when it presents `t`.
pub proof fn locked_write_needs_token(
    held: Map<Seq<char>, LockRecord>,
    name: Seq<char>,
    r: LockRecord,
    token: Option<Seq<char>>,
)
    requires
        !held.contains_key(name),
        r.created is Some,
    ensures
        write_permitted(after_acquire(held, name, r), name, token) == (token == Some(r.id)),
        write_permitted(held, name, None),
{
}

/// The number of attempts among `recs`, made one after the other on `name`,
/// that get the lock.
pub open spec fn successes(held: Map<Seq<char>, LockRecord>, name: Seq<char>, recs: Seq<LockRecord>) -> nat
    decreases recs.len(),
{
    if recs.len() == 0 {
        0
    } else {
        (if acquire_ok(held, name, recs[0]) {
            1nat
        } else {
            0nat
        }) + successes(after_acquire(held, name, recs[0]), name, recs.drop_first())
    }
}

/// The registry after the attempts among `recs`, made one after the other on
/// `name`.
pub open spec fn after_all(
    held: Map<Seq<char>, LockRecord>,
    name: Seq<char>,
    recs: Seq<LockRecord>,
) -> Map<Seq<char>, LockRecord>
    decreases recs.len(),
{
    if recs.len() == 0 {
        held
    } else {
        after_all(after_acquire(held, name, recs[0]), name, recs.drop_first())
    }
}

/// While `name` is locked, every further attempt on it fails and the
/// registry stays as it is.
pub proof fn attempts_on_locked_fail(held: Map<Seq<char>, LockRecord>, name: Seq<char>, recs: Seq<LockRecord>)
    requires
        held.contains_key(name),
    ensures
        successes(held, name, recs) == 0,
        after_all(held, name, recs) == held,
    decreases recs.len(),
{
    if recs.len() > 0 {
        attempts_on_locked_fail(held, name, recs.drop_first());
    }
}

/// Attempts to lock one unlocked workspace with records that carry their
/// creation time, each one a single step on the registry, in whatever order
/// they come: exactly one succeeds, the first to come, and all the others
/// conflict.
pub proof fn exactly_one_acquire_succeeds(
    held: Map<Seq<char>, LockRecord>,
    name: Seq<char>,
    recs: Seq<LockRecord>,
)
    requires
        !held.contains_key(name),
        recs.len() > 0,
        forall|i: int| 0 <= i < recs.len() ==> (#[trigger] recs[i]).created is Some,
    ensures
        successes(held, name, recs) == 1,
        after_all(held, name, recs) == held.insert(name, recs[0]),
{
    attempts_on_locked_fail(held.insert(name, recs[0]), name, recs.drop_first());
}

} // verus!
