//! Time-to-live caching of fetched provider documents.
//!
//! A slot is an `Option<CacheEntry<T>>`: empty until the first successful
//! fetch, then holding the value together with the time it was stored. Times
//! are readings of one monotonic clock, in milliseconds.
use vstd::prelude::*;

use crate::error::AuthError;

verus! {

/// A cached value and the time at which it was stored.
#[derive(Debug)]
pub struct CacheEntry<T> {
    pub value: T,
    pub fetched_at: u64,
}

/// Where a slot stands in its life cycle at a given time.
#[derive(PartialEq, Eq, Structural, Clone, Copy, Debug)]
pub enum CacheState {
    /// Nothing has been stored yet.
    Empty,
    /// The stored value may be handed out without a fetch.
    Fresh,
    /// The stored value is too old and must be fetched again before use.
    Stale,
}

/// Time elapsed since `fetched_at`; a clock reading from before the store
/// counts as no time at all.
pub open spec fn age(fetched_at: u64, now: u64) -> nat {
    if now >= fetched_at {
        (now - fetched_at) as nat
    } else {
        0
    }
}

/// Whether an entry stored at `fetched_at` is still fresh at `now`.
pub open spec fn fresh_at(fetched_at: u64, now: u64, ttl: u64) -> bool {
    age(fetched_at, now) < ttl
}

/// The state of a slot at `now`.
pub open spec fn state_of<T>(slot: Option<CacheEntry<T>>, now: u64, ttl: u64) -> CacheState {
    match slot {
        None => CacheState::Empty,
        Some(entry) => if fresh_at(entry.fetched_at, now, ttl) {
            CacheState::Fresh
        } else {
            CacheState::Stale
        },
    }
}

/// Whether a read of the slot at `now` has to fetch before it can answer.
pub open spec fn needs_fetch<T>(slot: Option<CacheEntry<T>>, now: u64, ttl: u64) -> bool {
    state_of(slot, now, ttl) != CacheState::Fresh
}

/// The slot after one read at `now`: unchanged when it was fresh, otherwise
/// holding `fetched`, stored at `stored_at`.
pub open spec fn after_read<T>(
    slot: Option<CacheEntry<T>>,
    now: u64,
    ttl: u64,
    fetched: T,
    stored_at: u64,
) -> Option<CacheEntry<T>> {
    if needs_fetch(slot, now, ttl) {
        Some(CacheEntry { value: fetched, fetched_at: stored_at })
    } else {
        slot
    }
}

impl<T> CacheEntry<T> {
    pub fn new(value: T, fetched_at: u64) -> (r: Self)
        ensures
            r.value == value,
            r.fetched_at == fetched_at,
    {
        CacheEntry { value, fetched_at }
    }

    /// Whether the entry may still be handed out at `now`.
    pub fn is_fresh(&self, now: u64, ttl: u64) -> (r: bool)
        ensures
            r == fresh_at(self.fetched_at, now, ttl),
    {
        let elapsed: u64 = if now >= self.fetched_at {
            now - self.fetched_at
        } else {
            0
        };
        elapsed < ttl
    }
}

/// The state of `slot` at `now`.
pub fn cache_state<T>(slot: &Option<CacheEntry<T>>, now: u64, ttl: u64) -> (r: CacheState)
    ensures
        r == state_of(*slot, now, ttl),
{
    match slot {
        None => CacheState::Empty,
        Some(entry) => if entry.is_fresh(now, ttl) {
            CacheState::Fresh
        } else {
            CacheState::Stale
        },
    }
}

/// The cached value, when the slot is fresh at `now`; `None` asks the caller
/// to fetch.
pub fn fresh_value<T>(slot: &Option<CacheEntry<T>>, now: u64, ttl: u64) -> (r: Option<&T>)
    ensures
        r is Some <==> !needs_fetch(*slot, now, ttl),
        r is Some ==> *r->0 == slot->0.value,
{
    match slot {
        Some(entry) => if entry.is_fresh(now, ttl) {
            Some(&entry.value)
        } else {
            None
        },
        None => None,
    }
}

/// Stores a freshly fetched value, replacing whatever the slot held.
pub fn install<T>(slot: &mut Option<CacheEntry<T>>, value: T, now: u64)
    ensures
        *final(slot) == Some(CacheEntry { value, fetched_at: now }),
{
    *slot = Some(CacheEntry::new(value, now));
}

/// Records the outcome of a fetch made at `now`: a fetched value is installed;
/// a failure leaves the slot exactly as it was and is reported as a network
/// error carrying its description.
pub fn record_fetch<T>(slot: &mut Option<CacheEntry<T>>, fetched: Result<T, String>, now: u64) -> (r:
    Result<(), AuthError>)
    ensures
        match fetched {
            Ok(v) => r is Ok && *final(slot) == Some(CacheEntry { value: v, fetched_at: now }),
            Err(msg) => *final(slot) == *old(slot) && (r matches Err(AuthError::NetworkError(m))
                && m == msg),
        },
{
    match fetched {
        Ok(v) => {
            install(slot, v, now);
            Ok(())
        },
        Err(msg) => Err(AuthError::NetworkError(msg)),
    }
}

/// Two sequential reads less than one time-to-live apart fetch at most once
/// between them, provided a fetch made by the first read is stored no earlier
/// than that read began and no later than the second read.
pub proof fn lemma_sequential_reads_fetch_at_most_once<T>(
    slot: Option<CacheEntry<T>>,
    ttl: u64,
    first: u64,
    fetched: T,
    stored_at: u64,
    second: u64,
)
    requires
        first <= stored_at <= second,
        second < first + ttl,
    ensures
        !(needs_fetch(slot, first, ttl) && needs_fetch(
            after_read(slot, first, ttl, fetched, stored_at),
            second,
            ttl,
        )),
{
}

/// Once a time-to-live has passed since a value was stored, the next read
/// fetches, and afterwards the slot holds the newly fetched value with the
/// time it was stored.
pub proof fn lemma_read_after_expiry_fetches<T>(
    value: T,
    stored_at: u64,
    ttl: u64,
    now: u64,
    fetched: T,
    stored_again: u64,
)
    requires
        now >= stored_at + ttl,
        now <= stored_again,
    ensures
        needs_fetch(Some(CacheEntry { value, fetched_at: stored_at }), now, ttl),
        after_read(Some(CacheEntry { value, fetched_at: stored_at }), now, ttl, fetched, stored_again)
            == Some(CacheEntry { value: fetched, fetched_at: stored_again }),
{
}

/// An entry stored less than a time-to-live ago is served without a fetch.
pub proof fn lemma_fresh_entry_is_served<T>(value: T, stored_at: u64, ttl: u64, now: u64)
    requires
        stored_at <= now < stored_at + ttl,
    ensures
        !needs_fetch(Some(CacheEntry { value, fetched_at: stored_at }), now, ttl),
        state_of(Some(CacheEntry { value, fetched_at: stored_at }), now, ttl) == CacheState::Fresh,
{
}

} // verus!
