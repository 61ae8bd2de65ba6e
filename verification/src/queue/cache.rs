//! When an entry of a time-limited cache is still valid.
use vstd::prelude::*;

verus! {

/// An entry stored `elapsed_ms` milliseconds ago is valid while fewer than
/// `ttl_secs` whole seconds have passed.
pub open spec fn still_valid(elapsed_ms: u64, ttl_secs: u64) -> bool {
    elapsed_ms / 1000 < ttl_secs
}

/// Whether an entry stored `elapsed_ms` milliseconds ago is still valid
/// under a time-to-live of `ttl_secs` seconds (see `still_valid`); an
/// expired entry is dropped on lookup and on cleanup.
pub fn entry_is_fresh(elapsed_ms: u64, ttl_secs: u64) -> (r: bool)
    ensures
        r == still_valid(elapsed_ms, ttl_secs),
{
    elapsed_ms / 1000 < ttl_secs
}

} // verus!
