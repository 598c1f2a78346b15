use vstd::prelude::*;

use crate::server_utils::session_store::{live_rows, SessionStore};
use crate::utils::{clamp_i64, saturate_i64};

verus! {

/// The session time-to-live, in seconds.
pub const SESSION_TTL_SECONDS: i64 = 3600;

/// How long a session may have been dead before a request sweeps it away, in
/// seconds.
pub const CLEANUP_WINDOW_SECONDS: i64 = 3000;

/// The cutoff of a reaper pass at `now`: sessions dead for more than twice the
/// time-to-live, so that no request in flight still renews them (held to the
/// range of `i64`).
pub fn reaper_cutoff(now: i64, session_ttl: i64) -> (r: i64)
    ensures
        r == clamp_i64(now - 2 * session_ttl),
{
    saturate_i64((now as i128) - 2 * (session_ttl as i128))
}

/// One pass of the session reaper at `now`: deletes the sessions that expired
/// before `now - 2 * session_ttl` and returns how many it deleted.
pub fn session_cleanup_task(store: &mut SessionStore, now: i64, session_ttl: i64) -> (r: usize)
    requires
        old(store).wf(),
    ensures
        final(store).wf(),
        final(store)@ == live_rows(old(store)@, clamp_i64(now - 2 * session_ttl)),
        r == old(store)@.len() - final(store)@.len(),
{
    let cutoff = reaper_cutoff(now, session_ttl);
    store.delete_expired(cutoff)
}

} // verus!
