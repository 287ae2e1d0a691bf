//! The per-process session cache and the liveness probe.
use vstd::prelude::*;

use crate::records::{DaemonError, DaemonStatus};

verus! {

/// Holds at most one session. A get-or-create call, made under the
/// caller's lock, reuses the held session or connects and installs the new
/// one; nothing is dropped but by `invalidate`.
pub struct SessionCache<B> {
    slot: Option<B>,
}

/// The slot after one get-or-create call: a held session stays; an empty
/// slot takes what the connection attempt produced (`None` when it failed).
pub open spec fn after_call<B>(slot: Option<B>, attempt: Option<B>) -> Option<B> {
    if slot is Some {
        slot
    } else {
        attempt
    }
}

/// How many connect-and-load sequences a run of get-or-create calls makes,
/// one after another, from `slot`; `attempts[i]` is what the i-th call's
/// connection attempt would produce.
pub open spec fn connects<B>(slot: Option<B>, attempts: Seq<Option<B>>) -> nat
    decreases attempts.len(),
{
    if attempts.len() == 0 {
        0
    } else {
        (if slot is None {
            1nat
        } else {
            0nat
        }) + connects(after_call(slot, attempts[0]), attempts.drop_first())
    }
}

impl<B> SessionCache<B> {
    pub closed spec fn cached(&self) -> Option<B> {
        self.slot
    }

    pub fn new() -> (r: Self)
        ensures
            r.cached() is None,
    {
        SessionCache { slot: None }
    }

    /// The held session, if any: a call reuses it, or connects when none.
    pub fn lookup(&self) -> (r: Option<&B>)
        ensures
            match (r, self.cached()) {
                (Some(x), Some(y)) => *x == y,
                (None, None) => true,
                _ => false,
            },
    {
        match &self.slot {
            Some(b) => Some(b),
            None => None,
        }
    }

    /// Stores the session that a call's connection attempt produced.
    pub fn install(&mut self, session: B)
        requires
            old(self).cached() is None,
        ensures
            final(self).cached() == after_call(old(self).cached(), Some(session)),
    {
        self.slot = Some(session);
    }

    /// Drops the held session; the next call connects anew.
    pub fn invalidate(&mut self)
        ensures
            final(self).cached() is None,
    {
        self.slot = None;
    }
}

/// A run of get-or-create calls that starts from an empty cache, and whose
/// first connection attempt succeeds, connects exactly once.
pub proof fn lemma_single_connect<B>(attempts: Seq<Option<B>>)
    requires
        attempts.len() >= 1,
        attempts[0] is Some,
    ensures
        connects(None, attempts) == 1,
{
    lemma_held_never_connects(attempts[0], attempts.drop_first());
}

/// Once a session is held, calls never connect again.
pub proof fn lemma_held_never_connects<B>(slot: Option<B>, attempts: Seq<Option<B>>)
    requires
        slot is Some,
    ensures
        connects(slot, attempts) == 0,
    decreases attempts.len(),
{
    if attempts.len() > 0 {
        lemma_held_never_connects(slot, attempts.drop_first());
    }
}

/// What the liveness probe reports for its own fresh attempt: a connection
/// (or its error), then a status call on it (or its error).
pub open spec fn probe_says_running(
    attempt: Result<Result<DaemonStatus, DaemonError>, DaemonError>,
) -> bool {
    attempt matches Ok(Ok(_))
}

/// Whether the daemon runs, judged from a fresh connection attempt and a
/// status call on it only; every error reads as "not running".
pub fn is_running(attempt: Result<Result<DaemonStatus, DaemonError>, DaemonError>) -> (r: bool)
    ensures
        r == probe_says_running(attempt),
{
    match attempt {
        Ok(Ok(_)) => true,
        _ => false,
    }
}

/// The probe does not consult the cache: when the fresh attempt fails, it
/// reports "not running", whatever session is held.
pub proof fn lemma_probe_ignores_cache<B>(
    cache: SessionCache<B>,
    attempt: Result<Result<DaemonStatus, DaemonError>, DaemonError>,
)
    requires
        !(attempt matches Ok(Ok(_))),
    ensures
        !probe_says_running(attempt),
{
}

/// The status line shown while polling the daemon with a fresh attempt.
pub open spec fn status_line_of(
    attempt: Result<Result<DaemonStatus, DaemonError>, DaemonError>,
) -> Seq<char> {
    match attempt {
        Ok(Ok(st)) => if st.connected {
            "Status: Connected ("@ + st.network_name@ + ")"@
        } else {
            "Status: Disconnected"@
        },
        Ok(Err(_)) => "Status: Daemon Error"@,
        Err(_) => "Status: Daemon Stopped"@,
    }
}

/// Renders the result of a fresh connection attempt and status call.
pub fn status_line(attempt: &Result<Result<DaemonStatus, DaemonError>, DaemonError>) -> (r:
    String)
    ensures
        r@ == status_line_of(*attempt),
{
    match attempt {
        Ok(Ok(st)) => if st.connected {
            String::from_str("Status: Connected (").concat(st.network_name.as_str()).concat(")")
        } else {
            String::from_str("Status: Disconnected")
        },
        Ok(Err(_)) => String::from_str("Status: Daemon Error"),
        Err(_) => String::from_str("Status: Daemon Stopped"),
    }
}

} // verus!
