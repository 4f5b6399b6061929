//! The reload broadcaster's state: the registry of connected reload
//! clients and one process-wide pending-reload flag.
//!
//! The flag is deliberately shared across all clients rather than kept per
//! client, as a documented fairness limitation: after a change, the first
//! client whose keepalive drains the flag is the one told to reload, and
//! the flag is cleared for everyone. The connection handling itself lives
//! outside the library and calls in here under its lock.

use vstd::prelude::*;

verus! {

/// The broadcaster's state: the pending-reload flag and the identifiers of
/// the connected reload channels.
pub struct ReloadState {
    pub pending: bool,
    pub clients: Vec<u64>,
}

impl ReloadState {
    /// No reload pending, no clients connected.
    pub fn new() -> (r: ReloadState)
        ensures
            !r.pending,
            r.clients@ == Seq::<u64>::empty(),
    {
        ReloadState { pending: false, clients: Vec::new() }
    }

    /// A client connected: register its channel. Registry membership
    /// changes only here; the flag is untouched.
    pub fn register_client(&mut self, id: u64)
        ensures
            final(self).clients@ == old(self).clients@.push(id),
            final(self).pending == old(self).pending,
    {
        self.clients.push(id);
    }

    /// A change event: mark a reload pending. The flag, once set, stays
    /// set until a client poll drains it.
    pub fn mark_reload_pending(&mut self)
        ensures
            final(self).pending,
            final(self).clients == old(self).clients,
    {
        self.pending = true;
    }

    /// A client's keepalive arrived: tell exactly this client to reload
    /// when a reload is pending, clearing the shared flag for everyone.
    pub fn take_reload(&mut self) -> (notify: bool)
        ensures
            notify == old(self).pending,
            !final(self).pending,
            final(self).clients == old(self).clients,
    {
        let notify = self.pending;
        self.pending = false;
        notify
    }
}

/// How many reload instructions a run of `n` client keepalives delivers,
/// starting from a given flag state, with no change event in between: each
/// keepalive drains the flag as `take_reload` does.
pub open spec fn notify_count(pending: bool, n: nat) -> nat
    decreases n,
{
    if n == 0 {
        0
    } else {
        (if pending {
            1nat
        } else {
            0nat
        }) + notify_count(false, (n - 1) as nat)
    }
}

/// After a change sets the flag, a run of client keepalives delivers
/// exactly one reload instruction — to the first client polled — and with
/// no pending change it delivers none.
pub proof fn lemma_reload_delivered_exactly_once(n: nat)
    ensures
        n >= 1 ==> notify_count(true, n) == 1,
        notify_count(false, n) == 0,
    decreases n,
{
    if n >= 1 {
        lemma_reload_delivered_exactly_once((n - 1) as nat);
    }
}

} // verus!
