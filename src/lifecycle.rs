//! The bridge's running flag and its once-only shutdown.
use vstd::prelude::*;

verus! {

/// Whether the bridge is still running, and whether the session's shutdown
/// has been claimed by someone.
///
/// The bridge starts running and stops once; it never starts again. Exactly
/// one caller is granted the session's shutdown.
#[derive(Debug)]
pub struct Lifecycle {
    running: bool,
    shutdown_claimed: bool,
}

/// What one claim of the shutdown returns, and whether the shutdown is
/// claimed afterwards, given whether it was claimed before.
pub open spec fn claim_step(claimed_before: bool) -> (bool, bool) {
    (!claimed_before, true)
}

/// How many of `n` successive claims, the first made when the shutdown
/// was `claimed` already or not, are granted.
pub open spec fn claims_granted(claimed: bool, n: nat) -> nat
    decreases n,
{
    if n == 0 {
        0
    } else {
        let (granted, after) = claim_step(claimed);
        (if granted {
            1nat
        } else {
            0nat
        }) + claims_granted(after, (n - 1) as nat)
    }
}

impl Lifecycle {
    /// Whether the bridge is running.
    pub closed spec fn spec_running(&self) -> bool {
        self.running
    }

    /// Whether the session's shutdown has been claimed.
    pub closed spec fn spec_shutdown_claimed(&self) -> bool {
        self.shutdown_claimed
    }

    /// A running bridge whose shutdown nobody has claimed.
    pub fn new() -> (r: Lifecycle)
        ensures
            r.spec_running(),
            !r.spec_shutdown_claimed(),
    {
        Lifecycle { running: true, shutdown_claimed: false }
    }

    /// Whether the bridge is running.
    pub fn is_running(&self) -> (r: bool)
        ensures
            r == self.spec_running(),
    {
        self.running
    }

    /// Stops the bridge. Returns whether this call is the one that stopped it.
    pub fn stop(&mut self) -> (changed: bool)
        ensures
            !final(self).spec_running(),
            changed == old(self).spec_running(),
            final(self).spec_shutdown_claimed() == old(self).spec_shutdown_claimed(),
    {
        let changed = self.running;
        self.running = false;
        changed
    }

    /// Claims the session's shutdown: `true` for the first caller only, who
    /// then performs it; every later caller finds it already under way.
    pub fn claim_shutdown(&mut self) -> (granted: bool)
        ensures
            (granted, final(self).spec_shutdown_claimed()) == claim_step(
                old(self).spec_shutdown_claimed(),
            ),
            final(self).spec_running() == old(self).spec_running(),
    {
        let granted = !self.shutdown_claimed;
        self.shutdown_claimed = true;
        granted
    }
}

/// Of any number of claims made on a fresh lifecycle, exactly one is granted
/// (none when no claim is made): the session is shut down once.
pub proof fn lemma_shutdown_granted_once(n: nat)
    ensures
        claims_granted(false, n) == (if n > 0 {
            1nat
        } else {
            0nat
        }),
{
    if n > 0 {
        lemma_no_claim_granted_after_first((n - 1) as nat);
    }
}

/// Once the shutdown is claimed, no further claim is granted.
pub proof fn lemma_no_claim_granted_after_first(n: nat)
    ensures
        claims_granted(true, n) == 0,
    decreases n,
{
    if n > 0 {
        lemma_no_claim_granted_after_first((n - 1) as nat);
    }
}

} // verus!
