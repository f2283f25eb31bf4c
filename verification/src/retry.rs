//! Retrying toolbar creation for Explorer windows that were not ready when
//! they were activated: the windows waiting for a retry, and the count of
//! retry rounds since the last activation. After `MAX_RETRIES` rounds every
//! waiting window is given up.

use std::collections::HashSet;
use vstd::prelude::*;

verus! {

broadcast use vstd::std_specs::hash::group_hash_axioms;

/// Id of the retry timer set on a waiting Explorer window.
pub const RETRY_TIMER_ID: usize = 0xBAD1;
/// Interval between retry rounds, in milliseconds.
pub const RETRY_INTERVAL_MS: u32 = 500;
/// Rounds before the waiting windows are given up (ten seconds).
pub const MAX_RETRIES: u32 = 20;

/// The windows waiting for a retry and the round counter.
pub struct RetryState {
    pending: HashSet<isize>,
    count: u32,
}

/// What a retry round does.
#[derive(Debug, PartialEq, Eq)]
pub enum RetryRound {
    /// Too many rounds: stop the timer on these windows, which are no
    /// longer waiting.
    GiveUp { hwnds: Vec<isize> },
    /// Try again on these windows.
    Attempt { hwnds: Vec<isize> },
}

impl RetryState {
    /// The waiting windows.
    pub closed spec fn pending_set(self) -> Set<isize> {
        self.pending@
    }

    /// Rounds started since the last activation.
    pub closed spec fn rounds(self) -> u32 {
        self.count
    }

    pub fn new() -> (r: RetryState)
        ensures
            r.pending_set() == Set::<isize>::empty(),
            r.rounds() == 0,
    {
        RetryState { pending: HashSet::new(), count: 0 }
    }

    /// Whether `hwnd` is waiting.
    pub fn is_pending(&self, hwnd: isize) -> (r: bool)
        ensures
            r == self.pending_set().contains(hwnd),
    {
        self.pending.contains(&hwnd)
    }

    /// Adds `hwnd` to the waiting windows.
    pub fn add_pending(&mut self, hwnd: isize)
        ensures
            final(self).pending_set() == old(self).pending_set().insert(hwnd),
            final(self).rounds() == old(self).rounds(),
    {
        self.pending.insert(hwnd);
    }

    /// Removes `hwnd` from the waiting windows.
    pub fn remove_pending(&mut self, hwnd: isize)
        ensures
            final(self).pending_set() == old(self).pending_set().remove(hwnd),
            final(self).rounds() == old(self).rounds(),
    {
        self.pending.remove(&hwnd);
    }

    /// The waiting windows, each once, in no particular order.
    pub fn pending_hwnds(&self) -> (r: Vec<isize>)
        ensures
            r@.no_duplicates(),
            r@.to_set() == self.pending_set(),
    {
        let mut out: Vec<isize> = Vec::new();
        for h in it: self.pending.iter()
            invariant
                out@.len() == it.index(),
                forall|i: int| 0 <= i < out@.len() ==> out@[i] == *it.seq()[i],
        {
            out.push(*h);
        }
        proof {
            let keys = vstd::std_specs::iter::IteratorSpec::remaining(
                &vstd::std_specs::hash::spec_hash_keys_iter(&self.pending),
            );
            assert(out@ =~= keys.unref());
        }
        out
    }

    /// A window became active while no toolbar exists and creating one
    /// failed: it waits for a retry, the round count starts over, and the
    /// caller sets the retry timer on it.
    pub fn schedule(&mut self, hwnd: isize)
        ensures
            final(self).pending_set() == old(self).pending_set().insert(hwnd),
            final(self).rounds() == 0,
    {
        self.add_pending(hwnd);
        self.count = 0;
    }

    /// Starts a retry round: the counter moves on (wrapping like an
    /// atomic `fetch_add`); once `MAX_RETRIES` rounds have run, every
    /// waiting window is given up and removed.
    pub fn begin_round(&mut self) -> (r: RetryRound)
        ensures
            final(self).rounds() == (if old(self).rounds() == u32::MAX {
                0
            } else {
                (old(self).rounds() + 1) as u32
            }),
            old(self).rounds() >= MAX_RETRIES ==> (r matches RetryRound::GiveUp { hwnds } && hwnds@.to_set()
                == old(self).pending_set() && final(self).pending_set() == Set::<isize>::empty()),
            old(self).rounds() < MAX_RETRIES ==> (r matches RetryRound::Attempt { hwnds } && hwnds@.to_set()
                == old(self).pending_set() && final(self).pending_set() == old(self).pending_set()),
    {
        let before = self.count;
        self.count = if self.count == u32::MAX { 0 } else { self.count + 1 };
        let hwnds = self.pending_hwnds();
        if before >= MAX_RETRIES {
            self.pending.clear();
            RetryRound::GiveUp { hwnds }
        } else {
            RetryRound::Attempt { hwnds }
        }
    }
}

/// A waiting window's part of a retry round: with a toolbar already there
/// it stops waiting and its timer is killed; otherwise creation is tried
/// and the timer is killed when it succeeds. Returns `(stop_waiting,
/// kill_timer)`; `created` is the outcome of the attempt, when one was made.
pub fn retry_window_outcome(toolbar_exists: bool, created: bool) -> (r: (bool, bool))
    ensures
        toolbar_exists ==> r == (true, true),
        !toolbar_exists ==> r == (created, created),
{
    if toolbar_exists {
        (true, true)
    } else {
        (created, created)
    }
}

} // verus!
