//! Idle tracking: the timeout, the inhibitors holding idling off, and the
//! change signal that wakes the idle task.

use vstd::prelude::*;

use crate::backend::TaskHandle;

verus! {

/// The compositor's idle state.
#[derive(Clone, Debug)]
pub struct IdleState {
    /// Input arrived since the last check.
    pub input: bool,
    /// The idle timeout, in milliseconds.
    pub timeout_ms: u64,
    pub timeout_changed: bool,
    /// Ids of the live idle inhibitors.
    pub inhibitors: Vec<u64>,
    pub inhibitors_changed: bool,
    /// The idle task has been signalled.
    pub change_pending: bool,
}

impl IdleState {
    /// Fresh idle state with the given timeout.
    pub fn new(timeout_ms: u64) -> (r: IdleState)
        ensures
            r.timeout_ms == timeout_ms,
            !r.input,
            !r.timeout_changed,
            r.inhibitors@.len() == 0,
            !r.inhibitors_changed,
            !r.change_pending,
    {
        IdleState {
            input: false,
            timeout_ms,
            timeout_changed: false,
            inhibitors: Vec::new(),
            inhibitors_changed: false,
            change_pending: false,
        }
    }

    /// Sets the timeout and signals the idle task.
    pub fn set_timeout(&mut self, timeout_ms: u64)
        ensures
            *final(self) == (IdleState {
                timeout_ms,
                timeout_changed: true,
                change_pending: true,
                ..*old(self)
            }),
    {
        self.timeout_ms = timeout_ms;
        self.timeout_changed = true;
        self.change_pending = true;
    }

    /// Registers an inhibitor and signals the idle task.
    pub fn add_inhibitor(&mut self, inhibitor: u64)
        ensures
            final(self).inhibitors@ == old(self).inhibitors@.push(inhibitor),
            *final(self) == (IdleState {
                inhibitors: final(self).inhibitors,
                inhibitors_changed: true,
                change_pending: true,
                ..*old(self)
            }),
    {
        self.inhibitors.push(inhibitor);
        self.inhibitors_changed = true;
        self.change_pending = true;
    }

    /// Removes an inhibitor, keeping every other one, and signals the idle
    /// task.
    pub fn remove_inhibitor(&mut self, inhibitor: u64)
        ensures
            final(self).inhibitors@ == old(self).inhibitors@.filter(|x: u64| x != inhibitor),
            *final(self) == (IdleState {
                inhibitors: final(self).inhibitors,
                inhibitors_changed: true,
                change_pending: true,
                ..*old(self)
            }),
    {
        let mut kept: Vec<u64> = Vec::new();
        let n = self.inhibitors.len();
        for i in 0..n
            invariant
                n == self.inhibitors@.len(),
                kept@ == self.inhibitors@.take(i as int).filter(|x: u64| x != inhibitor),
        {
            proof {
                let p = |x: u64| x != inhibitor;
                let t = self.inhibitors@.take(i as int);
                let e = self.inhibitors@[i as int];
                assert(self.inhibitors@.take(i + 1) =~= t.push(e));
                t.lemma_filter_push(e, p);
            }
            if self.inhibitors[i] != inhibitor {
                kept.push(self.inhibitors[i]);
            }
        }
        proof {
            assert(self.inhibitors@.take(n as int) =~= self.inhibitors@);
        }
        self.inhibitors = kept;
        self.inhibitors_changed = true;
        self.change_pending = true;
    }
}

/// The embedded X compatibility layer's state.
#[derive(Clone, Debug)]
pub struct XWaylandState {
    pub enabled: bool,
    /// The task running the layer, once started.
    pub handler: Option<TaskHandle>,
}

} // verus!
