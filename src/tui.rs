//! The state behind the terminal dashboard: the latest snapshot shown, how
//! many snapshots have arrived, and how many remote subscribers are connected.
use vstd::prelude::*;
use std::time::Instant;

verus! {

#[verifier::external_type_specification]
#[verifier::external_body]
pub struct ExInstant(Instant);

/// Relies on `Instant::now`: the current instant, of which nothing is known.
pub assume_specification[ Instant::now ]() -> Instant;

/// Dashboard state over snapshots of type `S`.
pub struct TuiApp<S> {
    pub latest_state: Option<S>,
    pub connected_clients: usize,
    pub start_time: Instant,
    pub frame_count: u64,
}

impl<S> TuiApp<S> {
    /// Nothing received yet, no subscriber, started now.
    pub fn new() -> (r: Self)
        ensures
            r.latest_state is None,
            r.connected_clients == 0,
            r.frame_count == 0,
    {
        TuiApp { latest_state: None, connected_clients: 0, start_time: Instant::now(), frame_count: 0 }
    }

    /// Shows `state` as the latest snapshot and counts it.
    pub fn update_state(&mut self, state: S)
        requires
            old(self).frame_count < u64::MAX,
        ensures
            final(self).latest_state == Some(state),
            final(self).frame_count == old(self).frame_count + 1,
            final(self).connected_clients == old(self).connected_clients,
            final(self).start_time == old(self).start_time,
    {
        self.latest_state = Some(state);
        self.frame_count = self.frame_count + 1;
    }

    /// Records the current number of connected subscribers.
    pub fn update_clients(&mut self, count: usize)
        ensures
            final(self).connected_clients == count,
            final(self).latest_state == old(self).latest_state,
            final(self).frame_count == old(self).frame_count,
            final(self).start_time == old(self).start_time,
    {
        self.connected_clients = count;
    }
}

} // verus!
