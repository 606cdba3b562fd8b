//! Rate-limited snapshot emission with a latest-wins pending slot.
use vstd::prelude::*;

verus! {

/// Hands snapshots to the caller at most once per update interval. A snapshot
/// that is held back becomes the pending one, replacing any earlier pending
/// snapshot rather than queueing behind it.
///
/// Times are microseconds on an arbitrary monotonic epoch. An interval of zero
/// lets every frame through whose time is not before the last emission.
pub struct EmissionGate<S> {
    pub last_update_us: u64,
    pub interval_us: u64,
    pub pending: Option<S>,
}

/// Whether a frame at `now_us` is due for emission, given the last emission time.
pub open spec fn is_due(last_update_us: u64, interval_us: u64, now_us: u64) -> bool {
    now_us as int - last_update_us as int >= interval_us as int
}

impl<S> EmissionGate<S> {
    pub open spec fn due_at(&self, now_us: u64) -> bool {
        is_due(self.last_update_us, self.interval_us, now_us)
    }

    /// A gate that has never emitted: its clock of the last emission reads zero.
    pub fn new(interval_us: u64) -> (r: Self)
        ensures
            r.last_update_us == 0,
            r.interval_us == interval_us,
            r.pending is None,
    {
        EmissionGate { last_update_us: 0, interval_us, pending: None }
    }

    /// Offers the snapshot of the frame at `now_us`. When the frame is due, the
    /// snapshot is returned and the emission time advances to `now_us`;
    /// otherwise it becomes the pending snapshot and nothing is returned.
    pub fn offer(&mut self, now_us: u64, snapshot: S) -> (r: Option<S>)
        ensures
            (*final(self), r) == step(*old(self), now_us, snapshot),
            final(self).interval_us == old(self).interval_us,
            old(self).due_at(now_us) ==> {
                &&& r == Some(snapshot)
                &&& final(self).last_update_us == now_us
                &&& final(self).pending == old(self).pending
            },
            !old(self).due_at(now_us) ==> {
                &&& r is None
                &&& final(self).last_update_us == old(self).last_update_us
                &&& final(self).pending == Some(snapshot)
            },
    {
        if now_us >= self.last_update_us && now_us - self.last_update_us >= self.interval_us {
            self.last_update_us = now_us;
            Some(snapshot)
        } else {
            self.pending = Some(snapshot);
            None
        }
    }

    /// Takes the pending snapshot out, leaving none behind.
    pub fn take_pending(&mut self) -> (r: Option<S>)
        ensures
            r == old(self).pending,
            final(self).pending is None,
            final(self).last_update_us == old(self).last_update_us,
            final(self).interval_us == old(self).interval_us,
    {
        self.pending.take()
    }
}

/// The state and the result after offering the snapshot `s` of a frame at `now_us`.
pub open spec fn step<S>(g: EmissionGate<S>, now_us: u64, s: S) -> (EmissionGate<S>, Option<S>) {
    if g.due_at(now_us) {
        (EmissionGate { last_update_us: now_us, interval_us: g.interval_us, pending: g.pending }, Some(s))
    } else {
        (EmissionGate { last_update_us: g.last_update_us, interval_us: g.interval_us, pending: Some(s) }, None)
    }
}

/// The state and the results after offering each frame of `frames` in turn.
pub open spec fn run<S>(g: EmissionGate<S>, frames: Seq<(u64, S)>) -> (EmissionGate<S>, Seq<Option<S>>)
    decreases frames.len(),
{
    if frames.len() == 0 {
        (g, Seq::empty())
    } else {
        let (g1, outs) = run(g, frames.drop_last());
        let (g2, o) = step(g1, frames.last().0, frames.last().1);
        (g2, outs.push(o))
    }
}

/// How many of the results hand a snapshot out.
pub open spec fn emissions<S>(outs: Seq<Option<S>>) -> nat
    decreases outs.len(),
{
    if outs.len() == 0 {
        0
    } else {
        emissions(outs.drop_last()) + if outs.last() is Some { 1nat } else { 0nat }
    }
}

proof fn lemma_run_emits_once_in_window<S>(g: EmissionGate<S>, frames: Seq<(u64, S)>, lo: int)
    requires
        forall|i: int| 0 <= i < frames.len() ==> lo <= #[trigger] frames[i].0 < lo + g.interval_us,
    ensures
        run(g, frames).0.interval_us == g.interval_us,
        run(g, frames).1.len() == frames.len(),
        emissions(run(g, frames).1) <= 1,
        emissions(run(g, frames).1) == 1 ==> lo <= run(g, frames).0.last_update_us,
    decreases frames.len(),
{
    if frames.len() > 0 {
        let prefix = frames.drop_last();
        assert forall|i: int| 0 <= i < prefix.len() implies lo <= #[trigger] prefix[i].0 < lo
            + g.interval_us by {
            assert(prefix[i] == frames[i]);
        }
        lemma_run_emits_once_in_window(g, prefix, lo);
        let (g1, outs) = run(g, prefix);
        let last = frames.last();
        assert(frames[frames.len() - 1] == last);
        assert(outs.push(step(g1, last.0, last.1).1).drop_last() == outs);
    }
}

/// Of a burst of frames that all lie within one update interval of each other,
/// at most one is handed out, whatever state it starts in.
pub proof fn lemma_one_emission_per_window<S>(g: EmissionGate<S>, frames: Seq<(u64, S)>, lo: u64)
    requires
        forall|i: int| 0 <= i < frames.len() ==> lo <= #[trigger] frames[i].0 < lo + g.interval_us,
    ensures
        emissions(run(g, frames).1) <= 1,
{
    lemma_run_emits_once_in_window(g, frames, lo as int);
}

/// After a burst of frames, the snapshot of the last frame is either the one
/// handed out for it or the pending one: no earlier snapshot stands in its place.
pub proof fn lemma_latest_snapshot_wins<S>(g: EmissionGate<S>, frames: Seq<(u64, S)>)
    requires
        frames.len() > 0,
    ensures
        run(g, frames).1.last() == Some(frames.last().1) || (run(g, frames).1.last() is None
            && run(g, frames).0.pending == Some(frames.last().1)),
{
    let (g1, outs) = run(g, frames.drop_last());
    assert(outs.push(step(g1, frames.last().0, frames.last().1).1).last() == step(
        g1,
        frames.last().0,
        frames.last().1,
    ).1);
}

} // verus!
