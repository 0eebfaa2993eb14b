//! Change tracking: a previous/current sample pair per watched quantity.
//!
//! Raw values read out of a foreign process are never trusted standalone;
//! each one is pushed through a [`Tracker`], and every derived fact (edges,
//! time-bonus phases) is defined over the resulting pair.

use vstd::prelude::*;

verus! {

/// The two most recent samples of a watched quantity.
#[derive(Clone, Copy)]
pub struct SamplePair<T> {
    pub previous: T,
    pub current: T,
}

/// Holds the previous and current sampled value of a typed quantity.
///
/// Before the first update no sample is represented; after the first
/// update both fields of the pair are always populated.
#[derive(Clone, Copy)]
pub struct Tracker<T> {
    pub pair: Option<SamplePair<T>>,
}

/// The tracker state after one more sample has been pushed: the old
/// current value (or, on the very first push, the new sample itself)
/// becomes the previous value.
pub open spec fn pushed<T>(t: Tracker<T>, v: T) -> Tracker<T> {
    match t.pair {
        Some(p) => Tracker { pair: Some(SamplePair { previous: p.current, current: v }) },
        None => Tracker { pair: Some(SamplePair { previous: v, current: v }) },
    }
}

/// The current tracked value, or a default before the first update.
pub open spec fn current_or<T>(t: Tracker<T>, default: T) -> T {
    match t.pair {
        Some(p) => p.current,
        None => default,
    }
}

/// True exactly when the tracked value moved from `a` to `b` on the most
/// recent update: a one-tick pulse, not a level.
pub open spec fn edge_from_to<T>(t: Tracker<T>, a: T, b: T) -> bool {
    match t.pair {
        Some(p) => p.previous == a && p.current == b,
        None => false,
    }
}

/// True exactly when the tracked value just became `b`, having differed.
pub open spec fn edge_to<T>(t: Tracker<T>, b: T) -> bool {
    match t.pair {
        Some(p) => p.previous != b && p.current == b,
        None => false,
    }
}

/// A raw sample, or the documented zero/default when the read failed.
pub open spec fn sample_or<T>(raw: Option<T>, default: T) -> T {
    match raw {
        Some(v) => v,
        None => default,
    }
}

/// The baseline after one bonus-counter sample lands in `t`: captured the
/// tick the counter leaves zero, cleared the tick it returns to zero,
/// kept otherwise.
pub open spec fn bonus_baseline_next(t: Tracker<u32>, baseline: u32) -> u32 {
    match t.pair {
        Some(p) => if p.previous == 0 && p.current != 0 {
            p.current
        } else if p.current == 0 {
            0u32
        } else {
            baseline
        },
        None => baseline,
    }
}

/// Whether a bonus sequence is actively counting: the counter is tracked,
/// a nonzero baseline was captured, and the counter has moved off it.
pub open spec fn bonus_active(t: Tracker<u32>, baseline: u32) -> bool {
    match t.pair {
        Some(p) => baseline != 0 && p.current != baseline,
        None => false,
    }
}

/// One tick of a start-trigger watch: push the sampled byte (zero on a
/// failed read) and report whether it just moved from the armed value to
/// the fired value.
pub fn trigger_step(t: &mut Tracker<u8>, raw: Option<u8>, armed: u8, fired: u8) -> (r: bool)
    ensures
        *final(t) == pushed(*old(t), sample_or(raw, 0u8)),
        r == edge_from_to(*final(t), armed, fired),
{
    let v = match raw {
        Some(x) => x,
        None => 0u8,
    };
    t.update(v);
    match &t.pair {
        Some(p) => p.previous == armed && p.current == fired,
        None => false,
    }
}

/// One tick of a time-bonus watch: push the sampled counter (zero on a
/// failed read), maintain the captured baseline, and report whether the
/// bonus is actively counting.  The tick the counter first leaves zero is
/// the capture tick and reports inactive.
pub fn bonus_step(t: &mut Tracker<u32>, baseline: &mut u32, raw: Option<u32>) -> (r: bool)
    ensures
        *final(t) == pushed(*old(t), sample_or(raw, 0u32)),
        *final(baseline) == bonus_baseline_next(*final(t), *old(baseline)),
        r == bonus_active(*final(t), *final(baseline)),
{
    let v = match raw {
        Some(x) => x,
        None => 0u32,
    };
    t.update(v);
    match &t.pair {
        Some(p) => {
            if p.previous == 0 && p.current != 0 {
                *baseline = p.current;
            } else if p.current == 0 {
                *baseline = 0;
            }
            *baseline != 0 && p.current != *baseline
        },
        None => false,
    }
}

/// A start trigger is an edge, not a level: after one more sample lands,
/// the armed-to-fired edge holds exactly when the tracked value stood at
/// the armed value and the new sample is the fired value.  In particular
/// a repeated fired sample after a fired one reports no edge.
pub proof fn lemma_trigger_edge_exact<T>(t: Tracker<T>, armed: T, fired: T, v: T)
    ensures
        edge_from_to(pushed(t, v), armed, fired) <==> ((match t.pair {
            Some(p) => p.current == armed,
            None => v == armed,
        }) && v == fired),
{
}

/// A fired value that stays fired does not re-trigger: once the tracked
/// value sits at the fired value, no further sample can produce the
/// armed-to-fired edge unless it first returns through the armed value.
pub proof fn lemma_trigger_no_retrigger<T>(t: Tracker<T>, armed: T, fired: T, v: T)
    requires
        armed != fired,
        t.pair matches Some(p) && p.current == fired,
    ensures
        !edge_from_to(pushed(t, v), armed, fired),
{
}

/// The three phases of the time-bonus watch: the tick the counter leaves
/// zero captures the baseline and reports inactive; later nonzero ticks
/// off the baseline report active; the tick the counter returns to zero
/// reports inactive again.
pub proof fn lemma_bonus_phases(t: Tracker<u32>, baseline: u32, v: u32)
    ensures
        (t.pair matches Some(p) && p.current == 0 && v != 0) ==> ({
            let t2 = pushed(t, v);
            let b2 = bonus_baseline_next(t2, baseline);
            b2 == v && !bonus_active(t2, b2)
        }),
        (t.pair matches Some(p) && p.current != 0 && v != 0 && baseline != 0 && v != baseline)
            ==> ({
            let t2 = pushed(t, v);
            let b2 = bonus_baseline_next(t2, baseline);
            b2 == baseline && bonus_active(t2, b2)
        }),
        v == 0 ==> !bonus_active(pushed(t, v), bonus_baseline_next(pushed(t, v), baseline)),
{
}

impl<T: Copy> Tracker<T> {
    /// A tracker that has not yet seen a sample.
    pub fn new() -> (r: Tracker<T>)
        ensures
            r.pair is None,
    {
        Tracker { pair: None }
    }

    /// Record one more sample.
    pub fn update(&mut self, v: T)
        ensures
            *final(self) == pushed(*old(self), v),
    {
        let previous = match &self.pair {
            Some(p) => p.current,
            None => v,
        };
        self.pair = Some(SamplePair { previous, current: v });
    }

    /// The current tracked value, or `default` before the first update.
    pub fn current_or(&self, default: T) -> (r: T)
        ensures
            r == current_or(*self, default),
    {
        match &self.pair {
            Some(p) => p.current,
            None => default,
        }
    }
}

} // verus!
