//! Folds the progress of one or two phases into one end-to-end percentage.
use vstd::prelude::*;
use crate::progress::{min_full, FULL};

verus! {

/// End-to-end progress at the boundary between the two phases of a job.
pub const HALF: u32 = 5000;

/// Where a phase stands in its job.
#[derive(Clone, Copy, Debug, PartialEq, Eq, Structural)]
pub enum PhaseSlot {
    /// The only phase of a single-phase job.
    Only,
    FirstOfTwo,
    SecondOfTwo,
}

/// End-to-end progress for a phase-local `native` progress, all in hundredths of a percent.
/// The first of two phases stays below `HALF`; the second covers `HALF..=FULL`.
pub open spec fn overall(slot: PhaseSlot, native: nat) -> nat {
    match slot {
        PhaseSlot::Only => min_full(native),
        PhaseSlot::FirstOfTwo => (if native >= FULL {
            (FULL - 1) as nat
        } else {
            native
        }) / 2,
        PhaseSlot::SecondOfTwo => (HALF + min_full(native) / 2) as nat,
    }
}

pub fn overall_percent(slot: PhaseSlot, native: u32) -> (r: u32)
    ensures
        r == overall(slot, native as nat),
        r <= FULL,
{
    let capped: u32 = if native > FULL {
        FULL
    } else {
        native
    };
    match slot {
        PhaseSlot::Only => capped,
        PhaseSlot::FirstOfTwo => if native >= FULL {
            (FULL - 1) / 2
        } else {
            native / 2
        },
        PhaseSlot::SecondOfTwo => HALF + capped / 2,
    }
}

/// Everything a two-phase job reports, in order: the first phase's records, the boundary
/// marker, the second phase's records, and the closing marker.
pub open spec fn two_phase_reports(first: Seq<nat>, second: Seq<nat>) -> Seq<nat> {
    first.map_values(|p: nat| overall(PhaseSlot::FirstOfTwo, p)) + seq![HALF as nat]
        + second.map_values(|p: nat| overall(PhaseSlot::SecondOfTwo, p)) + seq![FULL as nat]
}

/// In a two-phase job the boundary report is exactly `HALF`, the last report is exactly
/// `FULL`, nothing before the boundary exceeds it and nothing after it falls below it,
/// whatever the phases themselves decoded.
pub proof fn lemma_two_phase_boundaries(first: Seq<nat>, second: Seq<nat>)
    ensures
        two_phase_reports(first, second)[first.len() as int] == HALF,
        two_phase_reports(first, second).last() == FULL,
        forall|i: int|
            0 <= i < first.len() ==> #[trigger] two_phase_reports(first, second)[i] < HALF,
        forall|j: int|
            first.len() < j < two_phase_reports(first, second).len() ==> HALF
                <= #[trigger] two_phase_reports(first, second)[j] <= FULL,
{
    let s = two_phase_reports(first, second);
    let a = first.map_values(|p: nat| overall(PhaseSlot::FirstOfTwo, p));
    let b = second.map_values(|p: nat| overall(PhaseSlot::SecondOfTwo, p));
    assert(s.len() == first.len() + second.len() + 2);
    assert(s[first.len() as int] == HALF);
    assert(s[s.len() - 1] == FULL);
    assert forall|i: int| 0 <= i < first.len() implies #[trigger] s[i] < HALF by {
        assert(s[i] == a[i]);
    }
    assert forall|j: int| first.len() < j < s.len() implies HALF <= #[trigger] s[j] <= FULL by {
        if j < s.len() - 1 {
            assert(s[j] == b[j - first.len() - 1]);
        }
    }
}

} // verus!
