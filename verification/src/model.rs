use crate::writer::is_duplicate;
use vstd::prelude::*;

verus! {

// A specification-level account of a run of capture iterations. One
// iteration is driven by two events the scheduler does not control: what
// the capture provider returned, and whether the filesystem save
// succeeded. `ScreenshotWriter::write_screenshot` is specified against one
// step of this model; the lemmas below state what whole runs do.

/// The events of one iteration: the provider's capture (`None` when the
/// provider failed) and whether a save, had one been attempted, succeeded.
pub struct IterationEvent {
    pub capture: Option<Seq<u8>>,
    pub io_ok: bool,
}

/// What one iteration did.
pub enum IterationOutcome {
    /// The provider failed; nothing was touched.
    CaptureFailed,
    /// The capture equalled the baseline under duplicate suppression.
    Skipped,
    /// These bytes were persisted and became the new baseline.
    Written(Seq<u8>),
    /// The save failed; the baseline did not move.
    IoFailed,
}

/// The outcome of one iteration, from the baseline and the events.
pub open spec fn step_outcome(last: Option<Seq<u8>>, skip: bool, ev: IterationEvent)
    -> IterationOutcome {
    match ev.capture {
        None => IterationOutcome::CaptureFailed,
        Some(b) => if skip && is_duplicate(last, b) {
            IterationOutcome::Skipped
        } else if ev.io_ok {
            IterationOutcome::Written(b)
        } else {
            IterationOutcome::IoFailed
        },
    }
}

/// The baseline after one iteration: it moves exactly on a write.
pub open spec fn step_last(last: Option<Seq<u8>>, skip: bool, ev: IterationEvent)
    -> Option<Seq<u8>> {
    match step_outcome(last, skip, ev) {
        IterationOutcome::Written(b) => Some(b),
        _ => last,
    }
}

/// The outcomes of a run, one per iteration.
pub open spec fn run_outcomes(last: Option<Seq<u8>>, skip: bool, evs: Seq<IterationEvent>)
    -> Seq<IterationOutcome>
    decreases evs.len(),
{
    if evs.len() == 0 {
        Seq::empty()
    } else {
        seq![step_outcome(last, skip, evs[0])] + run_outcomes(
            step_last(last, skip, evs[0]),
            skip,
            evs.drop_first(),
        )
    }
}

/// The baseline after a whole run.
pub open spec fn run_last(last: Option<Seq<u8>>, skip: bool, evs: Seq<IterationEvent>)
    -> Option<Seq<u8>>
    decreases evs.len(),
{
    if evs.len() == 0 {
        last
    } else {
        run_last(step_last(last, skip, evs[0]), skip, evs.drop_first())
    }
}

/// How many iterations of a run wrote a file.
pub open spec fn written_count(outs: Seq<IterationOutcome>) -> nat
    decreases outs.len(),
{
    if outs.len() == 0 {
        0
    } else {
        (if outs[0] is Written {
            1nat
        } else {
            0nat
        }) + written_count(outs.drop_first())
    }
}

/// A run reports one outcome per iteration.
pub proof fn lemma_one_outcome_per_iteration(
    last: Option<Seq<u8>>,
    skip: bool,
    evs: Seq<IterationEvent>,
)
    ensures
        run_outcomes(last, skip, evs).len() == evs.len(),
    decreases evs.len(),
{
    if evs.len() > 0 {
        lemma_one_outcome_per_iteration(step_last(last, skip, evs[0]), skip, evs.drop_first());
    }
}

/// With duplicate suppression off and every capture and save succeeding, a
/// run of n iterations writes exactly n files, and the i-th holds exactly
/// the bytes the provider returned on iteration i.
pub proof fn lemma_every_capture_written(
    last: Option<Seq<u8>>,
    evs: Seq<IterationEvent>,
)
    requires
        forall|i: int| 0 <= i < evs.len() ==> (#[trigger] evs[i]).capture is Some && evs[i].io_ok,
    ensures
        run_outcomes(last, false, evs).len() == evs.len(),
        forall|i: int| 0 <= i < evs.len() ==> #[trigger] run_outcomes(last, false, evs)[i]
            == IterationOutcome::Written(evs[i].capture.unwrap()),
        written_count(run_outcomes(last, false, evs)) == evs.len(),
    decreases evs.len(),
{
    lemma_one_outcome_per_iteration(last, false, evs);
    if evs.len() > 0 {
        let tail = evs.drop_first();
        assert(forall|i: int| 0 <= i < tail.len() ==> (#[trigger] tail[i]) == evs[i + 1]);
        lemma_every_capture_written(step_last(last, false, evs[0]), tail);
        let outs = run_outcomes(last, false, evs);
        assert(outs.drop_first() =~= run_outcomes(step_last(last, false, evs[0]), false, tail));
        assert(outs[0] == step_outcome(last, false, evs[0]));
    }
}

/// A failed capture leaves the duplicate-detection baseline exactly as it
/// was before that iteration.
pub proof fn lemma_capture_failure_preserves_baseline(
    last: Option<Seq<u8>>,
    skip: bool,
    ev: IterationEvent,
)
    requires
        ev.capture is None,
    ensures
        step_outcome(last, skip, ev) == IterationOutcome::CaptureFailed,
        step_last(last, skip, ev) == last,
{
}

/// Running one more iteration after a prefix steps the prefix's baseline.
pub proof fn lemma_run_last_push(
    last: Option<Seq<u8>>,
    skip: bool,
    evs: Seq<IterationEvent>,
    ev: IterationEvent,
)
    ensures
        run_last(last, skip, evs.push(ev)) == step_last(run_last(last, skip, evs), skip, ev),
    decreases evs.len(),
{
    reveal_with_fuel(run_last, 2);
    if evs.len() == 0 {
        assert(evs.push(ev)[0] == ev);
        assert(evs.push(ev).drop_first() =~= Seq::<IterationEvent>::empty());
    } else {
        assert(evs.push(ev)[0] == evs[0]);
        assert(evs.push(ev).drop_first() =~= evs.drop_first().push(ev));
        lemma_run_last_push(step_last(last, skip, evs[0]), skip, evs.drop_first(), ev);
    }
}

/// Failure isolation over a run: if the provider fails on iteration k, the
/// baseline after k iterations plus the failed one equals the baseline
/// after the first k alone — the failure contributes nothing.
pub proof fn lemma_failure_isolated(
    last: Option<Seq<u8>>,
    skip: bool,
    evs: Seq<IterationEvent>,
    k: int,
)
    requires
        0 <= k < evs.len(),
        evs[k].capture is None,
    ensures
        run_last(last, skip, evs.take(k + 1)) == run_last(last, skip, evs.take(k)),
{
    assert(evs.take(k + 1) =~= evs.take(k).push(evs[k]));
    lemma_run_last_push(last, skip, evs.take(k), evs[k]);
    lemma_capture_failure_preserves_baseline(run_last(last, skip, evs.take(k)), skip, evs[k]);
}

/// Duplicate suppression: a provider that hands the same bytes twice in a
/// row, starting from a baseline that does not already equal them, gets
/// exactly one file written.
pub proof fn lemma_duplicate_suppressed(last: Option<Seq<u8>>, b: Seq<u8>)
    requires
        !is_duplicate(last, b),
    ensures
        ({
            let evs = seq![
                IterationEvent { capture: Some(b), io_ok: true },
                IterationEvent { capture: Some(b), io_ok: true },
            ];
            written_count(run_outcomes(last, true, evs)) == 1
        }),
{
    reveal_with_fuel(run_outcomes, 3);
    reveal_with_fuel(written_count, 3);
    let ev = IterationEvent { capture: Some(b), io_ok: true };
    let evs = seq![ev, ev];
    assert(step_outcome(last, true, ev) == IterationOutcome::Written(b));
    assert(step_last(last, true, ev) == Some(b));
    assert(evs.drop_first() =~= seq![ev]);
    assert(seq![ev].drop_first() =~= Seq::<IterationEvent>::empty());
    assert(step_outcome(Some(b), true, ev) == IterationOutcome::Skipped);
    assert(run_outcomes(last, true, evs) =~= seq![
        IterationOutcome::Written(b),
        IterationOutcome::Skipped,
    ]);
}

/// Two distinct captures in a row are both written, suppression on or off.
pub proof fn lemma_distinct_both_written(last: Option<Seq<u8>>, skip: bool, b1: Seq<u8>, b2: Seq<u8>)
    requires
        !is_duplicate(last, b1),
        b1 != b2,
    ensures
        ({
            let evs = seq![
                IterationEvent { capture: Some(b1), io_ok: true },
                IterationEvent { capture: Some(b2), io_ok: true },
            ];
            written_count(run_outcomes(last, skip, evs)) == 2
        }),
{
    reveal_with_fuel(run_outcomes, 3);
    reveal_with_fuel(written_count, 3);
    let ev1 = IterationEvent { capture: Some(b1), io_ok: true };
    let ev2 = IterationEvent { capture: Some(b2), io_ok: true };
    let evs = seq![ev1, ev2];
    assert(step_outcome(last, skip, ev1) == IterationOutcome::Written(b1));
    assert(step_last(last, skip, ev1) == Some(b1));
    assert(evs.drop_first() =~= seq![ev2]);
    assert(seq![ev2].drop_first() =~= Seq::<IterationEvent>::empty());
    assert(!is_duplicate(Some(b1), b2));
    assert(step_outcome(Some(b1), skip, ev2) == IterationOutcome::Written(b2));
    assert(run_outcomes(last, skip, evs) =~= seq![
        IterationOutcome::Written(b1),
        IterationOutcome::Written(b2),
    ]);
}

} // verus!
