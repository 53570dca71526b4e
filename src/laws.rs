use vstd::prelude::*;

use crate::descriptor::{keys_distinct, SettingView};
use crate::reconcile::{outcome_of, plan_spec, ActionView, Mode, Outcome, StepView};
use crate::transaction::{apply_all, commits, durable, read_of, step_result};
use crate::value::DataView;

verus! {

/// What each setting of a container reads in a store.
pub open spec fn reads_of(s: Map<Seq<char>, DataView>, settings: Seq<SettingView>) -> Seq<
    Option<DataView>,
> {
    Seq::new(settings.len(), |i: int| read_of(s, settings[i].key))
}

/// No two steps name the same value.
pub open spec fn step_keys_distinct(steps: Seq<StepView>) -> bool {
    forall|i: int, j: int| 0 <= i < j < steps.len() ==> #[trigger] steps[i].key != #[trigger] steps[j].key
}

/// Carrying out steps on distinct values: each value a step names reads as
/// that step left it, and every other value reads as before.
pub proof fn lemma_apply_all_reads(s: Map<Seq<char>, DataView>, steps: Seq<StepView>)
    requires
        step_keys_distinct(steps),
    ensures
        forall|j: int|
            0 <= j < steps.len() ==> read_of(apply_all(s, steps), #[trigger] steps[j].key)
                == step_result(read_of(s, steps[j].key), steps[j].action),
        forall|k: Seq<char>|
            (forall|j: int| 0 <= j < steps.len() ==> steps[j].key != k) ==> read_of(
                #[trigger] apply_all(s, steps),
                k,
            ) == read_of(s, k),
    decreases steps.len(),
{
    if steps.len() > 0 {
        let prev = steps.drop_last();
        let last = steps.last();
        assert forall|i: int, j: int| 0 <= i < j < prev.len() implies #[trigger] prev[i].key
            != #[trigger] prev[j].key by {
            assert(prev[i] == steps[i] && prev[j] == steps[j]);
        }
        lemma_apply_all_reads(s, prev);
        assert forall|i: int| 0 <= i < prev.len() implies prev[i].key != last.key by {
            assert(prev[i] == steps[i]);
        }
        assert forall|j: int| 0 <= j < steps.len() implies read_of(
            apply_all(s, steps),
            #[trigger] steps[j].key,
        ) == step_result(read_of(s, steps[j].key), steps[j].action) by {
            if j < steps.len() - 1 {
                assert(prev[j] == steps[j]);
            }
        }
        assert forall|k: Seq<char>|
            (forall|j: int| 0 <= j < steps.len() ==> steps[j].key != k) implies read_of(
            #[trigger] apply_all(s, steps),
            k,
        ) == read_of(s, k) by {
            assert forall|j: int| 0 <= j < prev.len() implies prev[j].key != k by {
                assert(prev[j] == steps[j]);
            }
            assert(last == steps[steps.len() - 1]);
        }
    }
}

proof fn lemma_plan_keys(settings: Seq<SettingView>, currents: Seq<Option<DataView>>, mode: Mode)
    requires
        keys_distinct(settings),
        currents.len() == settings.len(),
    ensures
        step_keys_distinct(plan_spec(settings, currents, mode)),
{
    let steps = plan_spec(settings, currents, mode);
    assert forall|i: int, j: int| 0 <= i < j < steps.len() implies #[trigger] steps[i].key
        != #[trigger] steps[j].key by {
        assert(settings[i].key != settings[j].key);
    }
}

/// Idempotence: once a container's settings have been applied and every
/// write succeeded, each of them reads back as `Correct`, and applying them
/// again writes nothing.
pub proof fn law_apply_is_idempotent(
    settings: Seq<SettingView>,
    s: Map<Seq<char>, DataView>,
    results: Seq<bool>,
)
    requires
        keys_distinct(settings),
        forall|i: int| 0 <= i < results.len() ==> results[i],
    ensures
        ({
            let after = durable(
                s,
                plan_spec(settings, reads_of(s, settings), Mode::Apply),
                Mode::Apply,
                results,
            );
            let again = plan_spec(settings, reads_of(after, settings), Mode::Apply);
            forall|i: int|
                0 <= i < settings.len() ==> {
                    &&& outcome_of(read_of(after, settings[i].key), settings[i].desired)
                        == Outcome::Correct
                    &&& (#[trigger] again[i]).outcome == Outcome::Correct
                    &&& again[i].action == ActionView::Keep
                }
        }),
{
    let steps = plan_spec(settings, reads_of(s, settings), Mode::Apply);
    lemma_plan_keys(settings, reads_of(s, settings), Mode::Apply);
    lemma_apply_all_reads(s, steps);
    assert(commits(Mode::Apply, results));
    let after = durable(s, steps, Mode::Apply, results);
    let again = plan_spec(settings, reads_of(after, settings), Mode::Apply);
    assert forall|i: int| 0 <= i < settings.len() implies outcome_of(
        read_of(after, settings[i].key),
        settings[i].desired,
    ) == Outcome::Correct by {
        assert(steps[i].key == settings[i].key);
    }
    assert forall|i: int| 0 <= i < settings.len() implies {
        &&& (#[trigger] again[i]).outcome == Outcome::Correct
        &&& again[i].action == ActionView::Keep
    } by {
        assert(steps[i].key == settings[i].key);
    }
}

/// Round trip: after an apply and then a restore, every write succeeding,
/// each setting with a default reads as that default (`Correct` against
/// it), and each setting without one is absent (`Missing`).
pub proof fn law_restore_round_trip(
    settings: Seq<SettingView>,
    s: Map<Seq<char>, DataView>,
    applied: Seq<bool>,
    restored: Seq<bool>,
)
    requires
        keys_distinct(settings),
        forall|i: int| 0 <= i < applied.len() ==> applied[i],
        forall|i: int| 0 <= i < restored.len() ==> restored[i],
    ensures
        ({
            let after_apply = durable(
                s,
                plan_spec(settings, reads_of(s, settings), Mode::Apply),
                Mode::Apply,
                applied,
            );
            let after_restore = durable(
                after_apply,
                plan_spec(settings, reads_of(after_apply, settings), Mode::Restore),
                Mode::Restore,
                restored,
            );
            forall|i: int|
                0 <= i < settings.len() ==> match #[trigger] settings[i].default {
                    Some(d) => outcome_of(read_of(after_restore, settings[i].key), d)
                        == Outcome::Correct,
                    None => outcome_of(read_of(after_restore, settings[i].key), settings[i].desired)
                        == Outcome::Missing,
                }
        }),
{
    let after_apply = durable(
        s,
        plan_spec(settings, reads_of(s, settings), Mode::Apply),
        Mode::Apply,
        applied,
    );
    let steps = plan_spec(settings, reads_of(after_apply, settings), Mode::Restore);
    lemma_plan_keys(settings, reads_of(after_apply, settings), Mode::Restore);
    lemma_apply_all_reads(after_apply, steps);
    assert(commits(Mode::Restore, restored));
    assert forall|i: int| 0 <= i < settings.len() implies steps[i].key == settings[i].key
        && steps[i].action == match settings[i].default {
        Some(d) => ActionView::Write(d),
        None => ActionView::Delete,
    } by {}
}

/// Atomicity: a group whose run only audits, or in which any write failed,
/// leaves the container exactly as it was, every value included.
pub proof fn law_failed_group_is_discarded(
    s: Map<Seq<char>, DataView>,
    steps: Seq<StepView>,
    mode: Mode,
    results: Seq<bool>,
)
    requires
        mode == Mode::Audit || exists|i: int| 0 <= i < results.len() && !results[i],
    ensures
        durable(s, steps, mode, results) == s,
        forall|k: Seq<char>| read_of(#[trigger] durable(s, steps, mode, results), k) == read_of(s, k),
{
}

/// Byte sequences are compared exactly: one that differs from the desired
/// bytes in its last byte alone is `Wrong`.
pub proof fn law_trailing_byte_is_wrong(desired: Seq<u8>, current: Seq<u8>)
    requires
        desired.len() > 0,
        current.len() == desired.len(),
        current.drop_last() == desired.drop_last(),
        current.last() != desired.last(),
    ensures
        outcome_of(Some(DataView::Binary(current)), DataView::Binary(desired)) == Outcome::Wrong,
{
    assert(current != desired);
}

} // verus!
