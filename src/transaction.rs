use vstd::prelude::*;

use crate::reconcile::{ActionView, Mode, StepView};
use crate::value::DataView;

verus! {

/// The values under one container path of a store, by name.
pub open spec fn read_of(s: Map<Seq<char>, DataView>, key: Seq<char>) -> Option<DataView> {
    if s.contains_key(key) {
        Some(s[key])
    } else {
        None
    }
}

/// What a value reads after an action, given what it read before.
pub open spec fn step_result(before: Option<DataView>, action: ActionView) -> Option<DataView> {
    match action {
        ActionView::Keep => before,
        ActionView::Write(v) => Some(v),
        ActionView::Delete => None,
    }
}

/// A container's values after one step is carried out.
pub open spec fn effect(s: Map<Seq<char>, DataView>, step: StepView) -> Map<Seq<char>, DataView> {
    match step.action {
        ActionView::Keep => s,
        ActionView::Write(v) => s.insert(step.key, v),
        ActionView::Delete => s.remove(step.key),
    }
}

/// A container's values after the steps are carried out in order.
pub open spec fn apply_all(s: Map<Seq<char>, DataView>, steps: Seq<StepView>) -> Map<
    Seq<char>,
    DataView,
>
    decreases steps.len(),
{
    if steps.len() == 0 {
        s
    } else {
        effect(apply_all(s, steps.drop_last()), steps.last())
    }
}

/// A group's transaction is committed only in a run that writes and only
/// when every write it issued succeeded.
pub open spec fn commits(mode: Mode, results: Seq<bool>) -> bool {
    mode != Mode::Audit && forall|i: int| 0 <= i < results.len() ==> results[i]
}

/// What a container durably holds once its group is done: every step, when
/// the transaction is committed; nothing of them, when it is discarded.
pub open spec fn durable(
    s: Map<Seq<char>, DataView>,
    steps: Seq<StepView>,
    mode: Mode,
    results: Seq<bool>,
) -> Map<Seq<char>, DataView> {
    if commits(mode, results) {
        apply_all(s, steps)
    } else {
        s
    }
}

/// The life of a container group's transaction.
#[derive(Clone, Copy, Debug, PartialEq, Eq, Structural)]
pub enum TxnState {
    /// Acquired; nothing written yet.
    Open,
    /// Writes issued, none durable yet.
    Populated,
    /// Every write made durable.
    Committed,
    /// Discarded; none of the writes took effect.
    Aborted,
}

/// The coordinator of one container group's transaction: it records the
/// result of each write issued and decides at the end whether to commit.
pub struct GroupTxn {
    mode: Mode,
    state: TxnState,
    results: Vec<bool>,
}

/// The mathematical form of a [`GroupTxn`].
pub ghost struct TxnView {
    pub mode: Mode,
    pub state: TxnState,
    pub results: Seq<bool>,
}

impl View for GroupTxn {
    type V = TxnView;

    closed spec fn view(&self) -> TxnView {
        TxnView { mode: self.mode, state: self.state, results: self.results@ }
    }
}

impl GroupTxn {
    /// A transaction acquired for a run in the given mode.
    pub fn open(mode: Mode) -> (r: GroupTxn)
        ensures
            r@ == (TxnView { mode, state: TxnState::Open, results: Seq::empty() }),
    {
        GroupTxn { mode, state: TxnState::Open, results: Vec::new() }
    }

    /// Records the result of a write issued against the transaction.
    pub fn record(&mut self, ok: bool)
        requires
            old(self)@.state == TxnState::Open || old(self)@.state == TxnState::Populated,
        ensures
            final(self)@ == (TxnView {
                mode: old(self)@.mode,
                state: TxnState::Populated,
                results: old(self)@.results.push(ok),
            }),
    {
        self.results.push(ok);
        self.state = TxnState::Populated;
    }

    /// The current state.
    pub fn state(&self) -> (r: TxnState)
        ensures
            r == self@.state,
    {
        self.state
    }

    /// Ends the transaction: returns whether it is committed.
    pub fn finish(&mut self) -> (commit: bool)
        requires
            old(self)@.state == TxnState::Open || old(self)@.state == TxnState::Populated,
        ensures
            commit == commits(old(self)@.mode, old(self)@.results),
            final(self)@ == (TxnView {
                mode: old(self)@.mode,
                state: if commit {
                    TxnState::Committed
                } else {
                    TxnState::Aborted
                },
                results: old(self)@.results,
            }),
    {
        let mut all_ok = true;
        let mut i: usize = 0;
        while i < self.results.len()
            invariant
                i <= self.results@.len(),
                all_ok == forall|j: int| 0 <= j < i ==> self.results@[j],
            decreases self.results@.len() - i,
        {
            all_ok = all_ok && self.results[i];
            i = i + 1;
        }
        let commit = self.mode != Mode::Audit && all_ok;
        self.state = if commit {
            TxnState::Committed
        } else {
            TxnState::Aborted
        };
        commit
    }
}

} // verus!
