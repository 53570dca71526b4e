use vstd::prelude::*;

use crate::descriptor::{RegTweaks, Setting, SettingView};
use crate::transaction::commits;
use crate::value::{describe_spec, duplicate_opt, observed_spec, opt_view, DataView, RegData};

verus! {

/// How the value a store holds compares with the value a setting asks for.
#[derive(Clone, Copy, Debug, PartialEq, Eq, Structural)]
pub enum Outcome {
    /// The store holds the desired value.
    Correct,
    /// The store holds no value under the key.
    Missing,
    /// The store holds another value.
    Wrong,
}

/// What a run does with the settings it reads.
#[derive(Clone, Copy, Debug, PartialEq, Eq, Structural)]
pub enum Mode {
    /// Read and report only.
    Audit,
    /// Write the desired value where it is missing or wrong.
    Apply,
    /// Write the default value, or remove the value where none is known.
    Restore,
}

/// The mode of a run from its two switches: nothing is written unless
/// writing is asked for; with writing, `restore` brings back the defaults
/// and otherwise the desired values are applied.
pub fn mode_for(write_settings: bool, restore: bool) -> (r: Mode)
    ensures
        !write_settings ==> r == Mode::Audit,
        write_settings && restore ==> r == Mode::Restore,
        write_settings && !restore ==> r == Mode::Apply,
        !write_settings ==> forall|results: Seq<bool>| !#[trigger] commits(r, results),
{
    if !write_settings {
        Mode::Audit
    } else if restore {
        Mode::Restore
    } else {
        Mode::Apply
    }
}

/// What is done to one value of a store.
pub enum Action {
    Keep,
    Write(RegData),
    Delete,
}

/// The mathematical form of an [`Action`].
pub ghost enum ActionView {
    Keep,
    Write(DataView),
    Delete,
}

impl View for Action {
    type V = ActionView;

    open spec fn view(&self) -> ActionView {
        match self {
            Action::Keep => ActionView::Keep,
            Action::Write(v) => ActionView::Write(v@),
            Action::Delete => ActionView::Delete,
        }
    }
}

/// The evaluation of one setting: its key, how it compared, what was read,
/// and what is to be done.
pub struct Step {
    pub key: String,
    pub outcome: Outcome,
    pub current: Option<RegData>,
    pub action: Action,
}

/// The mathematical form of a [`Step`].
pub ghost struct StepView {
    pub key: Seq<char>,
    pub outcome: Outcome,
    pub current: Option<DataView>,
    pub action: ActionView,
}

impl View for Step {
    type V = StepView;

    open spec fn view(&self) -> StepView {
        StepView {
            key: self.key@,
            outcome: self.outcome,
            current: opt_view(self.current),
            action: self.action@,
        }
    }
}

/// Exact classification: absent is `Missing`, equal is `Correct`, any
/// other value is `Wrong`.
pub open spec fn outcome_of(current: Option<DataView>, desired: DataView) -> Outcome {
    match current {
        None => Outcome::Missing,
        Some(c) => if c == desired {
            Outcome::Correct
        } else {
            Outcome::Wrong
        },
    }
}

/// The action a mode takes on a setting with the given outcome.
pub open spec fn action_of(mode: Mode, outcome: Outcome, s: SettingView) -> ActionView {
    match mode {
        Mode::Audit => ActionView::Keep,
        Mode::Apply => if outcome == Outcome::Correct {
            ActionView::Keep
        } else {
            ActionView::Write(s.desired)
        },
        Mode::Restore => match s.default {
            Some(d) => ActionView::Write(d),
            None => ActionView::Delete,
        },
    }
}

/// The evaluation of one setting against the value read for it.
pub open spec fn step_of(s: SettingView, current: Option<DataView>, mode: Mode) -> StepView {
    StepView {
        key: s.key,
        outcome: outcome_of(current, s.desired),
        current,
        action: action_of(mode, outcome_of(current, s.desired), s),
    }
}

/// The evaluation of a container's settings, in order, against the values
/// read for them.
pub open spec fn plan_spec(
    settings: Seq<SettingView>,
    currents: Seq<Option<DataView>>,
    mode: Mode,
) -> Seq<StepView> {
    Seq::new(settings.len(), |i: int| step_of(settings[i], currents[i], mode))
}

/// The views of a list of steps.
pub open spec fn steps_view(steps: Seq<Step>) -> Seq<StepView> {
    steps.map_values(|st: Step| st@)
}

/// The views of a list of values read.
pub open spec fn currents_view(currents: Seq<Option<RegData>>) -> Seq<Option<DataView>> {
    currents.map_values(|o: Option<RegData>| opt_view(o))
}

/// Compares the value read with the desired one.
pub fn classify(current: &Option<RegData>, desired: &RegData) -> (r: Outcome)
    ensures
        r == outcome_of(opt_view(*current), desired@),
{
    match current {
        None => Outcome::Missing,
        Some(c) => if c.equals(desired) {
            Outcome::Correct
        } else {
            Outcome::Wrong
        },
    }
}

/// Evaluates one setting against the value read for it.
pub fn plan_setting(setting: &Setting, current: &Option<RegData>, mode: Mode) -> (r: Step)
    ensures
        r@ == step_of(setting@, opt_view(*current), mode),
{
    let outcome = classify(current, &setting.desired);
    let action = match mode {
        Mode::Audit => Action::Keep,
        Mode::Apply => if outcome == Outcome::Correct {
            Action::Keep
        } else {
            Action::Write(setting.desired.duplicate())
        },
        Mode::Restore => match &setting.default {
            Some(d) => Action::Write(d.duplicate()),
            None => Action::Delete,
        },
    };
    Step { key: setting.key.clone(), outcome, current: duplicate_opt(current), action }
}

/// Evaluates every setting of a container, in order, against the values
/// read for them (one per setting).
pub fn plan_group(group: &RegTweaks, currents: &Vec<Option<RegData>>, mode: Mode) -> (r: Vec<Step>)
    requires
        currents@.len() == group.data@.len(),
    ensures
        steps_view(r@) == plan_spec(group@.settings, currents_view(currents@), mode),
{
    let mut steps: Vec<Step> = Vec::new();
    let mut i: usize = 0;
    while i < group.data.len()
        invariant
            currents@.len() == group.data@.len(),
            i <= group.data@.len(),
            steps@.len() == i,
            forall|j: int|
                0 <= j < i ==> (#[trigger] steps@[j])@ == step_of(
                    group.data@[j]@,
                    opt_view(currents@[j]),
                    mode,
                ),
        decreases group.data@.len() - i,
    {
        let step = plan_setting(&group.data[i], &currents[i], mode);
        steps.push(step);
        i = i + 1;
    }
    assert(steps_view(steps@) =~= plan_spec(group@.settings, currents_view(currents@), mode));
    steps
}

/// The status line of an evaluated setting: its place, the desired value
/// and, where it differs, the value found (shown bare, without its kind).
pub open spec fn status_spec(
    container: Seq<char>,
    key: Seq<char>,
    desired: DataView,
    outcome: Outcome,
    current: Option<DataView>,
) -> Seq<char> {
    let place = container + "\\"@ + key + " = "@ + describe_spec(desired);
    match outcome {
        Outcome::Correct => "correct setting: "@ + place,
        Outcome::Missing => "setting missing: "@ + place,
        Outcome::Wrong => match current {
            Some(c) => "wrong setting: "@ + place + " (your value: "@ + observed_spec(c) + ")"@,
            None => "wrong setting: "@ + place,
        },
    }
}

/// The status line of a setting evaluated in a container.
pub fn status_line(container: &String, setting: &Setting, step: &Step) -> (r: String)
    ensures
        r@ == status_spec(container@, step@.key, setting@.desired, step.outcome, step@.current),
{
    let mut place = container.clone();
    place.append("\\");
    place.append(step.key.as_str());
    place.append(" = ");
    place.append(setting.desired.describe().as_str());
    match step.outcome {
        Outcome::Correct => String::from_str("correct setting: ").concat(place.as_str()),
        Outcome::Missing => String::from_str("setting missing: ").concat(place.as_str()),
        Outcome::Wrong => {
            let mut line = String::from_str("wrong setting: ").concat(place.as_str());
            match &step.current {
                Some(c) => {
                    line.append(" (your value: ");
                    line.append(c.observed().as_str());
                    line.append(")");
                },
                None => {},
            }
            line
        },
    }
}

/// The line that reports an action carried out in a container; a kept
/// value has none.
pub open spec fn action_spec(container: Seq<char>, key: Seq<char>, action: ActionView) -> Seq<
    char,
> {
    match action {
        ActionView::Keep => Seq::empty(),
        ActionView::Write(v) => "write reg key: "@ + container + "\\"@ + key + " = "@
            + describe_spec(v),
        ActionView::Delete => "deleted key: "@ + container + "\\"@ + key,
    }
}

/// The line that reports an action carried out in a container.
pub fn action_line(container: &String, step: &Step) -> (r: String)
    ensures
        r@ == action_spec(container@, step@.key, step@.action),
{
    match &step.action {
        Action::Keep => String::new(),
        Action::Write(v) => {
            let mut line = String::from_str("write reg key: ").concat(container.as_str());
            line.append("\\");
            line.append(step.key.as_str());
            line.append(" = ");
            line.append(v.describe().as_str());
            line
        },
        Action::Delete => {
            let mut line = String::from_str("deleted key: ").concat(container.as_str());
            line.append("\\");
            line.append(step.key.as_str());
            line
        },
    }
}

} // verus!
