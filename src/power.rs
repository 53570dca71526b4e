use vstd::prelude::*;

use crate::descriptor::Setting;
use crate::reconcile::{outcome_of, status_line, status_spec, Action, Outcome, Step};
use crate::text::{append_decimal, decimal};
use crate::value::{DataView, RegData};

verus! {

/// One power setting and the index it should be set to.
pub struct SettingGuid {
    pub path: String,
    pub data: u32,
}

/// A subgroup of power settings.
pub struct SubGuid {
    pub path: String,
    pub data: Vec<SettingGuid>,
}

/// The power-plan catalogue: a scheme (the active one where none is
/// named) and its subgroups of settings.
pub struct PowerPlan {
    pub scheme: Option<String>,
    pub data: Vec<SubGuid>,
}

/// The evaluation of one power setting.
pub struct PowerStep {
    pub setting: String,
    pub index: u32,
    pub outcome: Outcome,
    pub current: Option<u32>,
    /// Whether the setting is to be written.
    pub set: bool,
}

/// The mathematical form of a [`PowerStep`].
pub ghost struct PowerStepView {
    pub setting: Seq<char>,
    pub index: u32,
    pub outcome: Outcome,
    pub current: Option<u32>,
    pub set: bool,
}

impl View for PowerStep {
    type V = PowerStepView;

    open spec fn view(&self) -> PowerStepView {
        PowerStepView {
            setting: self.setting@,
            index: self.index,
            outcome: self.outcome,
            current: self.current,
            set: self.set,
        }
    }
}

/// A power index read, as a store value.
pub open spec fn index_view(current: Option<u32>) -> Option<DataView> {
    match current {
        Some(n) => Some(DataView::Dword(n)),
        None => None,
    }
}

/// The evaluation of one power setting: the same three-way comparison as
/// any other setting, and a write where the run writes and it is not
/// `Correct`.
pub open spec fn power_step_of(setting: Seq<char>, index: u32, current: Option<u32>, write: bool) -> PowerStepView {
    let outcome = outcome_of(index_view(current), DataView::Dword(index));
    PowerStepView { setting, index, outcome, current, set: write && outcome != Outcome::Correct }
}

/// The evaluation of every setting of a subgroup, in order.
pub open spec fn power_plan_spec(sub: Seq<SettingGuid>, currents: Seq<Option<u32>>, write: bool) -> Seq<PowerStepView> {
    Seq::new(sub.len(), |i: int| power_step_of(sub[i].path@, sub[i].data, currents[i], write))
}

/// Evaluates the settings of a subgroup against the indices read for them
/// (one per setting; `None` where the setting is not there).
pub fn plan_subgroup(sub: &SubGuid, currents: &Vec<Option<u32>>, write: bool) -> (r: Vec<PowerStep>)
    requires
        currents@.len() == sub.data@.len(),
    ensures
        r@.map_values(|st: PowerStep| st@) == power_plan_spec(sub.data@, currents@, write),
{
    let mut steps: Vec<PowerStep> = Vec::new();
    let mut i: usize = 0;
    while i < sub.data.len()
        invariant
            currents@.len() == sub.data@.len(),
            i <= sub.data@.len(),
            steps@.len() == i,
            forall|j: int| 0 <= j < i ==> (#[trigger] steps@[j])@ == power_step_of(sub.data@[j].path@, sub.data@[j].data, currents@[j], write),
        decreases sub.data@.len() - i,
    {
        let setting = &sub.data[i];
        let current = currents[i];
        let outcome = match current {
            None => Outcome::Missing,
            Some(n) => if n == setting.data {
                Outcome::Correct
            } else {
                Outcome::Wrong
            },
        };
        let set = write && outcome != Outcome::Correct;
        steps.push(PowerStep { setting: setting.path.clone(), index: setting.data, outcome, current, set });
        i = i + 1;
    }
    assert(steps@.map_values(|st: PowerStep| st@) =~= power_plan_spec(sub.data@, currents@, write));
    steps
}

/// The arguments of the power configuration command that sets an index
/// on mains power.
pub open spec fn set_args_spec(scheme: Seq<char>, sub: Seq<char>, setting: Seq<char>, index: u32) -> Seq<Seq<char>> {
    seq!["-SetAcValueIndex"@, scheme, sub, setting, decimal(index as nat)]
}

/// The arguments that set `index` for a setting of a scheme's subgroup.
pub fn set_args(scheme: &String, sub: &String, setting: &String, index: u32) -> (r: Vec<String>)
    ensures
        r@.map_values(|a: String| a@) == set_args_spec(scheme@, sub@, setting@, index),
{
    let mut number = String::new();
    append_decimal(&mut number, index);
    let r = vec![String::from_str("-SetAcValueIndex"), scheme.clone(), sub.clone(), setting.clone(), number];
    assert(r@.map_values(|a: String| a@) =~= set_args_spec(scheme@, sub@, setting@, index));
    r
}

/// The status line of an evaluated power setting, whose index is the value
/// `ACSettingIndex` of the setting's container.
pub fn power_status_line(container: &String, step: &PowerStep) -> (r: String)
    ensures
        r@ == status_spec(
            container@,
            "ACSettingIndex"@,
            DataView::Dword(step.index),
            step.outcome,
            index_view(step.current),
        ),
{
    let setting = Setting {
        key: String::from_str("ACSettingIndex"),
        desired: RegData::Dword(step.index),
        default: None,
    };
    let as_step = Step {
        key: String::from_str("ACSettingIndex"),
        outcome: step.outcome,
        current: match step.current {
            Some(n) => Some(RegData::Dword(n)),
            None => None,
        },
        action: Action::Keep,
    };
    status_line(container, &setting, &as_step)
}

/// The power settings of the catalogue's processor subgroup, in order: each
/// setting's GUID and the index it should be set to.
pub open spec fn processor_catalogue() -> Seq<(Seq<char>, u32)> {
    seq![
        ("be337238-0d82-4146-a960-4f3749d470c7"@, 0),
        ("06cadf0e-64ed-448a-8927-ce7bf90eb35d"@, 1),
        ("06cadf0e-64ed-448a-8927-ce7bf90eb35e"@, 1),
        ("984cf492-3bed-4488-a8f9-4286c97bf5aa"@, 1),
        ("984cf492-3bed-4488-a8f9-4286c97bf5ab"@, 1),
        ("12a0ab44-fe28-4fa9-b3bd-4b64f44960a6"@, 100),
        ("12a0ab44-fe28-4fa9-b3bd-4b64f44960a7"@, 100),
        ("619b7505-003b-4e82-b7a6-4dd29c300971"@, 0),
        ("619b7505-003b-4e82-b7a6-4dd29c300972"@, 0),
        ("8baa4a8a-14c6-4451-8e8b-14bdbd197537"@, 0),
        ("4e4450b3-6179-4e91-b8f1-5bb9938f81a1"@, 0),
        ("bc5038f7-23e0-4960-96da-33abaf5935ec"@, 100),
        ("bc5038f7-23e0-4960-96da-33abaf5935ed"@, 100),
        ("893dee8e-2bef-41e0-89c6-b55d0929964c"@, 100),
        ("893dee8e-2bef-41e0-89c6-b55d0929964d"@, 100),
        ("1facfc65-a930-4bc5-9f38-504ec097bbc0"@, 100),
        ("fddc842b-8364-4edc-94cf-c17f60de1c80"@, 100),
        ("ea062031-0e34-4ff1-9b6d-eb1059334028"@, 100),
        ("ea062031-0e34-4ff1-9b6d-eb1059334029"@, 100),
        ("0cc5b647-c1df-4637-891a-dec35c318583"@, 100),
        ("0cc5b647-c1df-4637-891a-dec35c318584"@, 100),
        ("e0007330-f589-42ed-a401-5ddb10e785d3"@, 0),
        ("4bdaf4e9-d103-46d7-a5f0-6280121616ef"@, 1),
        ("2ddd5a84-5a71-437e-912a-db0b8c788732"@, 1),
        ("dfd10d17-d5eb-45dd-877a-9a34ddd15c82"@, 100),
        ("f735a673-2066-4f80-a0c5-ddee0cf1bf5d"@, 1),
        ("2430ab6f-a520-44a2-9601-f7f23b5134b1"@, 1),
        ("616cdaa5-695e-4545-97ad-97dc2d1bdd88"@, 1),
        ("616cdaa5-695e-4545-97ad-97dc2d1bdd89"@, 1),
        ("36687f9e-e3a5-4dbf-b1dc-15eb381c6863"@, 0),
    ]
}

/// The views of a subgroup's settings: GUID and index.
pub open spec fn settings_view(s: Seq<SettingGuid>) -> Seq<(Seq<char>, u32)> {
    s.map_values(|x: SettingGuid| (x.path@, x.data))
}

/// No two settings of the list name the same GUID.
pub open spec fn guids_distinct(s: Seq<(Seq<char>, u32)>) -> bool {
    forall|i: int, j: int| 0 <= i < j < s.len() ==> #[trigger] s[i].0 != #[trigger] s[j].0
}

/// The processor settings name distinct GUIDs, and every index is 0
/// (off), 1, or 100 (percent).
pub proof fn lemma_processor_catalogue()
    ensures
        guids_distinct(processor_catalogue()),
        forall|i: int|
            0 <= i < processor_catalogue().len() ==> {
                let d = #[trigger] processor_catalogue()[i].1;
                d == 0 || d == 1 || d == 100
            },
{
    let s = processor_catalogue();
    reveal_strlit("be337238-0d82-4146-a960-4f3749d470c7");
    reveal_strlit("06cadf0e-64ed-448a-8927-ce7bf90eb35d");
    reveal_strlit("06cadf0e-64ed-448a-8927-ce7bf90eb35e");
    reveal_strlit("984cf492-3bed-4488-a8f9-4286c97bf5aa");
    reveal_strlit("984cf492-3bed-4488-a8f9-4286c97bf5ab");
    reveal_strlit("12a0ab44-fe28-4fa9-b3bd-4b64f44960a6");
    reveal_strlit("12a0ab44-fe28-4fa9-b3bd-4b64f44960a7");
    reveal_strlit("619b7505-003b-4e82-b7a6-4dd29c300971");
    reveal_strlit("619b7505-003b-4e82-b7a6-4dd29c300972");
    reveal_strlit("8baa4a8a-14c6-4451-8e8b-14bdbd197537");
    reveal_strlit("4e4450b3-6179-4e91-b8f1-5bb9938f81a1");
    reveal_strlit("bc5038f7-23e0-4960-96da-33abaf5935ec");
    reveal_strlit("bc5038f7-23e0-4960-96da-33abaf5935ed");
    reveal_strlit("893dee8e-2bef-41e0-89c6-b55d0929964c");
    reveal_strlit("893dee8e-2bef-41e0-89c6-b55d0929964d");
    reveal_strlit("1facfc65-a930-4bc5-9f38-504ec097bbc0");
    reveal_strlit("fddc842b-8364-4edc-94cf-c17f60de1c80");
    reveal_strlit("ea062031-0e34-4ff1-9b6d-eb1059334028");
    reveal_strlit("ea062031-0e34-4ff1-9b6d-eb1059334029");
    reveal_strlit("0cc5b647-c1df-4637-891a-dec35c318583");
    reveal_strlit("0cc5b647-c1df-4637-891a-dec35c318584");
    reveal_strlit("e0007330-f589-42ed-a401-5ddb10e785d3");
    reveal_strlit("4bdaf4e9-d103-46d7-a5f0-6280121616ef");
    reveal_strlit("2ddd5a84-5a71-437e-912a-db0b8c788732");
    reveal_strlit("dfd10d17-d5eb-45dd-877a-9a34ddd15c82");
    reveal_strlit("f735a673-2066-4f80-a0c5-ddee0cf1bf5d");
    reveal_strlit("2430ab6f-a520-44a2-9601-f7f23b5134b1");
    reveal_strlit("616cdaa5-695e-4545-97ad-97dc2d1bdd88");
    reveal_strlit("616cdaa5-695e-4545-97ad-97dc2d1bdd89");
    reveal_strlit("36687f9e-e3a5-4dbf-b1dc-15eb381c6863");
    assert(s[0].0 == "be337238-0d82-4146-a960-4f3749d470c7"@);
    assert(s[1].0 == "06cadf0e-64ed-448a-8927-ce7bf90eb35d"@);
    assert(s[2].0 == "06cadf0e-64ed-448a-8927-ce7bf90eb35e"@);
    assert(s[3].0 == "984cf492-3bed-4488-a8f9-4286c97bf5aa"@);
    assert(s[4].0 == "984cf492-3bed-4488-a8f9-4286c97bf5ab"@);
    assert(s[5].0 == "12a0ab44-fe28-4fa9-b3bd-4b64f44960a6"@);
    assert(s[6].0 == "12a0ab44-fe28-4fa9-b3bd-4b64f44960a7"@);
    assert(s[7].0 == "619b7505-003b-4e82-b7a6-4dd29c300971"@);
    assert(s[8].0 == "619b7505-003b-4e82-b7a6-4dd29c300972"@);
    assert(s[9].0 == "8baa4a8a-14c6-4451-8e8b-14bdbd197537"@);
    assert(s[10].0 == "4e4450b3-6179-4e91-b8f1-5bb9938f81a1"@);
    assert(s[11].0 == "bc5038f7-23e0-4960-96da-33abaf5935ec"@);
    assert(s[12].0 == "bc5038f7-23e0-4960-96da-33abaf5935ed"@);
    assert(s[13].0 == "893dee8e-2bef-41e0-89c6-b55d0929964c"@);
    assert(s[14].0 == "893dee8e-2bef-41e0-89c6-b55d0929964d"@);
    assert(s[15].0 == "1facfc65-a930-4bc5-9f38-504ec097bbc0"@);
    assert(s[16].0 == "fddc842b-8364-4edc-94cf-c17f60de1c80"@);
    assert(s[17].0 == "ea062031-0e34-4ff1-9b6d-eb1059334028"@);
    assert(s[18].0 == "ea062031-0e34-4ff1-9b6d-eb1059334029"@);
    assert(s[19].0 == "0cc5b647-c1df-4637-891a-dec35c318583"@);
    assert(s[20].0 == "0cc5b647-c1df-4637-891a-dec35c318584"@);
    assert(s[21].0 == "e0007330-f589-42ed-a401-5ddb10e785d3"@);
    assert(s[22].0 == "4bdaf4e9-d103-46d7-a5f0-6280121616ef"@);
    assert(s[23].0 == "2ddd5a84-5a71-437e-912a-db0b8c788732"@);
    assert(s[24].0 == "dfd10d17-d5eb-45dd-877a-9a34ddd15c82"@);
    assert(s[25].0 == "f735a673-2066-4f80-a0c5-ddee0cf1bf5d"@);
    assert(s[26].0 == "2430ab6f-a520-44a2-9601-f7f23b5134b1"@);
    assert(s[27].0 == "616cdaa5-695e-4545-97ad-97dc2d1bdd88"@);
    assert(s[28].0 == "616cdaa5-695e-4545-97ad-97dc2d1bdd89"@);
    assert(s[29].0 == "36687f9e-e3a5-4dbf-b1dc-15eb381c6863"@);
    assert(s[0].0[0] != s[1].0[0]);
    assert(s[0].0[0] != s[2].0[0]);
    assert(s[0].0[0] != s[3].0[0]);
    assert(s[0].0[0] != s[4].0[0]);
    assert(s[0].0[0] != s[5].0[0]);
    assert(s[0].0[0] != s[6].0[0]);
    assert(s[0].0[0] != s[7].0[0]);
    assert(s[0].0[0] != s[8].0[0]);
    assert(s[0].0[0] != s[9].0[0]);
    assert(s[0].0[0] != s[10].0[0]);
    assert(s[0].0[1] != s[11].0[1]);
    assert(s[0].0[1] != s[12].0[1]);
    assert(s[0].0[0] != s[13].0[0]);
    assert(s[0].0[0] != s[14].0[0]);
    assert(s[0].0[0] != s[15].0[0]);
    assert(s[0].0[0] != s[16].0[0]);
    assert(s[0].0[0] != s[17].0[0]);
    assert(s[0].0[0] != s[18].0[0]);
    assert(s[0].0[0] != s[19].0[0]);
    assert(s[0].0[0] != s[20].0[0]);
    assert(s[0].0[0] != s[21].0[0]);
    assert(s[0].0[0] != s[22].0[0]);
    assert(s[0].0[0] != s[23].0[0]);
    assert(s[0].0[0] != s[24].0[0]);
    assert(s[0].0[0] != s[25].0[0]);
    assert(s[0].0[0] != s[26].0[0]);
    assert(s[0].0[0] != s[27].0[0]);
    assert(s[0].0[0] != s[28].0[0]);
    assert(s[0].0[0] != s[29].0[0]);
    assert(s[1].0[35] != s[2].0[35]);
    assert(s[1].0[0] != s[3].0[0]);
    assert(s[1].0[0] != s[4].0[0]);
    assert(s[1].0[0] != s[5].0[0]);
    assert(s[1].0[0] != s[6].0[0]);
    assert(s[1].0[0] != s[7].0[0]);
    assert(s[1].0[0] != s[8].0[0]);
    assert(s[1].0[0] != s[9].0[0]);
    assert(s[1].0[0] != s[10].0[0]);
    assert(s[1].0[0] != s[11].0[0]);
    assert(s[1].0[0] != s[12].0[0]);
    assert(s[1].0[0] != s[13].0[0]);
    assert(s[1].0[0] != s[14].0[0]);
    assert(s[1].0[0] != s[15].0[0]);
    assert(s[1].0[0] != s[16].0[0]);
    assert(s[1].0[0] != s[17].0[0]);
    assert(s[1].0[0] != s[18].0[0]);
    assert(s[1].0[1] != s[19].0[1]);
    assert(s[1].0[1] != s[20].0[1]);
    assert(s[1].0[0] != s[21].0[0]);
    assert(s[1].0[0] != s[22].0[0]);
    assert(s[1].0[0] != s[23].0[0]);
    assert(s[1].0[0] != s[24].0[0]);
    assert(s[1].0[0] != s[25].0[0]);
    assert(s[1].0[0] != s[26].0[0]);
    assert(s[1].0[0] != s[27].0[0]);
    assert(s[1].0[0] != s[28].0[0]);
    assert(s[1].0[0] != s[29].0[0]);
    assert(s[2].0[0] != s[3].0[0]);
    assert(s[2].0[0] != s[4].0[0]);
    assert(s[2].0[0] != s[5].0[0]);
    assert(s[2].0[0] != s[6].0[0]);
    assert(s[2].0[0] != s[7].0[0]);
    assert(s[2].0[0] != s[8].0[0]);
    assert(s[2].0[0] != s[9].0[0]);
    assert(s[2].0[0] != s[10].0[0]);
    assert(s[2].0[0] != s[11].0[0]);
    assert(s[2].0[0] != s[12].0[0]);
    assert(s[2].0[0] != s[13].0[0]);
    assert(s[2].0[0] != s[14].0[0]);
    assert(s[2].0[0] != s[15].0[0]);
    assert(s[2].0[0] != s[16].0[0]);
    assert(s[2].0[0] != s[17].0[0]);
    assert(s[2].0[0] != s[18].0[0]);
    assert(s[2].0[1] != s[19].0[1]);
    assert(s[2].0[1] != s[20].0[1]);
    assert(s[2].0[0] != s[21].0[0]);
    assert(s[2].0[0] != s[22].0[0]);
    assert(s[2].0[0] != s[23].0[0]);
    assert(s[2].0[0] != s[24].0[0]);
    assert(s[2].0[0] != s[25].0[0]);
    assert(s[2].0[0] != s[26].0[0]);
    assert(s[2].0[0] != s[27].0[0]);
    assert(s[2].0[0] != s[28].0[0]);
    assert(s[2].0[0] != s[29].0[0]);
    assert(s[3].0[35] != s[4].0[35]);
    assert(s[3].0[0] != s[5].0[0]);
    assert(s[3].0[0] != s[6].0[0]);
    assert(s[3].0[0] != s[7].0[0]);
    assert(s[3].0[0] != s[8].0[0]);
    assert(s[3].0[0] != s[9].0[0]);
    assert(s[3].0[0] != s[10].0[0]);
    assert(s[3].0[0] != s[11].0[0]);
    assert(s[3].0[0] != s[12].0[0]);
    assert(s[3].0[0] != s[13].0[0]);
    assert(s[3].0[0] != s[14].0[0]);
    assert(s[3].0[0] != s[15].0[0]);
    assert(s[3].0[0] != s[16].0[0]);
    assert(s[3].0[0] != s[17].0[0]);
    assert(s[3].0[0] != s[18].0[0]);
    assert(s[3].0[0] != s[19].0[0]);
    assert(s[3].0[0] != s[20].0[0]);
    assert(s[3].0[0] != s[21].0[0]);
    assert(s[3].0[0] != s[22].0[0]);
    assert(s[3].0[0] != s[23].0[0]);
    assert(s[3].0[0] != s[24].0[0]);
    assert(s[3].0[0] != s[25].0[0]);
    assert(s[3].0[0] != s[26].0[0]);
    assert(s[3].0[0] != s[27].0[0]);
    assert(s[3].0[0] != s[28].0[0]);
    assert(s[3].0[0] != s[29].0[0]);
    assert(s[4].0[0] != s[5].0[0]);
    assert(s[4].0[0] != s[6].0[0]);
    assert(s[4].0[0] != s[7].0[0]);
    assert(s[4].0[0] != s[8].0[0]);
    assert(s[4].0[0] != s[9].0[0]);
    assert(s[4].0[0] != s[10].0[0]);
    assert(s[4].0[0] != s[11].0[0]);
    assert(s[4].0[0] != s[12].0[0]);
    assert(s[4].0[0] != s[13].0[0]);
    assert(s[4].0[0] != s[14].0[0]);
    assert(s[4].0[0] != s[15].0[0]);
    assert(s[4].0[0] != s[16].0[0]);
    assert(s[4].0[0] != s[17].0[0]);
    assert(s[4].0[0] != s[18].0[0]);
    assert(s[4].0[0] != s[19].0[0]);
    assert(s[4].0[0] != s[20].0[0]);
    assert(s[4].0[0] != s[21].0[0]);
    assert(s[4].0[0] != s[22].0[0]);
    assert(s[4].0[0] != s[23].0[0]);
    assert(s[4].0[0] != s[24].0[0]);
    assert(s[4].0[0] != s[25].0[0]);
    assert(s[4].0[0] != s[26].0[0]);
    assert(s[4].0[0] != s[27].0[0]);
    assert(s[4].0[0] != s[28].0[0]);
    assert(s[4].0[0] != s[29].0[0]);
    assert(s[5].0[35] != s[6].0[35]);
    assert(s[5].0[0] != s[7].0[0]);
    assert(s[5].0[0] != s[8].0[0]);
    assert(s[5].0[0] != s[9].0[0]);
    assert(s[5].0[0] != s[10].0[0]);
    assert(s[5].0[0] != s[11].0[0]);
    assert(s[5].0[0] != s[12].0[0]);
    assert(s[5].0[0] != s[13].0[0]);
    assert(s[5].0[0] != s[14].0[0]);
    assert(s[5].0[1] != s[15].0[1]);
    assert(s[5].0[0] != s[16].0[0]);
    assert(s[5].0[0] != s[17].0[0]);
    assert(s[5].0[0] != s[18].0[0]);
    assert(s[5].0[0] != s[19].0[0]);
    assert(s[5].0[0] != s[20].0[0]);
    assert(s[5].0[0] != s[21].0[0]);
    assert(s[5].0[0] != s[22].0[0]);
    assert(s[5].0[0] != s[23].0[0]);
    assert(s[5].0[0] != s[24].0[0]);
    assert(s[5].0[0] != s[25].0[0]);
    assert(s[5].0[0] != s[26].0[0]);
    assert(s[5].0[0] != s[27].0[0]);
    assert(s[5].0[0] != s[28].0[0]);
    assert(s[5].0[0] != s[29].0[0]);
    assert(s[6].0[0] != s[7].0[0]);
    assert(s[6].0[0] != s[8].0[0]);
    assert(s[6].0[0] != s[9].0[0]);
    assert(s[6].0[0] != s[10].0[0]);
    assert(s[6].0[0] != s[11].0[0]);
    assert(s[6].0[0] != s[12].0[0]);
    assert(s[6].0[0] != s[13].0[0]);
    assert(s[6].0[0] != s[14].0[0]);
    assert(s[6].0[1] != s[15].0[1]);
    assert(s[6].0[0] != s[16].0[0]);
    assert(s[6].0[0] != s[17].0[0]);
    assert(s[6].0[0] != s[18].0[0]);
    assert(s[6].0[0] != s[19].0[0]);
    assert(s[6].0[0] != s[20].0[0]);
    assert(s[6].0[0] != s[21].0[0]);
    assert(s[6].0[0] != s[22].0[0]);
    assert(s[6].0[0] != s[23].0[0]);
    assert(s[6].0[0] != s[24].0[0]);
    assert(s[6].0[0] != s[25].0[0]);
    assert(s[6].0[0] != s[26].0[0]);
    assert(s[6].0[0] != s[27].0[0]);
    assert(s[6].0[0] != s[28].0[0]);
    assert(s[6].0[0] != s[29].0[0]);
    assert(s[7].0[35] != s[8].0[35]);
    assert(s[7].0[0] != s[9].0[0]);
    assert(s[7].0[0] != s[10].0[0]);
    assert(s[7].0[0] != s[11].0[0]);
    assert(s[7].0[0] != s[12].0[0]);
    assert(s[7].0[0] != s[13].0[0]);
    assert(s[7].0[0] != s[14].0[0]);
    assert(s[7].0[0] != s[15].0[0]);
    assert(s[7].0[0] != s[16].0[0]);
    assert(s[7].0[0] != s[17].0[0]);
    assert(s[7].0[0] != s[18].0[0]);
    assert(s[7].0[0] != s[19].0[0]);
    assert(s[7].0[0] != s[20].0[0]);
    assert(s[7].0[0] != s[21].0[0]);
    assert(s[7].0[0] != s[22].0[0]);
    assert(s[7].0[0] != s[23].0[0]);
    assert(s[7].0[0] != s[24].0[0]);
    assert(s[7].0[0] != s[25].0[0]);
    assert(s[7].0[0] != s[26].0[0]);
    assert(s[7].0[2] != s[27].0[2]);
    assert(s[7].0[2] != s[28].0[2]);
    assert(s[7].0[0] != s[29].0[0]);
    assert(s[8].0[0] != s[9].0[0]);
    assert(s[8].0[0] != s[10].0[0]);
    assert(s[8].0[0] != s[11].0[0]);
    assert(s[8].0[0] != s[12].0[0]);
    assert(s[8].0[0] != s[13].0[0]);
    assert(s[8].0[0] != s[14].0[0]);
    assert(s[8].0[0] != s[15].0[0]);
    assert(s[8].0[0] != s[16].0[0]);
    assert(s[8].0[0] != s[17].0[0]);
    assert(s[8].0[0] != s[18].0[0]);
    assert(s[8].0[0] != s[19].0[0]);
    assert(s[8].0[0] != s[20].0[0]);
    assert(s[8].0[0] != s[21].0[0]);
    assert(s[8].0[0] != s[22].0[0]);
    assert(s[8].0[0] != s[23].0[0]);
    assert(s[8].0[0] != s[24].0[0]);
    assert(s[8].0[0] != s[25].0[0]);
    assert(s[8].0[0] != s[26].0[0]);
    assert(s[8].0[2] != s[27].0[2]);
    assert(s[8].0[2] != s[28].0[2]);
    assert(s[8].0[0] != s[29].0[0]);
    assert(s[9].0[0] != s[10].0[0]);
    assert(s[9].0[0] != s[11].0[0]);
    assert(s[9].0[0] != s[12].0[0]);
    assert(s[9].0[1] != s[13].0[1]);
    assert(s[9].0[1] != s[14].0[1]);
    assert(s[9].0[0] != s[15].0[0]);
    assert(s[9].0[0] != s[16].0[0]);
    assert(s[9].0[0] != s[17].0[0]);
    assert(s[9].0[0] != s[18].0[0]);
    assert(s[9].0[0] != s[19].0[0]);
    assert(s[9].0[0] != s[20].0[0]);
    assert(s[9].0[0] != s[21].0[0]);
    assert(s[9].0[0] != s[22].0[0]);
    assert(s[9].0[0] != s[23].0[0]);
    assert(s[9].0[0] != s[24].0[0]);
    assert(s[9].0[0] != s[25].0[0]);
    assert(s[9].0[0] != s[26].0[0]);
    assert(s[9].0[0] != s[27].0[0]);
    assert(s[9].0[0] != s[28].0[0]);
    assert(s[9].0[0] != s[29].0[0]);
    assert(s[10].0[0] != s[11].0[0]);
    assert(s[10].0[0] != s[12].0[0]);
    assert(s[10].0[0] != s[13].0[0]);
    assert(s[10].0[0] != s[14].0[0]);
    assert(s[10].0[0] != s[15].0[0]);
    assert(s[10].0[0] != s[16].0[0]);
    assert(s[10].0[0] != s[17].0[0]);
    assert(s[10].0[0] != s[18].0[0]);
    assert(s[10].0[0] != s[19].0[0]);
    assert(s[10].0[0] != s[20].0[0]);
    assert(s[10].0[0] != s[21].0[0]);
    assert(s[10].0[1] != s[22].0[1]);
    assert(s[10].0[0] != s[23].0[0]);
    assert(s[10].0[0] != s[24].0[0]);
    assert(s[10].0[0] != s[25].0[0]);
    assert(s[10].0[0] != s[26].0[0]);
    assert(s[10].0[0] != s[27].0[0]);
    assert(s[10].0[0] != s[28].0[0]);
    assert(s[10].0[0] != s[29].0[0]);
    assert(s[11].0[35] != s[12].0[35]);
    assert(s[11].0[0] != s[13].0[0]);
    assert(s[11].0[0] != s[14].0[0]);
    assert(s[11].0[0] != s[15].0[0]);
    assert(s[11].0[0] != s[16].0[0]);
    assert(s[11].0[0] != s[17].0[0]);
    assert(s[11].0[0] != s[18].0[0]);
    assert(s[11].0[0] != s[19].0[0]);
    assert(s[11].0[0] != s[20].0[0]);
    assert(s[11].0[0] != s[21].0[0]);
    assert(s[11].0[0] != s[22].0[0]);
    assert(s[11].0[0] != s[23].0[0]);
    assert(s[11].0[0] != s[24].0[0]);
    assert(s[11].0[0] != s[25].0[0]);
    assert(s[11].0[0] != s[26].0[0]);
    assert(s[11].0[0] != s[27].0[0]);
    assert(s[11].0[0] != s[28].0[0]);
    assert(s[11].0[0] != s[29].0[0]);
    assert(s[12].0[0] != s[13].0[0]);
    assert(s[12].0[0] != s[14].0[0]);
    assert(s[12].0[0] != s[15].0[0]);
    assert(s[12].0[0] != s[16].0[0]);
    assert(s[12].0[0] != s[17].0[0]);
    assert(s[12].0[0] != s[18].0[0]);
    assert(s[12].0[0] != s[19].0[0]);
    assert(s[12].0[0] != s[20].0[0]);
    assert(s[12].0[0] != s[21].0[0]);
    assert(s[12].0[0] != s[22].0[0]);
    assert(s[12].0[0] != s[23].0[0]);
    assert(s[12].0[0] != s[24].0[0]);
    assert(s[12].0[0] != s[25].0[0]);
    assert(s[12].0[0] != s[26].0[0]);
    assert(s[12].0[0] != s[27].0[0]);
    assert(s[12].0[0] != s[28].0[0]);
    assert(s[12].0[0] != s[29].0[0]);
    assert(s[13].0[35] != s[14].0[35]);
    assert(s[13].0[0] != s[15].0[0]);
    assert(s[13].0[0] != s[16].0[0]);
    assert(s[13].0[0] != s[17].0[0]);
    assert(s[13].0[0] != s[18].0[0]);
    assert(s[13].0[0] != s[19].0[0]);
    assert(s[13].0[0] != s[20].0[0]);
    assert(s[13].0[0] != s[21].0[0]);
    assert(s[13].0[0] != s[22].0[0]);
    assert(s[13].0[0] != s[23].0[0]);
    assert(s[13].0[0] != s[24].0[0]);
    assert(s[13].0[0] != s[25].0[0]);
    assert(s[13].0[0] != s[26].0[0]);
    assert(s[13].0[0] != s[27].0[0]);
    assert(s[13].0[0] != s[28].0[0]);
    assert(s[13].0[0] != s[29].0[0]);
    assert(s[14].0[0] != s[15].0[0]);
    assert(s[14].0[0] != s[16].0[0]);
    assert(s[14].0[0] != s[17].0[0]);
    assert(s[14].0[0] != s[18].0[0]);
    assert(s[14].0[0] != s[19].0[0]);
    assert(s[14].0[0] != s[20].0[0]);
    assert(s[14].0[0] != s[21].0[0]);
    assert(s[14].0[0] != s[22].0[0]);
    assert(s[14].0[0] != s[23].0[0]);
    assert(s[14].0[0] != s[24].0[0]);
    assert(s[14].0[0] != s[25].0[0]);
    assert(s[14].0[0] != s[26].0[0]);
    assert(s[14].0[0] != s[27].0[0]);
    assert(s[14].0[0] != s[28].0[0]);
    assert(s[14].0[0] != s[29].0[0]);
    assert(s[15].0[0] != s[16].0[0]);
    assert(s[15].0[0] != s[17].0[0]);
    assert(s[15].0[0] != s[18].0[0]);
    assert(s[15].0[0] != s[19].0[0]);
    assert(s[15].0[0] != s[20].0[0]);
    assert(s[15].0[0] != s[21].0[0]);
    assert(s[15].0[0] != s[22].0[0]);
    assert(s[15].0[0] != s[23].0[0]);
    assert(s[15].0[0] != s[24].0[0]);
    assert(s[15].0[0] != s[25].0[0]);
    assert(s[15].0[0] != s[26].0[0]);
    assert(s[15].0[0] != s[27].0[0]);
    assert(s[15].0[0] != s[28].0[0]);
    assert(s[15].0[0] != s[29].0[0]);
    assert(s[16].0[0] != s[17].0[0]);
    assert(s[16].0[0] != s[18].0[0]);
    assert(s[16].0[0] != s[19].0[0]);
    assert(s[16].0[0] != s[20].0[0]);
    assert(s[16].0[0] != s[21].0[0]);
    assert(s[16].0[0] != s[22].0[0]);
    assert(s[16].0[0] != s[23].0[0]);
    assert(s[16].0[0] != s[24].0[0]);
    assert(s[16].0[1] != s[25].0[1]);
    assert(s[16].0[0] != s[26].0[0]);
    assert(s[16].0[0] != s[27].0[0]);
    assert(s[16].0[0] != s[28].0[0]);
    assert(s[16].0[0] != s[29].0[0]);
    assert(s[17].0[35] != s[18].0[35]);
    assert(s[17].0[0] != s[19].0[0]);
    assert(s[17].0[0] != s[20].0[0]);
    assert(s[17].0[1] != s[21].0[1]);
    assert(s[17].0[0] != s[22].0[0]);
    assert(s[17].0[0] != s[23].0[0]);
    assert(s[17].0[0] != s[24].0[0]);
    assert(s[17].0[0] != s[25].0[0]);
    assert(s[17].0[0] != s[26].0[0]);
    assert(s[17].0[0] != s[27].0[0]);
    assert(s[17].0[0] != s[28].0[0]);
    assert(s[17].0[0] != s[29].0[0]);
    assert(s[18].0[0] != s[19].0[0]);
    assert(s[18].0[0] != s[20].0[0]);
    assert(s[18].0[1] != s[21].0[1]);
    assert(s[18].0[0] != s[22].0[0]);
    assert(s[18].0[0] != s[23].0[0]);
    assert(s[18].0[0] != s[24].0[0]);
    assert(s[18].0[0] != s[25].0[0]);
    assert(s[18].0[0] != s[26].0[0]);
    assert(s[18].0[0] != s[27].0[0]);
    assert(s[18].0[0] != s[28].0[0]);
    assert(s[18].0[0] != s[29].0[0]);
    assert(s[19].0[35] != s[20].0[35]);
    assert(s[19].0[0] != s[21].0[0]);
    assert(s[19].0[0] != s[22].0[0]);
    assert(s[19].0[0] != s[23].0[0]);
    assert(s[19].0[0] != s[24].0[0]);
    assert(s[19].0[0] != s[25].0[0]);
    assert(s[19].0[0] != s[26].0[0]);
    assert(s[19].0[0] != s[27].0[0]);
    assert(s[19].0[0] != s[28].0[0]);
    assert(s[19].0[0] != s[29].0[0]);
    assert(s[20].0[0] != s[21].0[0]);
    assert(s[20].0[0] != s[22].0[0]);
    assert(s[20].0[0] != s[23].0[0]);
    assert(s[20].0[0] != s[24].0[0]);
    assert(s[20].0[0] != s[25].0[0]);
    assert(s[20].0[0] != s[26].0[0]);
    assert(s[20].0[0] != s[27].0[0]);
    assert(s[20].0[0] != s[28].0[0]);
    assert(s[20].0[0] != s[29].0[0]);
    assert(s[21].0[0] != s[22].0[0]);
    assert(s[21].0[0] != s[23].0[0]);
    assert(s[21].0[0] != s[24].0[0]);
    assert(s[21].0[0] != s[25].0[0]);
    assert(s[21].0[0] != s[26].0[0]);
    assert(s[21].0[0] != s[27].0[0]);
    assert(s[21].0[0] != s[28].0[0]);
    assert(s[21].0[0] != s[29].0[0]);
    assert(s[22].0[0] != s[23].0[0]);
    assert(s[22].0[0] != s[24].0[0]);
    assert(s[22].0[0] != s[25].0[0]);
    assert(s[22].0[0] != s[26].0[0]);
    assert(s[22].0[0] != s[27].0[0]);
    assert(s[22].0[0] != s[28].0[0]);
    assert(s[22].0[0] != s[29].0[0]);
    assert(s[23].0[0] != s[24].0[0]);
    assert(s[23].0[0] != s[25].0[0]);
    assert(s[23].0[1] != s[26].0[1]);
    assert(s[23].0[0] != s[27].0[0]);
    assert(s[23].0[0] != s[28].0[0]);
    assert(s[23].0[0] != s[29].0[0]);
    assert(s[24].0[0] != s[25].0[0]);
    assert(s[24].0[0] != s[26].0[0]);
    assert(s[24].0[0] != s[27].0[0]);
    assert(s[24].0[0] != s[28].0[0]);
    assert(s[24].0[0] != s[29].0[0]);
    assert(s[25].0[0] != s[26].0[0]);
    assert(s[25].0[0] != s[27].0[0]);
    assert(s[25].0[0] != s[28].0[0]);
    assert(s[25].0[0] != s[29].0[0]);
    assert(s[26].0[0] != s[27].0[0]);
    assert(s[26].0[0] != s[28].0[0]);
    assert(s[26].0[0] != s[29].0[0]);
    assert(s[27].0[35] != s[28].0[35]);
    assert(s[27].0[0] != s[29].0[0]);
    assert(s[28].0[0] != s[29].0[0]);
    assert forall|i: int, j: int| 0 <= i < j < 30 implies #[trigger] s[i].0 != #[trigger] s[j].0 by {
        assert(i == 0 || i == 1 || i == 2 || i == 3 || i == 4 || i == 5 || i == 6 || i == 7 || i == 8 || i == 9 || i == 10 || i == 11 || i == 12 || i == 13 || i == 14 || i == 15 || i == 16 || i == 17 || i == 18 || i == 19 || i == 20 || i == 21 || i == 22 || i == 23 || i == 24 || i == 25 || i == 26 || i == 27 || i == 28);
        assert(j == 1 || j == 2 || j == 3 || j == 4 || j == 5 || j == 6 || j == 7 || j == 8 || j == 9 || j == 10 || j == 11 || j == 12 || j == 13 || j == 14 || j == 15 || j == 16 || j == 17 || j == 18 || j == 19 || j == 20 || j == 21 || j == 22 || j == 23 || j == 24 || j == 25 || j == 26 || j == 27 || j == 28 || j == 29);
    }
    assert forall|i: int| 0 <= i < 30 implies {
        let d = #[trigger] s[i].1;
        d == 0 || d == 1 || d == 100
    } by {
        assert(i == 0 || i == 1 || i == 2 || i == 3 || i == 4 || i == 5 || i == 6 || i == 7 || i == 8 || i == 9 || i == 10 || i == 11 || i == 12 || i == 13 || i == 14 || i == 15 || i == 16 || i == 17 || i == 18 || i == 19 || i == 20 || i == 21 || i == 22 || i == 23 || i == 24 || i == 25 || i == 26 || i == 27 || i == 28 || i == 29);
    }
}

fn setting_guid(path: &str, data: u32) -> (r: SettingGuid)
    ensures
        r.path@ == path@,
        r.data == data,
{
    SettingGuid { path: String::from_str(path), data }
}

/// The power-plan catalogue: the high-performance scheme, with the
/// processor settings that keep clocks up and cores unparked.
pub fn factory_powerplan() -> (r: PowerPlan)
    ensures
        r.scheme is Some,
        r.scheme->Some_0@ == "8c5e7fda-e8bf-4a96-9a85-a6e23a8c635c"@,
        r.data@.len() == 1,
        r.data@[0].path@ == "54533251-82be-4824-96c1-47b60b740d00"@,
        r.data@[0].data@.len() == 30,
        settings_view(r.data@[0].data@) == processor_catalogue(),
        guids_distinct(settings_view(r.data@[0].data@)),
{
    let processor = vec![
        setting_guid("be337238-0d82-4146-a960-4f3749d470c7", 0),
        setting_guid("06cadf0e-64ed-448a-8927-ce7bf90eb35d", 1),
        setting_guid("06cadf0e-64ed-448a-8927-ce7bf90eb35e", 1),
        setting_guid("984cf492-3bed-4488-a8f9-4286c97bf5aa", 1),
        setting_guid("984cf492-3bed-4488-a8f9-4286c97bf5ab", 1),
        setting_guid("12a0ab44-fe28-4fa9-b3bd-4b64f44960a6", 100),
        setting_guid("12a0ab44-fe28-4fa9-b3bd-4b64f44960a7", 100),
        setting_guid("619b7505-003b-4e82-b7a6-4dd29c300971", 0),
        setting_guid("619b7505-003b-4e82-b7a6-4dd29c300972", 0),
        setting_guid("8baa4a8a-14c6-4451-8e8b-14bdbd197537", 0),
        setting_guid("4e4450b3-6179-4e91-b8f1-5bb9938f81a1", 0),
        setting_guid("bc5038f7-23e0-4960-96da-33abaf5935ec", 100),
        setting_guid("bc5038f7-23e0-4960-96da-33abaf5935ed", 100),
        setting_guid("893dee8e-2bef-41e0-89c6-b55d0929964c", 100),
        setting_guid("893dee8e-2bef-41e0-89c6-b55d0929964d", 100),
        setting_guid("1facfc65-a930-4bc5-9f38-504ec097bbc0", 100),
        setting_guid("fddc842b-8364-4edc-94cf-c17f60de1c80", 100),
        setting_guid("ea062031-0e34-4ff1-9b6d-eb1059334028", 100),
        setting_guid("ea062031-0e34-4ff1-9b6d-eb1059334029", 100),
        setting_guid("0cc5b647-c1df-4637-891a-dec35c318583", 100),
        setting_guid("0cc5b647-c1df-4637-891a-dec35c318584", 100),
        setting_guid("e0007330-f589-42ed-a401-5ddb10e785d3", 0),
        setting_guid("4bdaf4e9-d103-46d7-a5f0-6280121616ef", 1),
        setting_guid("2ddd5a84-5a71-437e-912a-db0b8c788732", 1),
        setting_guid("dfd10d17-d5eb-45dd-877a-9a34ddd15c82", 100),
        setting_guid("f735a673-2066-4f80-a0c5-ddee0cf1bf5d", 1),
        setting_guid("2430ab6f-a520-44a2-9601-f7f23b5134b1", 1),
        setting_guid("616cdaa5-695e-4545-97ad-97dc2d1bdd88", 1),
        setting_guid("616cdaa5-695e-4545-97ad-97dc2d1bdd89", 1),
        setting_guid("36687f9e-e3a5-4dbf-b1dc-15eb381c6863", 0),
    ];
    assert(settings_view(processor@) =~= processor_catalogue());
    proof {
        lemma_processor_catalogue();
    }
    PowerPlan {
        scheme: Some(String::from_str("8c5e7fda-e8bf-4a96-9a85-a6e23a8c635c")),
        data: vec![SubGuid { path: String::from_str("54533251-82be-4824-96c1-47b60b740d00"), data: processor }],
    }
}

} // verus!
