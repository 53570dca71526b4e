use std::collections::HashMap;

use apex_optimizer::descriptor::{binary, dword, full_path, text, Hive, RegTweaks, Setting};
use apex_optimizer::reconcile::{
    action_line, classify, mode_for, plan_group, status_line, Action, Mode, Outcome, Step,
};
use apex_optimizer::transaction::{GroupTxn, TxnState};
use apex_optimizer::value::RegData;

/// A container of values, written through a transaction that can be
/// committed or dropped; writes to the keys in `denied` fail.
struct Container {
    values: HashMap<String, RegData>,
    denied: Vec<String>,
}

impl Container {
    fn new() -> Self {
        Container { values: HashMap::new(), denied: Vec::new() }
    }

    fn read(&self, key: &str) -> Option<RegData> {
        self.values.get(key).map(|v| v.duplicate())
    }

    fn reads(&self, group: &RegTweaks) -> Vec<Option<RegData>> {
        group.data.iter().map(|s| self.read(&s.key)).collect()
    }

    /// Runs one group in a mode, as a run does: read, plan, write into a
    /// staged copy, and make the copy durable only if the transaction commits.
    fn run(&mut self, group: &RegTweaks, mode: Mode) -> Vec<Step> {
        let steps = plan_group(group, &self.reads(group), mode);
        let mut staged: HashMap<String, RegData> =
            self.values.iter().map(|(k, v)| (k.clone(), v.duplicate())).collect();
        let mut txn = GroupTxn::open(mode);
        for step in steps.iter() {
            let ok = !self.denied.contains(&step.key);
            match &step.action {
                Action::Keep => continue,
                Action::Write(v) => {
                    if ok {
                        staged.insert(step.key.clone(), v.duplicate());
                    }
                }
                Action::Delete => {
                    if ok {
                        staged.remove(&step.key);
                    }
                }
            }
            txn.record(ok);
        }
        if txn.finish() {
            self.values = staged;
        }
        steps
    }
}

fn sample_group() -> RegTweaks {
    RegTweaks {
        path: String::from("SOFTWARE\\Sample"),
        data: vec![
            dword("Priority", 8, Some(2)),
            text("Scheduling Category", "Medium", Some("High")),
            binary("Curve", vec![0x00, 0x15, 0x6e], Some(vec![0x01, 0x02])),
            dword("TimerResolution", 1, None),
        ],
    }
}

fn outcomes(steps: &[Step]) -> Vec<Outcome> {
    steps.iter().map(|s| s.outcome).collect()
}

#[test]
fn classify_equal_integer_is_correct() {
    assert_eq!(classify(&Some(RegData::Dword(10)), &RegData::Dword(10)), Outcome::Correct);
}

#[test]
fn classify_absent_is_missing() {
    assert_eq!(classify(&None, &RegData::Dword(10)), Outcome::Missing);
}

#[test]
fn classify_other_integer_is_wrong_and_reports_it() {
    let setting = dword("Key", 10, None);
    let group = RegTweaks { path: String::from("P"), data: vec![setting] };
    let steps = plan_group(&group, &vec![Some(RegData::Dword(5))], Mode::Audit);
    assert_eq!(steps[0].outcome, Outcome::Wrong);
    let line = status_line(&String::from("HKEY_LOCAL_MACHINE\\P"), &group.data[0], &steps[0]);
    assert_eq!(line, "wrong setting: HKEY_LOCAL_MACHINE\\P\\Key = dword:10 (your value: 5)");
}

#[test]
fn classify_trailing_byte_difference_is_wrong() {
    let desired = RegData::Binary(vec![0x00, 0x15, 0x6e, 0x00]);
    let current = RegData::Binary(vec![0x00, 0x15, 0x6e, 0x01]);
    assert_eq!(classify(&Some(current), &desired), Outcome::Wrong);
    let same = RegData::Binary(vec![0x00, 0x15, 0x6e, 0x00]);
    assert_eq!(classify(&Some(same), &desired), Outcome::Correct);
}

#[test]
fn wrong_text_reports_the_text_found() {
    let group = RegTweaks { path: String::from("P"), data: vec![text("Scheduling Category", "Medium", None)] };
    let steps = plan_group(&group, &vec![Some(RegData::Text(String::from("medium")))], Mode::Audit);
    assert_eq!(
        status_line(&String::from("P"), &group.data[0], &steps[0]),
        "wrong setting: P\\Scheduling Category = sz:Medium (your value: medium)"
    );
}

#[test]
fn mode_from_switches() {
    assert_eq!(mode_for(false, false), Mode::Audit);
    assert_eq!(mode_for(false, true), Mode::Audit);
    assert_eq!(mode_for(true, false), Mode::Apply);
    assert_eq!(mode_for(true, true), Mode::Restore);
    let mut txn = GroupTxn::open(mode_for(false, true));
    txn.record(true);
    assert!(!txn.finish());
}

#[test]
fn classify_shorter_bytes_are_wrong() {
    let desired = RegData::Binary(vec![0x00, 0x15]);
    assert_eq!(classify(&Some(RegData::Binary(vec![0x00])), &desired), Outcome::Wrong);
}

#[test]
fn classify_text_is_exact() {
    let desired = RegData::Text(String::from("Medium"));
    assert_eq!(classify(&Some(RegData::Text(String::from("medium"))), &desired), Outcome::Wrong);
    assert_eq!(classify(&Some(RegData::Text(String::from("Medium "))), &desired), Outcome::Wrong);
    assert_eq!(classify(&Some(RegData::Text(String::from("Medium"))), &desired), Outcome::Correct);
}

#[test]
fn classify_other_kind_is_wrong() {
    assert_eq!(classify(&Some(RegData::Text(String::from("10"))), &RegData::Dword(10)), Outcome::Wrong);
}

#[test]
fn audit_writes_nothing() {
    let group = sample_group();
    let steps = plan_group(&group, &vec![None, None, None, None], Mode::Audit);
    assert!(steps.iter().all(|s| matches!(s.action, Action::Keep)));
    assert_eq!(outcomes(&steps), vec![Outcome::Missing; 4]);
}

#[test]
fn apply_writes_only_what_is_not_correct() {
    let group = sample_group();
    let currents = vec![Some(RegData::Dword(8)), Some(RegData::Text(String::from("High"))), None, None];
    let steps = plan_group(&group, &currents, Mode::Apply);
    assert_eq!(outcomes(&steps), vec![Outcome::Correct, Outcome::Wrong, Outcome::Missing, Outcome::Missing]);
    assert!(matches!(steps[0].action, Action::Keep));
    assert!(matches!(&steps[1].action, Action::Write(RegData::Text(s)) if s == "Medium"));
    assert!(matches!(&steps[2].action, Action::Write(RegData::Binary(b)) if *b == vec![0x00, 0x15, 0x6e]));
    assert!(matches!(steps[3].action, Action::Write(RegData::Dword(1))));
}

#[test]
fn restore_writes_defaults_and_deletes_the_rest() {
    let group = sample_group();
    let currents = vec![Some(RegData::Dword(8)), None, None, Some(RegData::Dword(1))];
    let steps = plan_group(&group, &currents, Mode::Restore);
    assert!(matches!(steps[0].action, Action::Write(RegData::Dword(2))));
    assert!(matches!(&steps[1].action, Action::Write(RegData::Text(s)) if s == "High"));
    assert!(matches!(&steps[2].action, Action::Write(RegData::Binary(b)) if *b == vec![0x01, 0x02]));
    assert!(matches!(steps[3].action, Action::Delete));
}

#[test]
fn applying_twice_finds_everything_correct() {
    let group = sample_group();
    let mut store = Container::new();
    store.values.insert(String::from("Priority"), RegData::Dword(3));
    store.run(&group, Mode::Apply);
    let second = store.run(&group, Mode::Apply);
    assert_eq!(outcomes(&second), vec![Outcome::Correct; 4]);
    assert!(second.iter().all(|s| matches!(s.action, Action::Keep)));
}

#[test]
fn apply_then_restore_returns_defaults() {
    let group = sample_group();
    let mut store = Container::new();
    store.run(&group, Mode::Apply);
    store.run(&group, Mode::Restore);
    for setting in group.data.iter() {
        let read = store.read(&setting.key);
        match &setting.default {
            Some(d) => assert_eq!(classify(&read, d), Outcome::Correct),
            None => assert_eq!(classify(&read, &setting.desired), Outcome::Missing),
        }
    }
}

#[test]
fn a_failed_write_discards_the_whole_group() {
    let group = sample_group();
    let mut store = Container::new();
    store.values.insert(String::from("Priority"), RegData::Dword(3));
    store.values.insert(String::from("TimerResolution"), RegData::Dword(9));
    store.denied.push(String::from("Curve"));
    store.run(&group, Mode::Apply);
    assert!(matches!(store.read("Priority"), Some(RegData::Dword(3))));
    assert!(matches!(store.read("TimerResolution"), Some(RegData::Dword(9))));
    assert!(store.read("Scheduling Category").is_none());
    assert!(store.read("Curve").is_none());
}

#[test]
fn transaction_commits_only_when_every_write_succeeded() {
    let mut txn = GroupTxn::open(Mode::Apply);
    assert_eq!(txn.state(), TxnState::Open);
    txn.record(true);
    txn.record(false);
    assert_eq!(txn.state(), TxnState::Populated);
    assert!(!txn.finish());
    assert_eq!(txn.state(), TxnState::Aborted);

    let mut ok = GroupTxn::open(Mode::Restore);
    ok.record(true);
    assert!(ok.finish());
    assert_eq!(ok.state(), TxnState::Committed);

    let mut empty = GroupTxn::open(Mode::Apply);
    assert!(empty.finish());
    assert_eq!(empty.state(), TxnState::Committed);
}

#[test]
fn audit_transaction_is_never_committed() {
    let mut txn = GroupTxn::open(Mode::Audit);
    assert!(!txn.finish());
    assert_eq!(txn.state(), TxnState::Aborted);
}

#[test]
fn status_lines_show_each_kind() {
    let container = full_path(Hive::CurrentUser, &String::from("Control Panel\\Mouse"));
    assert_eq!(container, "HKEY_CURRENT_USER\\Control Panel\\Mouse");
    let group = RegTweaks {
        path: String::from("Control Panel\\Mouse"),
        data: vec![
            dword("MouseSensitivity", 10, None),
            text("Scheduling Category", "Medium", None),
            binary("Curve", vec![0x00, 0xc0, 0x0f], None),
        ],
    };
    let currents = vec![Some(RegData::Dword(10)), None, Some(RegData::Binary(vec![0x01]))];
    let steps = plan_group(&group, &currents, Mode::Audit);
    let lines: Vec<String> = group.data.iter().zip(steps.iter()).map(|(s, st)| status_line(&container, s, st)).collect();
    assert_eq!(lines[0], "correct setting: HKEY_CURRENT_USER\\Control Panel\\Mouse\\MouseSensitivity = dword:10");
    assert_eq!(lines[1], "setting missing: HKEY_CURRENT_USER\\Control Panel\\Mouse\\Scheduling Category = sz:Medium");
    assert_eq!(
        lines[2],
        "wrong setting: HKEY_CURRENT_USER\\Control Panel\\Mouse\\Curve = binary:00,c0,0f (your value: 01)"
    );
}

#[test]
fn action_lines_report_writes_and_deletes() {
    let container = String::from("HKEY_USERS\\.DEFAULT\\Control Panel\\Mouse");
    let group = RegTweaks { path: String::from(".DEFAULT\\Control Panel\\Mouse"), data: vec![dword("MouseSpeed", 0, None)] };
    let applied = plan_group(&group, &vec![Some(RegData::Dword(1))], Mode::Apply);
    assert_eq!(action_line(&container, &applied[0]), "write reg key: HKEY_USERS\\.DEFAULT\\Control Panel\\Mouse\\MouseSpeed = dword:0");
    let restored = plan_group(&group, &vec![Some(RegData::Dword(0))], Mode::Restore);
    assert_eq!(action_line(&container, &restored[0]), "deleted key: HKEY_USERS\\.DEFAULT\\Control Panel\\Mouse\\MouseSpeed");
    let kept = plan_group(&group, &vec![Some(RegData::Dword(0))], Mode::Apply);
    assert_eq!(action_line(&container, &kept[0]), "");
}

#[test]
fn describe_formats_numbers_and_bytes() {
    assert_eq!(RegData::Dword(0).describe(), "dword:0");
    assert_eq!(RegData::Dword(65535).describe(), "dword:65535");
    assert_eq!(RegData::Dword(u32::MAX).describe(), "dword:4294967295");
    assert_eq!(RegData::Text(String::new()).describe(), "sz:");
    assert_eq!(RegData::Binary(vec![]).describe(), "binary:");
    assert_eq!(RegData::Binary(vec![0xff, 0x0a, 0x00]).describe(), "binary:ff,0a,00");
}

#[test]
fn equality_and_kind() {
    let a = RegData::Binary(vec![1, 2, 3]);
    assert!(a.equals(&a.duplicate()));
    assert!(!a.equals(&RegData::Binary(vec![1, 2])));
    assert!(a.same_kind_as(&RegData::Binary(vec![])));
    assert!(!a.same_kind_as(&RegData::Dword(1)));
    let s: Setting = dword("K", 1, Some(2));
    assert!(s.default.as_ref().map_or(false, |d| d.same_kind_as(&s.desired)));
}
