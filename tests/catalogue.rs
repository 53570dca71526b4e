use apex_optimizer::catalogue::{get_smooth_mouse_x_curve, get_smooth_mouse_y_curve};
use apex_optimizer::power::{plan_subgroup, power_status_line, set_args, SettingGuid, SubGuid};
use apex_optimizer::reconcile::Outcome;
use apex_optimizer::tuning::{effective_dpi, plan_speakers, DEFAULT_DPI};
use apex_optimizer::{factory_powerplan, factory_settings, CpuPriority, RegData, RegTweaks};

fn keys_distinct(g: &RegTweaks) -> bool {
    g.data.iter().enumerate().all(|(i, a)| g.data.iter().skip(i + 1).all(|b| a.key != b.key))
}

#[test]
fn catalogue_is_well_formed() {
    let settings = factory_settings(&96);
    assert_eq!(settings.local_machine.len(), 15);
    assert_eq!(settings.current_user.len(), 5);
    assert_eq!(settings.users.len(), 1);
    for g in settings.local_machine.iter().chain(settings.current_user.iter()).chain(settings.users.iter()) {
        assert!(!g.data.is_empty());
        assert!(keys_distinct(g), "{}", g.path);
        for s in g.data.iter() {
            if let Some(d) = &s.default {
                assert!(d.same_kind_as(&s.desired));
            }
        }
    }
}

#[test]
fn catalogue_holds_known_entries() {
    let settings = factory_settings(&96);
    let tcp = settings
        .local_machine
        .iter()
        .find(|g| g.path == "SYSTEM\\CurrentControlSet\\Services\\Tcpip\\Parameters")
        .unwrap();
    let window = tcp.data.iter().find(|s| s.key == "TcpWindowSize").unwrap();
    assert!(matches!(window.desired, RegData::Dword(65535)));
    assert!(matches!(window.default, Some(RegData::Dword(14674))));
    let pro_audio = &settings.local_machine[5];
    assert!(matches!(&pro_audio.data[1].desired, RegData::Text(s) if s == "Medium"));
    assert!(matches!(&pro_audio.data[1].default, Some(RegData::Text(s)) if s == "High"));
    assert_eq!(settings.users[0].path, ".DEFAULT\\Control Panel\\Mouse");
}

#[test]
fn catalogue_mouse_curves_follow_the_scale() {
    let at_150 = factory_settings(&144);
    let mouse = &at_150.current_user[0];
    assert_eq!(mouse.path, "Control Panel\\Mouse");
    assert!(matches!(&mouse.data[1].desired, RegData::Binary(b) if *b == get_smooth_mouse_x_curve(144)));
    assert!(matches!(&mouse.data[2].desired, RegData::Binary(b) if *b == get_smooth_mouse_y_curve(144)));
    assert!(matches!(&mouse.data[1].default, Some(RegData::Binary(b)) if b.len() == 40 && b[8] == 0x15));
}

#[test]
fn mouse_curves_by_scale() {
    let x96 = get_smooth_mouse_x_curve(96);
    assert_eq!(x96.len(), 40);
    assert_eq!(&x96[8..11], &[0xC0, 0xCC, 0x0C]);
    assert_eq!(&get_smooth_mouse_x_curve(120)[8..11], &[0x00, 0x00, 0x10]);
    assert_eq!(&get_smooth_mouse_x_curve(192)[32..35], &[0x40, 0x66, 0x66]);
    assert_eq!(get_smooth_mouse_x_curve(100), x96);
    assert_eq!(get_smooth_mouse_y_curve(96), get_smooth_mouse_y_curve(192));
    assert_eq!(&get_smooth_mouse_y_curve(0)[8..11], &[0x00, 0x00, 0x38]);
}

#[test]
fn powerplan_catalogue() {
    let plan = factory_powerplan();
    assert_eq!(plan.scheme.as_deref(), Some("8c5e7fda-e8bf-4a96-9a85-a6e23a8c635c"));
    assert_eq!(plan.data.len(), 1);
    assert_eq!(plan.data[0].path, "54533251-82be-4824-96c1-47b60b740d00");
    assert_eq!(plan.data[0].data.len(), 30);
    assert_eq!(plan.data[0].data[0].path, "be337238-0d82-4146-a960-4f3749d470c7");
    assert_eq!(plan.data[0].data[0].data, 0);
}

#[test]
fn powerplan_settings_are_reconciled() {
    let sub = SubGuid {
        path: String::from("sub"),
        data: vec![
            SettingGuid { path: String::from("a"), data: 100 },
            SettingGuid { path: String::from("b"), data: 1 },
            SettingGuid { path: String::from("c"), data: 0 },
        ],
    };
    let steps = plan_subgroup(&sub, &vec![Some(100), None, Some(5)], true);
    let outcomes: Vec<Outcome> = steps.iter().map(|s| s.outcome).collect();
    assert_eq!(outcomes, vec![Outcome::Correct, Outcome::Missing, Outcome::Wrong]);
    assert_eq!(steps.iter().map(|s| s.set).collect::<Vec<_>>(), vec![false, true, true]);
    assert_eq!(steps[2].current, Some(5));
    let audit = plan_subgroup(&sub, &vec![Some(100), None, Some(5)], false);
    assert!(audit.iter().all(|s| !s.set));
}

#[test]
fn powerplan_command_arguments() {
    let args = set_args(&String::from("scheme"), &String::from("sub"), &String::from("setting"), 100);
    assert_eq!(args, vec!["-SetAcValueIndex", "scheme", "sub", "setting", "100"]);
    let zero = set_args(&String::from("s"), &String::from("g"), &String::from("t"), 0);
    assert_eq!(zero[4], "0");
}

#[test]
fn process_priorities_become_settings() {
    let p = CpuPriority {
        process: String::from("csgo.exe"),
        cpu_priority_class: Some(3),
        io_priority: Some(3),
        page_priority: None,
        working_set_limit_in_kb: None,
    };
    let g = p.perf_options();
    assert_eq!(g.path, "csgo.exe\\PerfOptions");
    let keys: Vec<&str> = g.data.iter().map(|s| s.key.as_str()).collect();
    assert_eq!(keys, vec!["CpuPriorityClass", "IoPriority"]);
    assert!(matches!(g.data[0].desired, RegData::Dword(3)));
    assert!(g.data.iter().all(|s| s.default.is_none()));

    let all = CpuPriority {
        process: String::from("x.exe"),
        cpu_priority_class: Some(5),
        io_priority: Some(1),
        page_priority: Some(2),
        working_set_limit_in_kb: Some(1382),
    };
    let keys: Vec<String> = all.perf_options().data.iter().map(|s| s.key.clone()).collect();
    assert_eq!(keys, vec!["CpuPriorityClass", "IoPriority", "PagePriority", "WorkingSetLimitInKB"]);

    let none = CpuPriority {
        process: String::from("y.exe"),
        cpu_priority_class: None,
        io_priority: None,
        page_priority: None,
        working_set_limit_in_kb: None,
    };
    assert!(none.perf_options().data.is_empty());
}

#[test]
fn display_scale() {
    assert_eq!(effective_dpi(None, Some(144)), DEFAULT_DPI);
    assert_eq!(effective_dpi(Some(0), Some(144)), 96);
    assert_eq!(effective_dpi(Some(1), Some(144)), 144);
    assert_eq!(effective_dpi(Some(1), None), 96);
}

#[test]
fn full_range_speakers() {
    let same = plan_speakers(3, 3, true);
    assert_eq!(same.outcome, Outcome::Correct);
    assert!(!same.set);
    let differ = plan_speakers(3, 0, true);
    assert_eq!(differ.outcome, Outcome::Wrong);
    assert!(differ.set);
    let audit = plan_speakers(3, 0, false);
    assert_eq!(audit.outcome, Outcome::Wrong);
    assert!(!audit.set);
}

fn describe_all(s: &apex_optimizer::Settings) -> Vec<String> {
    s.local_machine
        .iter()
        .chain(s.current_user.iter())
        .chain(s.users.iter())
        .flat_map(|g| {
            g.data.iter().map(move |st| {
                format!(
                    "{}|{}|{}|{}",
                    g.path,
                    st.key,
                    st.desired.describe(),
                    st.default.as_ref().map_or(String::from("-"), |d| d.describe())
                )
            })
        })
        .collect()
}

#[test]
fn catalogue_depends_on_the_scale_only_through_the_x_curve() {
    let at_96 = describe_all(&factory_settings(&96));
    assert_eq!(describe_all(&factory_settings(&96)), at_96);
    assert_eq!(describe_all(&factory_settings(&100)), at_96);
    let at_192 = describe_all(&factory_settings(&192));
    let differing: Vec<usize> = (0..at_96.len()).filter(|&i| at_96[i] != at_192[i]).collect();
    assert_eq!(differing.len(), 1);
    assert!(at_96[differing[0]].starts_with("Control Panel\\Mouse|SmoothMouseXCurve|"));
}

#[test]
fn catalogue_priority_control_and_pro_audio() {
    let s = factory_settings(&96);
    let lines = describe_all(&s);
    assert!(lines.contains(&String::from(
        "SYSTEM\\CurrentControlSet\\Control\\PriorityControl|Win32PrioritySeparation|dword:22|dword:2"
    )));
    assert!(lines.contains(&String::from(
        "SOFTWARE\\Microsoft\\Windows NT\\CurrentVersion\\Multimedia\\SystemProfile\\Tasks\\Pro Audio|Scheduling Category|sz:Medium|sz:High"
    )));
    for hive in [&s.local_machine, &s.current_user, &s.users] {
        for (i, a) in hive.iter().enumerate() {
            assert!(hive.iter().skip(i + 1).all(|b| a.path != b.path));
        }
    }
}

#[test]
fn powerplan_processor_values() {
    let plan = factory_powerplan();
    let settings = &plan.data[0].data;
    let index_of = |guid: &str| settings.iter().find(|s| s.path == guid).map(|s| s.data);
    assert_eq!(index_of("893dee8e-2bef-41e0-89c6-b55d0929964c"), Some(100));
    assert_eq!(index_of("bc5038f7-23e0-4960-96da-33abaf5935ec"), Some(100));
    assert_eq!(index_of("be337238-0d82-4146-a960-4f3749d470c7"), Some(0));
    assert_eq!(index_of("36687f9e-e3a5-4dbf-b1dc-15eb381c6863"), Some(0));
    for (i, a) in settings.iter().enumerate() {
        assert!(a.data == 0 || a.data == 1 || a.data == 100);
        assert!(settings.iter().skip(i + 1).all(|b| a.path != b.path));
    }
}

#[test]
fn powerplan_status_lines() {
    let sub = SubGuid { path: String::from("sub"), data: vec![SettingGuid { path: String::from("a"), data: 100 }] };
    let wrong = plan_subgroup(&sub, &vec![Some(5)], false);
    assert_eq!(
        power_status_line(&String::from("S\\sub\\a"), &wrong[0]),
        "wrong setting: S\\sub\\a\\ACSettingIndex = dword:100 (your value: 5)"
    );
    let right = plan_subgroup(&sub, &vec![Some(100)], false);
    assert_eq!(
        power_status_line(&String::from("S\\sub\\a"), &right[0]),
        "correct setting: S\\sub\\a\\ACSettingIndex = dword:100"
    );
}
