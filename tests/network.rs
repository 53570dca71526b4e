use apex_optimizer::network::{
    find_dhcp_adapter, is_dhcp_adapter, probe_after, probe_start, target_adapter, tcp_group, Adapter, Probe,
};
use apex_optimizer::reconcile::{plan_group, Action, Mode};
use apex_optimizer::RegData;

fn adapter(id: &str, address_type: Option<RegData>) -> Adapter {
    let mut values = vec![(String::from("EnableDHCP"), RegData::Dword(1))];
    if let Some(v) = address_type {
        values.push((String::from("AddressType"), v));
    }
    Adapter { id: String::from(id), values }
}

#[test]
fn only_the_marked_adapter_is_targeted() {
    let adapters = vec![
        adapter("{first}", None),
        adapter("{second}", Some(RegData::Dword(0))),
        adapter("{third}", Some(RegData::Dword(1))),
    ];
    assert_eq!(find_dhcp_adapter(&adapters), Some(1));
    let g = target_adapter(&adapters, 1500).unwrap();
    assert_eq!(g.path, "SYSTEM\\CurrentControlSet\\Services\\Tcpip\\Parameters\\Interfaces\\{second}");
    assert_eq!(g.data.len(), 2);
    assert_eq!(g.data[0].key, "TcpAckFrequency");
    assert!(matches!(g.data[0].desired, RegData::Dword(1)));
    assert_eq!(g.data[1].key, "MTU");
    assert!(matches!(g.data[1].desired, RegData::Dword(1500)));
}

#[test]
fn first_marked_adapter_wins() {
    let adapters = vec![
        adapter("{a}", Some(RegData::Dword(0))),
        adapter("{b}", Some(RegData::Dword(0))),
    ];
    assert_eq!(find_dhcp_adapter(&adapters), Some(0));
}

#[test]
fn no_marked_adapter() {
    let adapters = vec![
        adapter("{a}", None),
        adapter("{b}", Some(RegData::Binary(vec![0, 0, 0, 0]))),
    ];
    assert_eq!(find_dhcp_adapter(&adapters), None);
    assert!(target_adapter(&adapters, 1500).is_none());
    assert!(target_adapter(&vec![], 1500).is_none());
}

#[test]
fn marker_needs_the_exact_name() {
    let a = Adapter { id: String::from("x"), values: vec![(String::from("addresstype"), RegData::Dword(0))] };
    assert!(!is_dhcp_adapter(&a));
}

#[test]
fn adapter_settings_are_removed_on_restore() {
    let g = tcp_group(&String::from("{nic}"), 1492);
    let steps = plan_group(&g, &vec![Some(RegData::Dword(1)), Some(RegData::Dword(1492))], Mode::Restore);
    assert!(steps.iter().all(|s| matches!(s.action, Action::Delete)));
}

#[test]
fn probe_shrinks_until_delivered() {
    assert_eq!(probe_start(), Probe::Send(1500));
    assert_eq!(probe_after(1500, false), Probe::Send(1499));
    assert_eq!(probe_after(1472, true), Probe::Done(1500));
    assert_eq!(probe_after(1500, true), Probe::Done(1528));
}

#[test]
fn probe_falls_back_when_nothing_gets_through() {
    assert_eq!(probe_after(1, false), Probe::Done(1500));
    assert_eq!(probe_after(2, false), Probe::Send(1));
}
