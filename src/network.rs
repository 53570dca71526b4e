use vstd::prelude::*;

use crate::descriptor::{dword, group_wf, RegTweaks, Setting, SettingView};
use crate::value::{DataView, RegData};

verus! {

/// One network adapter's entry in the interfaces container: its subkey
/// name and the values it holds.
pub struct Adapter {
    pub id: String,
    pub values: Vec<(String, RegData)>,
}

/// A list of named values holds `value` under `name`.
pub open spec fn holds_value(values: Seq<(String, RegData)>, name: Seq<char>, value: DataView) -> bool {
    exists|i: int| 0 <= i < values.len() && (#[trigger] values[i]).0@ == name && values[i].1@ == value
}

/// The adapter obtains its address by DHCP: it holds `AddressType` as the
/// 32-bit integer 0.
pub open spec fn has_dhcp_marker(a: Adapter) -> bool {
    holds_value(a.values@, "AddressType"@, DataView::Dword(0))
}

/// The container that holds one subkey per network adapter.
pub open spec fn interfaces_path() -> Seq<char> {
    "SYSTEM\\CurrentControlSet\\Services\\Tcpip\\Parameters\\Interfaces"@
}

/// Whether a list of named values holds `value` under `name`.
pub fn find_value(values: &Vec<(String, RegData)>, name: &String, value: &RegData) -> (r: bool)
    ensures
        r == holds_value(values@, name@, value@),
{
    let mut i: usize = 0;
    while i < values.len()
        invariant
            i <= values@.len(),
            forall|j: int|
                0 <= j < i ==> !((#[trigger] values@[j]).0@ == name@ && values@[j].1@ == value@),
        decreases values@.len() - i,
    {
        if values[i].0 == *name && values[i].1.equals(value) {
            return true;
        }
        i = i + 1;
    }
    false
}

/// Whether an adapter carries the DHCP marker.
pub fn is_dhcp_adapter(a: &Adapter) -> (r: bool)
    ensures
        r == has_dhcp_marker(*a),
{
    find_value(&a.values, &String::from_str("AddressType"), &RegData::Dword(0))
}

/// The first adapter, in the order given, that carries the DHCP marker.
pub fn find_dhcp_adapter(adapters: &Vec<Adapter>) -> (r: Option<usize>)
    ensures
        match r {
            Some(i) => i < adapters@.len() && has_dhcp_marker(adapters@[i as int]) && forall|j: int|
                0 <= j < i ==> !has_dhcp_marker(#[trigger] adapters@[j]),
            None => forall|j: int| 0 <= j < adapters@.len() ==> !has_dhcp_marker(#[trigger] adapters@[j]),
        },
{
    let mut i: usize = 0;
    while i < adapters.len()
        invariant
            i <= adapters@.len(),
            forall|j: int| 0 <= j < i ==> !has_dhcp_marker(#[trigger] adapters@[j]),
        decreases adapters@.len() - i,
    {
        if is_dhcp_adapter(&adapters[i]) {
            return Some(i);
        }
        i = i + 1;
    }
    None
}

/// The settings of an adapter's subkey: every segment acknowledged at once,
/// and the measured MTU. Neither has a default: restoring removes them.
pub open spec fn tcp_settings(mtu: u32) -> Seq<SettingView> {
    seq![
        SettingView { key: "TcpAckFrequency"@, desired: DataView::Dword(1), default: None },
        SettingView { key: "MTU"@, desired: DataView::Dword(mtu), default: None },
    ]
}

/// The container group of one adapter's subkey.
pub fn tcp_group(id: &String, mtu: u32) -> (r: RegTweaks)
    ensures
        r@.path == interfaces_path() + "\\"@ + id@,
        r@.settings == tcp_settings(mtu),
        group_wf(r@),
{
    let mut path = String::from_str("SYSTEM\\CurrentControlSet\\Services\\Tcpip\\Parameters\\Interfaces");
    path.append("\\");
    path.append(id.as_str());
    let data: Vec<Setting> = vec![dword("TcpAckFrequency", 1, None), dword("MTU", mtu, None)];
    let r = RegTweaks { path, data };
    assert(r@.settings =~= tcp_settings(mtu));
    proof {
        reveal_strlit("TcpAckFrequency");
        reveal_strlit("MTU");
        let s = r@.settings;
        assert(s[0].key == "TcpAckFrequency"@ && s[0].key.len() == 15);
        assert(s[1].key == "MTU"@ && s[1].key.len() == 3);
        assert forall|i: int, j: int| 0 <= i < j < 2 implies #[trigger] s[i].key != #[trigger] s[j].key by {
            assert(i == 0 && j == 1);
        }
    }
    r
}

/// The container group of the adapter to tune: the subkey of the first
/// adapter with the DHCP marker; none where no adapter has it.
pub fn target_adapter(adapters: &Vec<Adapter>, mtu: u32) -> (r: Option<RegTweaks>)
    ensures
        match r {
            Some(g) => exists|i: int|
                0 <= i < adapters@.len() && has_dhcp_marker(#[trigger] adapters@[i]) && (forall|j: int|
                    0 <= j < i ==> !has_dhcp_marker(#[trigger] adapters@[j])) && g@.path
                    == interfaces_path() + "\\"@ + adapters@[i].id@ && g@.settings == tcp_settings(mtu)
                    && group_wf(g@),
            None => forall|j: int| 0 <= j < adapters@.len() ==> !has_dhcp_marker(#[trigger] adapters@[j]),
        },
{
    match find_dhcp_adapter(adapters) {
        Some(i) => Some(tcp_group(&adapters[i].id, mtu)),
        None => None,
    }
}

/// The next move of the path-MTU probe, which sends unfragmentable pings of
/// shrinking payload until one gets through.
#[derive(Clone, Copy, Debug, PartialEq, Eq, Structural)]
pub enum Probe {
    /// Send a ping with this many bytes of payload.
    Send(u32),
    /// The probe is over: this is the MTU, headers included.
    Done(u32),
}

/// The size of the IP and ICMP headers that a ping adds to its payload.
pub const PING_HEADERS: u32 = 28;

/// The payload the probe starts with.
pub const FIRST_PAYLOAD: u32 = 1500;

/// The MTU assumed when no ping gets through.
pub const FALLBACK_MTU: u32 = 1500;

/// The first move of the probe.
pub fn probe_start() -> (r: Probe)
    ensures
        r == Probe::Send(FIRST_PAYLOAD),
{
    Probe::Send(FIRST_PAYLOAD)
}

/// The move after a ping of `payload` bytes was sent: done when it got
/// through, one byte less when it did not, and the fallback once no
/// payload is left to try.
pub fn probe_after(payload: u32, delivered: bool) -> (r: Probe)
    requires
        delivered ==> payload <= u32::MAX - PING_HEADERS,
    ensures
        delivered ==> r == Probe::Done((payload + PING_HEADERS) as u32),
        !delivered && payload <= 1 ==> r == Probe::Done(FALLBACK_MTU),
        !delivered && payload > 1 ==> r == Probe::Send((payload - 1) as u32),
{
    if delivered {
        Probe::Done(payload + PING_HEADERS)
    } else if payload <= 1 {
        Probe::Done(FALLBACK_MTU)
    } else {
        Probe::Send(payload - 1)
    }
}

} // verus!
