use vstd::prelude::*;

use crate::value::{same_kind, DataView, RegData};

verus! {

/// One setting of the catalogue: a named value inside a container, the
/// value it should hold, and the value a fresh system holds, if known.
/// Without a known default, restoring removes the value.
pub struct Setting {
    pub key: String,
    pub desired: RegData,
    pub default: Option<RegData>,
}

/// The mathematical form of a [`Setting`].
pub ghost struct SettingView {
    pub key: Seq<char>,
    pub desired: DataView,
    pub default: Option<DataView>,
}

impl View for Setting {
    type V = SettingView;

    open spec fn view(&self) -> SettingView {
        SettingView {
            key: self.key@,
            desired: self.desired@,
            default: match self.default {
                Some(d) => Some(d@),
                None => None,
            },
        }
    }
}

/// A default, where there is one, is of the same kind as the desired value.
pub open spec fn setting_wf(s: SettingView) -> bool {
    match s.default {
        Some(d) => same_kind(d, s.desired),
        None => true,
    }
}

/// No two settings of a container name the same value.
pub open spec fn keys_distinct(settings: Seq<SettingView>) -> bool {
    forall|i: int, j: int|
        0 <= i < j < settings.len() ==> #[trigger] settings[i].key != #[trigger] settings[j].key
}

/// The settings that live under one container path of a store: the unit
/// that is written in one transaction.
pub struct RegTweaks {
    pub path: String,
    pub data: Vec<Setting>,
}

/// The mathematical form of a [`RegTweaks`].
pub ghost struct GroupView {
    pub path: Seq<char>,
    pub settings: Seq<SettingView>,
}

impl View for RegTweaks {
    type V = GroupView;

    open spec fn view(&self) -> GroupView {
        GroupView { path: self.path@, settings: self.data@.map_values(|s: Setting| s@) }
    }
}

/// Every setting of the group is well formed, and no two name the same
/// value.
pub open spec fn group_wf(g: GroupView) -> bool {
    &&& forall|i: int| 0 <= i < g.settings.len() ==> setting_wf(#[trigger] g.settings[i])
    &&& keys_distinct(g.settings)
}

/// The registry catalogue, one list of container groups per root.
pub struct Settings {
    pub local_machine: Vec<RegTweaks>,
    pub current_user: Vec<RegTweaks>,
    pub users: Vec<RegTweaks>,
}

/// The root of the registry a group of the catalogue lives under.
#[derive(Clone, Copy, Debug, PartialEq, Eq, Structural)]
pub enum Hive {
    LocalMachine,
    CurrentUser,
    Users,
}

/// The name of a root as status lines show it.
pub open spec fn hive_name(h: Hive) -> Seq<char> {
    match h {
        Hive::LocalMachine => "HKEY_LOCAL_MACHINE"@,
        Hive::CurrentUser => "HKEY_CURRENT_USER"@,
        Hive::Users => "HKEY_USERS"@,
    }
}

/// The full name of a container: its root, a backslash, and its path.
pub fn full_path(hive: Hive, path: &String) -> (r: String)
    ensures
        r@ == hive_name(hive) + "\\"@ + path@,
{
    let mut r = match hive {
        Hive::LocalMachine => String::from_str("HKEY_LOCAL_MACHINE"),
        Hive::CurrentUser => String::from_str("HKEY_CURRENT_USER"),
        Hive::Users => String::from_str("HKEY_USERS"),
    };
    r.append("\\");
    r.append(path.as_str());
    r
}

/// Every group of a list is well formed.
pub open spec fn groups_wf(gs: Seq<RegTweaks>) -> bool {
    forall|i: int| 0 <= i < gs.len() ==> group_wf(#[trigger] gs[i]@)
}

impl Settings {
    /// Every group of the catalogue is well formed: defaults of the right
    /// kind, and distinct names within each container.
    pub open spec fn wf(&self) -> bool {
        &&& groups_wf(self.local_machine@)
        &&& groups_wf(self.current_user@)
        &&& groups_wf(self.users@)
    }
}

/// A setting of an unsigned 32-bit integer.
pub open spec fn dword_view(key: Seq<char>, desired: u32, default: Option<u32>) -> SettingView {
    SettingView {
        key,
        desired: DataView::Dword(desired),
        default: match default {
            Some(d) => Some(DataView::Dword(d)),
            None => None,
        },
    }
}

/// A setting of a text.
pub open spec fn text_view(key: Seq<char>, desired: Seq<char>, default: Option<Seq<char>>) -> SettingView {
    SettingView {
        key,
        desired: DataView::Text(desired),
        default: match default {
            Some(d) => Some(DataView::Text(d)),
            None => None,
        },
    }
}

/// A setting of raw bytes.
pub open spec fn binary_view(key: Seq<char>, desired: Seq<u8>, default: Option<Seq<u8>>) -> SettingView {
    SettingView {
        key,
        desired: DataView::Binary(desired),
        default: match default {
            Some(d) => Some(DataView::Binary(d)),
            None => None,
        },
    }
}

/// A container group from its path and its settings.
pub open spec fn group_view(path: Seq<char>, settings: Seq<SettingView>) -> GroupView {
    GroupView { path, settings }
}

/// The views of a list of groups.
pub open spec fn groups_view(gs: Seq<RegTweaks>) -> Seq<GroupView> {
    gs.map_values(|g: RegTweaks| g@)
}

/// No two groups of a list name the same container.
pub open spec fn paths_distinct(gs: Seq<GroupView>) -> bool {
    forall|i: int, j: int| 0 <= i < j < gs.len() ==> #[trigger] gs[i].path != #[trigger] gs[j].path
}

/// Builds a setting that holds an unsigned 32-bit integer.
pub fn dword(key: &str, desired: u32, default: Option<u32>) -> (r: Setting)
    ensures
        r@.key == key@,
        r@.desired == DataView::Dword(desired),
        r@.default == match default {
            Some(d) => Some(DataView::Dword(d)),
            None => None::<DataView>,
        },
        setting_wf(r@),
        r@ == dword_view(key@, desired, default),
{
    Setting {
        key: String::from_str(key),
        desired: RegData::Dword(desired),
        default: match default {
            Some(d) => Some(RegData::Dword(d)),
            None => None,
        },
    }
}

/// Builds a setting that holds a text.
pub fn text(key: &str, desired: &str, default: Option<&str>) -> (r: Setting)
    ensures
        r@.key == key@,
        r@.desired == DataView::Text(desired@),
        r@.default == match default {
            Some(d) => Some(DataView::Text(d@)),
            None => None::<DataView>,
        },
        setting_wf(r@),
        r@ == text_view(
            key@,
            desired@,
            match default {
                Some(d) => Some(d@),
                None => None,
            },
        ),
{
    Setting {
        key: String::from_str(key),
        desired: RegData::Text(String::from_str(desired)),
        default: match default {
            Some(d) => Some(RegData::Text(String::from_str(d))),
            None => None,
        },
    }
}

/// Builds a setting that holds raw bytes.
pub fn binary(key: &str, desired: Vec<u8>, default: Option<Vec<u8>>) -> (r: Setting)
    ensures
        r@.key == key@,
        r@.desired == DataView::Binary(desired@),
        r@.default == match default {
            Some(d) => Some(DataView::Binary(d@)),
            None => None::<DataView>,
        },
        setting_wf(r@),
        r@ == binary_view(
            key@,
            desired@,
            match default {
                Some(d) => Some(d@),
                None => None,
            },
        ),
{
    Setting {
        key: String::from_str(key),
        desired: RegData::Binary(desired),
        default: match default {
            Some(d) => Some(RegData::Binary(d)),
            None => None,
        },
    }
}

} // verus!
