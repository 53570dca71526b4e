use vstd::prelude::*;

use crate::descriptor::{
    binary, binary_view, dword, dword_view, group_view, group_wf, groups_view, groups_wf, paths_distinct,
    text, text_view, GroupView, RegTweaks, Setting, Settings,
};
use crate::value::DataView;

verus! {

/// The mouse acceleration curve along X that matches a display scale,
/// given in dots per inch; an unknown scale gets the curve of 96 dpi.
pub open spec fn smooth_mouse_x_curve(dpi: u32) -> Seq<u8> {
    if dpi == 96 {
        seq![
            0x00, 0x00, 0x00, 0x00, 0x00, 0x00, 0x00, 0x00, 0xC0, 0xCC, 0x0C, 0x00,
            0x00, 0x00, 0x00, 0x00, 0x80, 0x99, 0x19, 0x00, 0x00, 0x00, 0x00, 0x00,
            0x40, 0x66, 0x26, 0x00, 0x00, 0x00, 0x00, 0x00, 0x00, 0x33, 0x33, 0x00,
            0x00, 0x00, 0x00, 0x00,
        ]
    } else if dpi == 120 {
        seq![
            0x00, 0x00, 0x00, 0x00, 0x00, 0x00, 0x00, 0x00, 0x00, 0x00, 0x10, 0x00,
            0x00, 0x00, 0x00, 0x00, 0x00, 0x00, 0x20, 0x00, 0x00, 0x00, 0x00, 0x00,
            0x00, 0x00, 0x30, 0x00, 0x00, 0x00, 0x00, 0x00, 0x00, 0x00, 0x40, 0x00,
            0x00, 0x00, 0x00, 0x00,
        ]
    } else if dpi == 144 {
        seq![
            0x00, 0x00, 0x00, 0x00, 0x00, 0x00, 0x00, 0x00, 0x30, 0x33, 0x13, 0x00,
            0x00, 0x00, 0x00, 0x00, 0x60, 0x66, 0x26, 0x00, 0x00, 0x00, 0x00, 0x00,
            0x90, 0x99, 0x39, 0x00, 0x00, 0x00, 0x00, 0x00, 0xC0, 0xCC, 0x4C, 0x00,
            0x00, 0x00, 0x00, 0x00,
        ]
    } else if dpi == 192 {
        seq![
            0x00, 0x00, 0x00, 0x00, 0x00, 0x00, 0x00, 0x00, 0x90, 0x99, 0x19, 0x00,
            0x00, 0x00, 0x00, 0x00, 0x20, 0x33, 0x33, 0x00, 0x00, 0x00, 0x00, 0x00,
            0xB0, 0xCC, 0x4C, 0x00, 0x00, 0x00, 0x00, 0x00, 0x40, 0x66, 0x66, 0x00,
            0x00, 0x00, 0x00, 0x00,
        ]
    } else {
        seq![
            0x00, 0x00, 0x00, 0x00, 0x00, 0x00, 0x00, 0x00, 0xC0, 0xCC, 0x0C, 0x00,
            0x00, 0x00, 0x00, 0x00, 0x80, 0x99, 0x19, 0x00, 0x00, 0x00, 0x00, 0x00,
            0x40, 0x66, 0x26, 0x00, 0x00, 0x00, 0x00, 0x00, 0x00, 0x33, 0x33, 0x00,
            0x00, 0x00, 0x00, 0x00,
        ]
    }
}

/// The mouse acceleration curve along Y, which is the same at every scale.
pub open spec fn smooth_mouse_y_curve() -> Seq<u8> {
    seq![
        0x00, 0x00, 0x00, 0x00, 0x00, 0x00, 0x00, 0x00, 0x00, 0x00, 0x38, 0x00,
        0x00, 0x00, 0x00, 0x00, 0x00, 0x00, 0x70, 0x00, 0x00, 0x00, 0x00, 0x00,
        0x00, 0x00, 0xA8, 0x00, 0x00, 0x00, 0x00, 0x00, 0x00, 0x00, 0xE0, 0x00,
        0x00, 0x00, 0x00, 0x00,
    ]
}

/// The X curve for a display scale.
pub fn get_smooth_mouse_x_curve(dpi: u32) -> (r: Vec<u8>)
    ensures
        r@ == smooth_mouse_x_curve(dpi),
{
    match dpi {
        96 => vec![
            0x00, 0x00, 0x00, 0x00, 0x00, 0x00, 0x00, 0x00, 0xC0, 0xCC, 0x0C, 0x00,
            0x00, 0x00, 0x00, 0x00, 0x80, 0x99, 0x19, 0x00, 0x00, 0x00, 0x00, 0x00,
            0x40, 0x66, 0x26, 0x00, 0x00, 0x00, 0x00, 0x00, 0x00, 0x33, 0x33, 0x00,
            0x00, 0x00, 0x00, 0x00,
        ],
        120 => vec![
            0x00, 0x00, 0x00, 0x00, 0x00, 0x00, 0x00, 0x00, 0x00, 0x00, 0x10, 0x00,
            0x00, 0x00, 0x00, 0x00, 0x00, 0x00, 0x20, 0x00, 0x00, 0x00, 0x00, 0x00,
            0x00, 0x00, 0x30, 0x00, 0x00, 0x00, 0x00, 0x00, 0x00, 0x00, 0x40, 0x00,
            0x00, 0x00, 0x00, 0x00,
        ],
        144 => vec![
            0x00, 0x00, 0x00, 0x00, 0x00, 0x00, 0x00, 0x00, 0x30, 0x33, 0x13, 0x00,
            0x00, 0x00, 0x00, 0x00, 0x60, 0x66, 0x26, 0x00, 0x00, 0x00, 0x00, 0x00,
            0x90, 0x99, 0x39, 0x00, 0x00, 0x00, 0x00, 0x00, 0xC0, 0xCC, 0x4C, 0x00,
            0x00, 0x00, 0x00, 0x00,
        ],
        192 => vec![
            0x00, 0x00, 0x00, 0x00, 0x00, 0x00, 0x00, 0x00, 0x90, 0x99, 0x19, 0x00,
            0x00, 0x00, 0x00, 0x00, 0x20, 0x33, 0x33, 0x00, 0x00, 0x00, 0x00, 0x00,
            0xB0, 0xCC, 0x4C, 0x00, 0x00, 0x00, 0x00, 0x00, 0x40, 0x66, 0x66, 0x00,
            0x00, 0x00, 0x00, 0x00,
        ],
        _ => vec![
            0x00, 0x00, 0x00, 0x00, 0x00, 0x00, 0x00, 0x00, 0xC0, 0xCC, 0x0C, 0x00,
            0x00, 0x00, 0x00, 0x00, 0x80, 0x99, 0x19, 0x00, 0x00, 0x00, 0x00, 0x00,
            0x40, 0x66, 0x26, 0x00, 0x00, 0x00, 0x00, 0x00, 0x00, 0x33, 0x33, 0x00,
            0x00, 0x00, 0x00, 0x00,
        ],
    }
}

/// The Y curve for a display scale.
pub fn get_smooth_mouse_y_curve(dpi: u32) -> (r: Vec<u8>)
    ensures
        r@ == smooth_mouse_y_curve(),
{
    vec![
        0x00, 0x00, 0x00, 0x00, 0x00, 0x00, 0x00, 0x00, 0x00, 0x00, 0x38, 0x00,
        0x00, 0x00, 0x00, 0x00, 0x00, 0x00, 0x70, 0x00, 0x00, 0x00, 0x00, 0x00,
        0x00, 0x00, 0xA8, 0x00, 0x00, 0x00, 0x00, 0x00, 0x00, 0x00, 0xE0, 0x00,
        0x00, 0x00, 0x00, 0x00,
    ]
}

/// A container group built from a path and its settings.
pub fn group(path: &str, data: Vec<Setting>) -> (r: RegTweaks)
    ensures
        r.path@ == path@,
        r.data@ == data@,
{
    RegTweaks { path: String::from_str(path), data }
}

/// Appends a well-formed group to a well-formed list.
fn push_group(groups: &mut Vec<RegTweaks>, g: RegTweaks)
    requires
        groups_wf(old(groups)@),
        group_wf(g@),
    ensures
        final(groups)@ == old(groups)@.push(g),
        groups_view(final(groups)@) == groups_view(old(groups)@).push(g@),
        groups_wf(final(groups)@),
{
    groups.push(g);
    assert(groups_view(groups@) =~= groups_view(old(groups)@).push(g@));
    assert forall|i: int| 0 <= i < groups@.len() implies group_wf(#[trigger] groups@[i]@) by {
        if i < groups@.len() - 1 {
            assert(groups@[i] == old(groups)@[i]);
        }
    }
}

/// The groups of the catalogue under `HKEY_LOCAL_MACHINE`, in order.
pub open spec fn local_machine_catalogue() -> Seq<GroupView> {
    seq![
        group_view(
            "SOFTWARE\\Policies\\Microsoft\\Windows\\GameDVR"@,
            seq![
                dword_view("AllowGameDVR"@, 0, None),
            ],
        ),
        group_view(
            "SOFTWARE\\Policies\\Microsoft\\Windows\\Psched"@,
            seq![
                dword_view("TimerResolution"@, 1, None),
                dword_view("NonBestEffortLimit"@, 0, None),
            ],
        ),
        group_view(
            "SOFTWARE\\Microsoft\\MSMQ\\Parameters"@,
            seq![
                dword_view("TcpNoDelay"@, 1, None),
            ],
        ),
        group_view(
            "SOFTWARE\\Microsoft\\Windows NT\\CurrentVersion\\Multimedia\\SystemProfile"@,
            seq![
                dword_view("NetworkThrottlingIndex"@, 20, Some(10)),
                dword_view("SystemResponsiveness"@, 0, Some(20)),
            ],
        ),
        group_view(
            "SOFTWARE\\Microsoft\\Windows NT\\CurrentVersion\\Multimedia\\SystemProfile\\Tasks\\Games"@,
            seq![
                dword_view("Priority"@, 8, Some(2)),
            ],
        ),
        group_view(
            "SOFTWARE\\Microsoft\\Windows NT\\CurrentVersion\\Multimedia\\SystemProfile\\Tasks\\Pro Audio"@,
            seq![
                dword_view("Priority"@, 8, Some(2)),
                text_view("Scheduling Category"@, "Medium"@, Some("High"@)),
            ],
        ),
        group_view(
            "SOFTWARE\\Microsoft\\Windows NT\\CurrentVersion\\Multimedia\\SystemProfile\\Tasks\\Audio"@,
            seq![
                dword_view("Priority"@, 8, Some(2)),
            ],
        ),
        group_view(
            "SOFTWARE\\Microsoft\\Windows NT\\CurrentVersion\\Windows"@,
            seq![
                dword_view("DwmInputUsesIoCompletionPort "@, 0, Some(1)),
                dword_view("EnableDwmInputProcessing"@, 0, Some(7)),
            ],
        ),
        group_view(
            "SYSTEM\\CurrentControlSet\\Control\\GraphicsDrivers"@,
            seq![
                dword_view("HwSchMode"@, 2, None),
            ],
        ),
        group_view(
            "SYSTEM\\CurrentControlSet\\Control\\Nsi\\{eb004a03-9b1a-11d4-9123-0050047759bc}\\0"@,
            seq![
                binary_view(
                    "0200"@,
                    seq![
                        0x00, 0x00, 0x00, 0x00, 0x00, 0x00, 0x01, 0x01, 0x00, 0x00, 0x00, 0x00,
                        0x00, 0x00, 0x00, 0x00, 0x1e, 0x00, 0x00, 0x00, 0x00, 0x00, 0x00, 0x00,
                        0x00, 0x00, 0x00, 0x00, 0x00, 0x00, 0x00, 0x00, 0x00, 0x00, 0x00, 0x00,
                        0x00, 0x00, 0x00, 0x00, 0x01, 0x00, 0x00, 0x00, 0x00, 0x00, 0x00, 0x00,
                        0x00, 0x00, 0xff, 0x00, 0x00, 0xff, 0xff, 0xff, 0x00, 0x00, 0x00, 0x00,
                        0x00, 0x00, 0x00, 0x00, 0xff, 0xff, 0xff, 0xff, 0x00, 0x00, 0x00, 0x00,
                        0x00, 0x00, 0x00, 0x00, 0x00, 0xff, 0x00, 0x00, 0xff, 0xff, 0xff, 0xff,
                        0x00, 0x00, 0x00, 0x00, 0xff, 0x00, 0x00, 0x00, 0x00, 0x00, 0x00, 0x00,
                    ],
                    None,
                ),
                binary_view(
                    "1700"@,
                    seq![
                        0x00, 0x00, 0x00, 0x00, 0x00, 0x00, 0x01, 0x00, 0x00, 0x00, 0x00, 0x00,
                        0x00, 0x00, 0x00, 0x00, 0x1e, 0x00, 0x00, 0x00, 0x00, 0x00, 0x00, 0x00,
                        0x00, 0x00, 0x00, 0x00, 0x00, 0x00, 0x00, 0x00, 0x00, 0x00, 0x00, 0x00,
                        0x00, 0x00, 0x00, 0x00, 0x01, 0x00, 0x00, 0x00, 0x00, 0x00, 0x00, 0x00,
                        0x00, 0x00, 0x00, 0x00, 0x00, 0xff, 0xff, 0x00, 0x00, 0x00, 0x00, 0x00,
                        0x00, 0x00, 0x00, 0x00, 0xff, 0xff, 0xff, 0xff, 0x00, 0x00, 0x00, 0x00,
                        0x00, 0x00, 0x00, 0x00, 0x00, 0xff, 0x00, 0x00, 0xff, 0xff, 0xff, 0xff,
                        0x00, 0x00, 0x00, 0x00, 0xff, 0x00, 0x00, 0x00, 0x00, 0x00, 0x00, 0x00,
                    ],
                    None,
                ),
            ],
        ),
        group_view(
            "SYSTEM\\CurrentControlSet\\Control\\Nsi\\{eb004a03-9b1a-11d4-9123-0050047759bc}\\26"@,
            seq![
                binary_view(
                    "00000000"@,
                    seq![
                        0x00, 0x00, 0x00, 0x00, 0x00, 0x00, 0x00, 0x00, 0x00, 0x00, 0x00, 0x00,
                        0x02, 0x00, 0x00, 0x00, 0x00, 0x00, 0x00, 0x00, 0x00, 0x00, 0x00, 0x00,
                        0x00, 0x00, 0x00, 0x00, 0x00, 0x00, 0x00, 0x00, 0xff, 0x00, 0x00, 0x00,
                        0x00, 0x00, 0x00, 0x00,
                    ],
                    None,
                ),
            ],
        ),
        group_view(
            "SYSTEM\\CurrentControlSet\\Control\\PriorityControl"@,
            seq![
                dword_view("Win32PrioritySeparation"@, 22, Some(2)),
            ],
        ),
        group_view(
            "SYSTEM\\CurrentControlSet\\Services\\Ndis\\Parameters"@,
            seq![
                dword_view("RssBaseCpu"@, 2, None),
                dword_view("MaxNumRssCpus"@, 2, None),
            ],
        ),
        group_view(
            "SYSTEM\\CurrentControlSet\\Services\\Tcpip\\Parameters"@,
            seq![
                dword_view("TcpMaxConnectRetransmissions"@, 1, Some(2)),
                dword_view("TcpMaxDataRetransmissions"@, 1, None),
                dword_view("TcpWindowSize"@, 65535, Some(14674)),
                dword_view("SackOpts"@, 0, Some(1)),
                dword_view("Tcp1323Opts"@, 1, Some(1)),
                dword_view("DisableTaskOffload"@, 0, None),
                dword_view("DefaultTTL"@, 64, None),
                dword_view("TcpTimedWaitDelay"@, 30, None),
            ],
        ),
        group_view(
            "SYSTEM\\ControlSet001\\Control\\GraphicsDrivers\\Scheduler"@,
            seq![
                dword_view("EnablePreemption"@, 0, None),
            ],
        ),
    ]
}

/// The groups of the catalogue under `HKEY_CURRENT_USER`, in order, for a
/// display scale: only the X mouse curve depends on it.
pub open spec fn current_user_catalogue(dpi: u32) -> Seq<GroupView> {
    seq![
        group_view(
            "Control Panel\\Mouse"@,
            seq![
                dword_view("MouseSensitivity"@, 10, None),
                binary_view(
                    "SmoothMouseXCurve"@,
                    smooth_mouse_x_curve(dpi),
                    Some(seq![
                            0x00, 0x00, 0x00, 0x00, 0x00, 0x00, 0x00, 0x00, 0x15, 0x6e, 0x00, 0x00,
                            0x00, 0x00, 0x00, 0x00, 0x00, 0x40, 0x01, 0x00, 0x00, 0x00, 0x00, 0x00,
                            0x29, 0xdc, 0x03, 0x00, 0x00, 0x00, 0x00, 0x00, 0x00, 0x00, 0x28, 0x00,
                            0x00, 0x00, 0x00, 0x00,
                    ]),
                ),
                binary_view(
                    "SmoothMouseYCurve"@,
                    smooth_mouse_y_curve(),
                    Some(seq![
                            0x00, 0x00, 0x00, 0x00, 0x00, 0x00, 0x00, 0x00, 0xfd, 0x11, 0x01, 0x00,
                            0x00, 0x00, 0x00, 0x00, 0x00, 0x24, 0x04, 0x00, 0x00, 0x00, 0x00, 0x00,
                            0x00, 0xfc, 0x12, 0x00, 0x00, 0x00, 0x00, 0x00, 0x00, 0xc0, 0xbb, 0x01,
                            0x00, 0x00, 0x00, 0x00,
                    ]),
                ),
            ],
        ),
        group_view(
            "Software\\Microsoft\\GameBar"@,
            seq![
                dword_view("AllowAutoGameMode"@, 0, None),
                dword_view("ShowStartupPanel"@, 0, None),
                dword_view("GamePanelStartupTipIndex"@, 3, None),
                dword_view("UseNexusForGameBarEnabled"@, 0, None),
            ],
        ),
        group_view(
            "Software\\Microsoft\\Windows\\CurrentVersion\\Explorer\\Serialize"@,
            seq![
                dword_view("StartupDelayInMSec"@, 0, None),
            ],
        ),
        group_view(
            "Software\\Microsoft\\Windows\\CurrentVersion\\GameDVR"@,
            seq![
                dword_view("AppCaptureEnabled"@, 0, None),
            ],
        ),
        group_view(
            "SYSTEM\\GameConfigStore"@,
            seq![
                dword_view("GameDVR_Enabled"@, 0, None),
                dword_view("GameDVR_DSEBehavior"@, 2, None),
                dword_view("GameDVR_FSEBehaviorMode"@, 2, None),
                dword_view("GameDVR_FSEBehavior"@, 2, None),
                dword_view("GameDVR_HonorUserFSEBehaviorMode"@, 1, None),
                dword_view("GameDVR_DXGIHonorFSEWindowsCompatible"@, 1, None),
                dword_view("GameDVR_EFSEFeatureFlags"@, 0, None),
            ],
        ),
    ]
}

/// The groups of the catalogue under `HKEY_USERS`, in order.
pub open spec fn users_catalogue() -> Seq<GroupView> {
    seq![
        group_view(
            ".DEFAULT\\Control Panel\\Mouse"@,
            seq![
                dword_view("MouseSpeed"@, 0, None),
                dword_view("MouseThreshold1"@, 0, None),
                dword_view("MouseThreshold2"@, 0, None),
            ],
        ),
    ]
}

/// No two groups of a root name the same container.
pub proof fn lemma_catalogue_paths_distinct(dpi: u32)
    ensures
        paths_distinct(local_machine_catalogue()),
        paths_distinct(current_user_catalogue(dpi)),
        paths_distinct(users_catalogue()),
{
    let gs = local_machine_catalogue();
    reveal_strlit("SOFTWARE\\Policies\\Microsoft\\Windows\\GameDVR");
    reveal_strlit("SOFTWARE\\Policies\\Microsoft\\Windows\\Psched");
    reveal_strlit("SOFTWARE\\Microsoft\\MSMQ\\Parameters");
    reveal_strlit("SOFTWARE\\Microsoft\\Windows NT\\CurrentVersion\\Multimedia\\SystemProfile");
    reveal_strlit("SOFTWARE\\Microsoft\\Windows NT\\CurrentVersion\\Multimedia\\SystemProfile\\Tasks\\Games");
    reveal_strlit("SOFTWARE\\Microsoft\\Windows NT\\CurrentVersion\\Multimedia\\SystemProfile\\Tasks\\Pro Audio");
    reveal_strlit("SOFTWARE\\Microsoft\\Windows NT\\CurrentVersion\\Multimedia\\SystemProfile\\Tasks\\Audio");
    reveal_strlit("SOFTWARE\\Microsoft\\Windows NT\\CurrentVersion\\Windows");
    reveal_strlit("SYSTEM\\CurrentControlSet\\Control\\GraphicsDrivers");
    reveal_strlit("SYSTEM\\CurrentControlSet\\Control\\Nsi\\{eb004a03-9b1a-11d4-9123-0050047759bc}\\0");
    reveal_strlit("SYSTEM\\CurrentControlSet\\Control\\Nsi\\{eb004a03-9b1a-11d4-9123-0050047759bc}\\26");
    reveal_strlit("SYSTEM\\CurrentControlSet\\Control\\PriorityControl");
    reveal_strlit("SYSTEM\\CurrentControlSet\\Services\\Ndis\\Parameters");
    reveal_strlit("SYSTEM\\CurrentControlSet\\Services\\Tcpip\\Parameters");
    reveal_strlit("SYSTEM\\ControlSet001\\Control\\GraphicsDrivers\\Scheduler");
    assert(gs[0].path == "SOFTWARE\\Policies\\Microsoft\\Windows\\GameDVR"@);
    assert(gs[1].path == "SOFTWARE\\Policies\\Microsoft\\Windows\\Psched"@);
    assert(gs[2].path == "SOFTWARE\\Microsoft\\MSMQ\\Parameters"@);
    assert(gs[3].path == "SOFTWARE\\Microsoft\\Windows NT\\CurrentVersion\\Multimedia\\SystemProfile"@);
    assert(gs[4].path == "SOFTWARE\\Microsoft\\Windows NT\\CurrentVersion\\Multimedia\\SystemProfile\\Tasks\\Games"@);
    assert(gs[5].path == "SOFTWARE\\Microsoft\\Windows NT\\CurrentVersion\\Multimedia\\SystemProfile\\Tasks\\Pro Audio"@);
    assert(gs[6].path == "SOFTWARE\\Microsoft\\Windows NT\\CurrentVersion\\Multimedia\\SystemProfile\\Tasks\\Audio"@);
    assert(gs[7].path == "SOFTWARE\\Microsoft\\Windows NT\\CurrentVersion\\Windows"@);
    assert(gs[8].path == "SYSTEM\\CurrentControlSet\\Control\\GraphicsDrivers"@);
    assert(gs[9].path == "SYSTEM\\CurrentControlSet\\Control\\Nsi\\{eb004a03-9b1a-11d4-9123-0050047759bc}\\0"@);
    assert(gs[10].path == "SYSTEM\\CurrentControlSet\\Control\\Nsi\\{eb004a03-9b1a-11d4-9123-0050047759bc}\\26"@);
    assert(gs[11].path == "SYSTEM\\CurrentControlSet\\Control\\PriorityControl"@);
    assert(gs[12].path == "SYSTEM\\CurrentControlSet\\Services\\Ndis\\Parameters"@);
    assert(gs[13].path == "SYSTEM\\CurrentControlSet\\Services\\Tcpip\\Parameters"@);
    assert(gs[14].path == "SYSTEM\\ControlSet001\\Control\\GraphicsDrivers\\Scheduler"@);
    assert("SOFTWARE\\Microsoft\\Windows NT\\CurrentVersion\\Multimedia\\SystemProfile\\Tasks\\Games"@[76] != "SOFTWARE\\Microsoft\\Windows NT\\CurrentVersion\\Multimedia\\SystemProfile\\Tasks\\Audio"@[76]);
    assert("SYSTEM\\CurrentControlSet\\Control\\GraphicsDrivers"@[33] != "SYSTEM\\CurrentControlSet\\Control\\PriorityControl"@[33]);
    assert forall|i: int, j: int| 0 <= i < j < 15 implies #[trigger] gs[i].path != #[trigger] gs[j].path by {
        assert(i == 0 || i == 1 || i == 2 || i == 3 || i == 4 || i == 5 || i == 6 || i == 7 || i == 8 || i == 9 || i == 10 || i == 11 || i == 12 || i == 13);
        assert(j == 1 || j == 2 || j == 3 || j == 4 || j == 5 || j == 6 || j == 7 || j == 8 || j == 9 || j == 10 || j == 11 || j == 12 || j == 13 || j == 14);
    }
    let gs = current_user_catalogue(dpi);
    reveal_strlit("Control Panel\\Mouse");
    reveal_strlit("Software\\Microsoft\\GameBar");
    reveal_strlit("Software\\Microsoft\\Windows\\CurrentVersion\\Explorer\\Serialize");
    reveal_strlit("Software\\Microsoft\\Windows\\CurrentVersion\\GameDVR");
    reveal_strlit("SYSTEM\\GameConfigStore");
    assert(gs[0].path == "Control Panel\\Mouse"@);
    assert(gs[1].path == "Software\\Microsoft\\GameBar"@);
    assert(gs[2].path == "Software\\Microsoft\\Windows\\CurrentVersion\\Explorer\\Serialize"@);
    assert(gs[3].path == "Software\\Microsoft\\Windows\\CurrentVersion\\GameDVR"@);
    assert(gs[4].path == "SYSTEM\\GameConfigStore"@);
    assert forall|i: int, j: int| 0 <= i < j < 5 implies #[trigger] gs[i].path != #[trigger] gs[j].path by {
        assert(i == 0 || i == 1 || i == 2 || i == 3);
        assert(j == 1 || j == 2 || j == 3 || j == 4);
    }
}

/// The registry catalogue for a display scale (in dots per inch): every
/// setting well formed, and the mouse curves those of that scale.
#[verifier::rlimit(50)]
pub fn factory_settings(dpi: &u32) -> (r: Settings)
    ensures
        r.wf(),
        r.local_machine@.len() == 15,
        r.current_user@.len() == 5,
        r.users@.len() == 1,
        r.current_user@[0].data@.len() == 3,
        r.current_user@[0].data@[1]@.desired == DataView::Binary(smooth_mouse_x_curve(*dpi)),
        r.current_user@[0].data@[2]@.desired == DataView::Binary(smooth_mouse_y_curve()),
        groups_view(r.local_machine@) == local_machine_catalogue(),
        groups_view(r.current_user@) == current_user_catalogue(*dpi),
        groups_view(r.users@) == users_catalogue(),
        paths_distinct(groups_view(r.local_machine@)),
        paths_distinct(groups_view(r.current_user@)),
        paths_distinct(groups_view(r.users@)),
{
    let mut local_machine: Vec<RegTweaks> = Vec::new();
    let g = group(
        "SOFTWARE\\Policies\\Microsoft\\Windows\\GameDVR",
        vec![
            dword("AllowGameDVR", 0, None),
        ],
    );
    assert(group_wf(g@)) by {
        reveal_strlit("AllowGameDVR");
    }
    assert(g@.settings =~= local_machine_catalogue()[0].settings);
    push_group(&mut local_machine, g);
    let g = group(
        "SOFTWARE\\Policies\\Microsoft\\Windows\\Psched",
        vec![
            dword("TimerResolution", 1, None),
            dword("NonBestEffortLimit", 0, None),
        ],
    );
    assert(group_wf(g@)) by {
        reveal_strlit("TimerResolution");
        reveal_strlit("NonBestEffortLimit");
        let s = g@.settings;
        assert(s[0].key == "TimerResolution"@);
        assert(s[1].key == "NonBestEffortLimit"@);
        assert forall|i: int, j: int| 0 <= i < j < 2 implies #[trigger] s[i].key != #[trigger] s[j].key by {
            assert(i == 0);
            assert(j == 1);
        }
    }
    assert(g@.settings =~= local_machine_catalogue()[1].settings);
    push_group(&mut local_machine, g);
    let g = group(
        "SOFTWARE\\Microsoft\\MSMQ\\Parameters",
        vec![
            dword("TcpNoDelay", 1, None),
        ],
    );
    assert(group_wf(g@)) by {
        reveal_strlit("TcpNoDelay");
    }
    assert(g@.settings =~= local_machine_catalogue()[2].settings);
    push_group(&mut local_machine, g);
    let g = group(
        "SOFTWARE\\Microsoft\\Windows NT\\CurrentVersion\\Multimedia\\SystemProfile",
        vec![
            dword("NetworkThrottlingIndex", 20, Some(10)),
            dword("SystemResponsiveness", 0, Some(20)),
        ],
    );
    assert(group_wf(g@)) by {
        reveal_strlit("NetworkThrottlingIndex");
        reveal_strlit("SystemResponsiveness");
        let s = g@.settings;
        assert(s[0].key == "NetworkThrottlingIndex"@);
        assert(s[1].key == "SystemResponsiveness"@);
        assert forall|i: int, j: int| 0 <= i < j < 2 implies #[trigger] s[i].key != #[trigger] s[j].key by {
            assert(i == 0);
            assert(j == 1);
        }
    }
    assert(g@.settings =~= local_machine_catalogue()[3].settings);
    push_group(&mut local_machine, g);
    let g = group(
        "SOFTWARE\\Microsoft\\Windows NT\\CurrentVersion\\Multimedia\\SystemProfile\\Tasks\\Games",
        vec![
            dword("Priority", 8, Some(2)),
        ],
    );
    assert(group_wf(g@)) by {
        reveal_strlit("Priority");
    }
    assert(g@.settings =~= local_machine_catalogue()[4].settings);
    push_group(&mut local_machine, g);
    let g = group(
        "SOFTWARE\\Microsoft\\Windows NT\\CurrentVersion\\Multimedia\\SystemProfile\\Tasks\\Pro Audio",
        vec![
            dword("Priority", 8, Some(2)),
            text("Scheduling Category", "Medium", Some("High")),
        ],
    );
    assert(group_wf(g@)) by {
        reveal_strlit("Priority");
        reveal_strlit("Scheduling Category");
        let s = g@.settings;
        assert(s[0].key == "Priority"@);
        assert(s[1].key == "Scheduling Category"@);
        assert forall|i: int, j: int| 0 <= i < j < 2 implies #[trigger] s[i].key != #[trigger] s[j].key by {
            assert(i == 0);
            assert(j == 1);
        }
    }
    assert(g@.settings =~= local_machine_catalogue()[5].settings);
    push_group(&mut local_machine, g);
    let g = group(
        "SOFTWARE\\Microsoft\\Windows NT\\CurrentVersion\\Multimedia\\SystemProfile\\Tasks\\Audio",
        vec![
            dword("Priority", 8, Some(2)),
        ],
    );
    assert(group_wf(g@)) by {
        reveal_strlit("Priority");
    }
    assert(g@.settings =~= local_machine_catalogue()[6].settings);
    push_group(&mut local_machine, g);
    let g = group(
        "SOFTWARE\\Microsoft\\Windows NT\\CurrentVersion\\Windows",
        vec![
            dword("DwmInputUsesIoCompletionPort ", 0, Some(1)),
            dword("EnableDwmInputProcessing", 0, Some(7)),
        ],
    );
    assert(group_wf(g@)) by {
        reveal_strlit("DwmInputUsesIoCompletionPort ");
        reveal_strlit("EnableDwmInputProcessing");
        let s = g@.settings;
        assert(s[0].key == "DwmInputUsesIoCompletionPort "@);
        assert(s[1].key == "EnableDwmInputProcessing"@);
        assert forall|i: int, j: int| 0 <= i < j < 2 implies #[trigger] s[i].key != #[trigger] s[j].key by {
            assert(i == 0);
            assert(j == 1);
        }
    }
    assert(g@.settings =~= local_machine_catalogue()[7].settings);
    push_group(&mut local_machine, g);
    let g = group(
        "SYSTEM\\CurrentControlSet\\Control\\GraphicsDrivers",
        vec![
            dword("HwSchMode", 2, None),
        ],
    );
    assert(group_wf(g@)) by {
        reveal_strlit("HwSchMode");
    }
    assert(g@.settings =~= local_machine_catalogue()[8].settings);
    push_group(&mut local_machine, g);
    let g = group(
        "SYSTEM\\CurrentControlSet\\Control\\Nsi\\{eb004a03-9b1a-11d4-9123-0050047759bc}\\0",
        vec![
            binary(
                "0200",
                vec![
                    0x00, 0x00, 0x00, 0x00, 0x00, 0x00, 0x01, 0x01, 0x00, 0x00, 0x00, 0x00,
                    0x00, 0x00, 0x00, 0x00, 0x1e, 0x00, 0x00, 0x00, 0x00, 0x00, 0x00, 0x00,
                    0x00, 0x00, 0x00, 0x00, 0x00, 0x00, 0x00, 0x00, 0x00, 0x00, 0x00, 0x00,
                    0x00, 0x00, 0x00, 0x00, 0x01, 0x00, 0x00, 0x00, 0x00, 0x00, 0x00, 0x00,
                    0x00, 0x00, 0xff, 0x00, 0x00, 0xff, 0xff, 0xff, 0x00, 0x00, 0x00, 0x00,
                    0x00, 0x00, 0x00, 0x00, 0xff, 0xff, 0xff, 0xff, 0x00, 0x00, 0x00, 0x00,
                    0x00, 0x00, 0x00, 0x00, 0x00, 0xff, 0x00, 0x00, 0xff, 0xff, 0xff, 0xff,
                    0x00, 0x00, 0x00, 0x00, 0xff, 0x00, 0x00, 0x00, 0x00, 0x00, 0x00, 0x00,
                ],
                None,
            ),
            binary(
                "1700",
                vec![
                    0x00, 0x00, 0x00, 0x00, 0x00, 0x00, 0x01, 0x00, 0x00, 0x00, 0x00, 0x00,
                    0x00, 0x00, 0x00, 0x00, 0x1e, 0x00, 0x00, 0x00, 0x00, 0x00, 0x00, 0x00,
                    0x00, 0x00, 0x00, 0x00, 0x00, 0x00, 0x00, 0x00, 0x00, 0x00, 0x00, 0x00,
                    0x00, 0x00, 0x00, 0x00, 0x01, 0x00, 0x00, 0x00, 0x00, 0x00, 0x00, 0x00,
                    0x00, 0x00, 0x00, 0x00, 0x00, 0xff, 0xff, 0x00, 0x00, 0x00, 0x00, 0x00,
                    0x00, 0x00, 0x00, 0x00, 0xff, 0xff, 0xff, 0xff, 0x00, 0x00, 0x00, 0x00,
                    0x00, 0x00, 0x00, 0x00, 0x00, 0xff, 0x00, 0x00, 0xff, 0xff, 0xff, 0xff,
                    0x00, 0x00, 0x00, 0x00, 0xff, 0x00, 0x00, 0x00, 0x00, 0x00, 0x00, 0x00,
                ],
                None,
            ),
        ],
    );
    assert(group_wf(g@)) by {
        reveal_strlit("0200");
        reveal_strlit("1700");
        assert("0200"@[0] != "1700"@[0]);
        let s = g@.settings;
        assert(s[0].key == "0200"@);
        assert(s[1].key == "1700"@);
        assert forall|i: int, j: int| 0 <= i < j < 2 implies #[trigger] s[i].key != #[trigger] s[j].key by {
            assert(i == 0);
            assert(j == 1);
        }
    }
    assert(g@.settings =~= local_machine_catalogue()[9].settings);
    push_group(&mut local_machine, g);
    let g = group(
        "SYSTEM\\CurrentControlSet\\Control\\Nsi\\{eb004a03-9b1a-11d4-9123-0050047759bc}\\26",
        vec![
            binary(
                "00000000",
                vec![
                    0x00, 0x00, 0x00, 0x00, 0x00, 0x00, 0x00, 0x00, 0x00, 0x00, 0x00, 0x00,
                    0x02, 0x00, 0x00, 0x00, 0x00, 0x00, 0x00, 0x00, 0x00, 0x00, 0x00, 0x00,
                    0x00, 0x00, 0x00, 0x00, 0x00, 0x00, 0x00, 0x00, 0xff, 0x00, 0x00, 0x00,
                    0x00, 0x00, 0x00, 0x00,
                ],
                None,
            ),
        ],
    );
    assert(group_wf(g@)) by {
        reveal_strlit("00000000");
    }
    assert(g@.settings =~= local_machine_catalogue()[10].settings);
    push_group(&mut local_machine, g);
    let g = group(
        "SYSTEM\\CurrentControlSet\\Control\\PriorityControl",
        vec![
            dword("Win32PrioritySeparation", 22, Some(2)),
        ],
    );
    assert(group_wf(g@)) by {
        reveal_strlit("Win32PrioritySeparation");
    }
    assert(g@.settings =~= local_machine_catalogue()[11].settings);
    push_group(&mut local_machine, g);
    let g = group(
        "SYSTEM\\CurrentControlSet\\Services\\Ndis\\Parameters",
        vec![
            dword("RssBaseCpu", 2, None),
            dword("MaxNumRssCpus", 2, None),
        ],
    );
    assert(group_wf(g@)) by {
        reveal_strlit("RssBaseCpu");
        reveal_strlit("MaxNumRssCpus");
        let s = g@.settings;
        assert(s[0].key == "RssBaseCpu"@);
        assert(s[1].key == "MaxNumRssCpus"@);
        assert forall|i: int, j: int| 0 <= i < j < 2 implies #[trigger] s[i].key != #[trigger] s[j].key by {
            assert(i == 0);
            assert(j == 1);
        }
    }
    assert(g@.settings =~= local_machine_catalogue()[12].settings);
    push_group(&mut local_machine, g);
    let g = group(
        "SYSTEM\\CurrentControlSet\\Services\\Tcpip\\Parameters",
        vec![
            dword("TcpMaxConnectRetransmissions", 1, Some(2)),
            dword("TcpMaxDataRetransmissions", 1, None),
            dword("TcpWindowSize", 65535, Some(14674)),
            dword("SackOpts", 0, Some(1)),
            dword("Tcp1323Opts", 1, Some(1)),
            dword("DisableTaskOffload", 0, None),
            dword("DefaultTTL", 64, None),
            dword("TcpTimedWaitDelay", 30, None),
        ],
    );
    assert(group_wf(g@)) by {
        reveal_strlit("TcpMaxConnectRetransmissions");
        reveal_strlit("TcpMaxDataRetransmissions");
        reveal_strlit("TcpWindowSize");
        reveal_strlit("SackOpts");
        reveal_strlit("Tcp1323Opts");
        reveal_strlit("DisableTaskOffload");
        reveal_strlit("DefaultTTL");
        reveal_strlit("TcpTimedWaitDelay");
        let s = g@.settings;
        assert(s[0].key == "TcpMaxConnectRetransmissions"@);
        assert(s[1].key == "TcpMaxDataRetransmissions"@);
        assert(s[2].key == "TcpWindowSize"@);
        assert(s[3].key == "SackOpts"@);
        assert(s[4].key == "Tcp1323Opts"@);
        assert(s[5].key == "DisableTaskOffload"@);
        assert(s[6].key == "DefaultTTL"@);
        assert(s[7].key == "TcpTimedWaitDelay"@);
        assert forall|i: int, j: int| 0 <= i < j < 8 implies #[trigger] s[i].key != #[trigger] s[j].key by {
            assert(i == 0 || i == 1 || i == 2 || i == 3 || i == 4 || i == 5 || i == 6);
            assert(j == 1 || j == 2 || j == 3 || j == 4 || j == 5 || j == 6 || j == 7);
        }
    }
    assert(g@.settings =~= local_machine_catalogue()[13].settings);
    push_group(&mut local_machine, g);
    let g = group(
        "SYSTEM\\ControlSet001\\Control\\GraphicsDrivers\\Scheduler",
        vec![
            dword("EnablePreemption", 0, None),
        ],
    );
    assert(group_wf(g@)) by {
        reveal_strlit("EnablePreemption");
    }
    assert(g@.settings =~= local_machine_catalogue()[14].settings);
    push_group(&mut local_machine, g);
    let mut current_user: Vec<RegTweaks> = Vec::new();
    let g = group(
        "Control Panel\\Mouse",
        vec![
            dword("MouseSensitivity", 10, None),
            binary(
                "SmoothMouseXCurve",
                get_smooth_mouse_x_curve(*dpi),
                Some(vec![
                        0x00, 0x00, 0x00, 0x00, 0x00, 0x00, 0x00, 0x00, 0x15, 0x6e, 0x00, 0x00,
                        0x00, 0x00, 0x00, 0x00, 0x00, 0x40, 0x01, 0x00, 0x00, 0x00, 0x00, 0x00,
                        0x29, 0xdc, 0x03, 0x00, 0x00, 0x00, 0x00, 0x00, 0x00, 0x00, 0x28, 0x00,
                        0x00, 0x00, 0x00, 0x00,
                ]),
            ),
            binary(
                "SmoothMouseYCurve",
                get_smooth_mouse_y_curve(*dpi),
                Some(vec![
                        0x00, 0x00, 0x00, 0x00, 0x00, 0x00, 0x00, 0x00, 0xfd, 0x11, 0x01, 0x00,
                        0x00, 0x00, 0x00, 0x00, 0x00, 0x24, 0x04, 0x00, 0x00, 0x00, 0x00, 0x00,
                        0x00, 0xfc, 0x12, 0x00, 0x00, 0x00, 0x00, 0x00, 0x00, 0xc0, 0xbb, 0x01,
                        0x00, 0x00, 0x00, 0x00,
                ]),
            ),
        ],
    );
    assert(group_wf(g@)) by {
        reveal_strlit("MouseSensitivity");
        reveal_strlit("SmoothMouseXCurve");
        reveal_strlit("SmoothMouseYCurve");
        assert("SmoothMouseXCurve"@[11] != "SmoothMouseYCurve"@[11]);
        let s = g@.settings;
        assert(s[0].key == "MouseSensitivity"@);
        assert(s[1].key == "SmoothMouseXCurve"@);
        assert(s[2].key == "SmoothMouseYCurve"@);
        assert forall|i: int, j: int| 0 <= i < j < 3 implies #[trigger] s[i].key != #[trigger] s[j].key by {
            assert(i == 0 || i == 1);
            assert(j == 1 || j == 2);
        }
    }
    assert(g@.settings =~= current_user_catalogue(*dpi)[0].settings);
    push_group(&mut current_user, g);
    let g = group(
        "Software\\Microsoft\\GameBar",
        vec![
            dword("AllowAutoGameMode", 0, None),
            dword("ShowStartupPanel", 0, None),
            dword("GamePanelStartupTipIndex", 3, None),
            dword("UseNexusForGameBarEnabled", 0, None),
        ],
    );
    assert(group_wf(g@)) by {
        reveal_strlit("AllowAutoGameMode");
        reveal_strlit("ShowStartupPanel");
        reveal_strlit("GamePanelStartupTipIndex");
        reveal_strlit("UseNexusForGameBarEnabled");
        let s = g@.settings;
        assert(s[0].key == "AllowAutoGameMode"@);
        assert(s[1].key == "ShowStartupPanel"@);
        assert(s[2].key == "GamePanelStartupTipIndex"@);
        assert(s[3].key == "UseNexusForGameBarEnabled"@);
        assert forall|i: int, j: int| 0 <= i < j < 4 implies #[trigger] s[i].key != #[trigger] s[j].key by {
            assert(i == 0 || i == 1 || i == 2);
            assert(j == 1 || j == 2 || j == 3);
        }
    }
    assert(g@.settings =~= current_user_catalogue(*dpi)[1].settings);
    push_group(&mut current_user, g);
    let g = group(
        "Software\\Microsoft\\Windows\\CurrentVersion\\Explorer\\Serialize",
        vec![
            dword("StartupDelayInMSec", 0, None),
        ],
    );
    assert(group_wf(g@)) by {
        reveal_strlit("StartupDelayInMSec");
    }
    assert(g@.settings =~= current_user_catalogue(*dpi)[2].settings);
    push_group(&mut current_user, g);
    let g = group(
        "Software\\Microsoft\\Windows\\CurrentVersion\\GameDVR",
        vec![
            dword("AppCaptureEnabled", 0, None),
        ],
    );
    assert(group_wf(g@)) by {
        reveal_strlit("AppCaptureEnabled");
    }
    assert(g@.settings =~= current_user_catalogue(*dpi)[3].settings);
    push_group(&mut current_user, g);
    let g = group(
        "SYSTEM\\GameConfigStore",
        vec![
            dword("GameDVR_Enabled", 0, None),
            dword("GameDVR_DSEBehavior", 2, None),
            dword("GameDVR_FSEBehaviorMode", 2, None),
            dword("GameDVR_FSEBehavior", 2, None),
            dword("GameDVR_HonorUserFSEBehaviorMode", 1, None),
            dword("GameDVR_DXGIHonorFSEWindowsCompatible", 1, None),
            dword("GameDVR_EFSEFeatureFlags", 0, None),
        ],
    );
    assert(group_wf(g@)) by {
        reveal_strlit("GameDVR_Enabled");
        reveal_strlit("GameDVR_DSEBehavior");
        reveal_strlit("GameDVR_FSEBehaviorMode");
        reveal_strlit("GameDVR_FSEBehavior");
        reveal_strlit("GameDVR_HonorUserFSEBehaviorMode");
        reveal_strlit("GameDVR_DXGIHonorFSEWindowsCompatible");
        reveal_strlit("GameDVR_EFSEFeatureFlags");
        assert("GameDVR_DSEBehavior"@[8] != "GameDVR_FSEBehavior"@[8]);
        let s = g@.settings;
        assert(s[0].key == "GameDVR_Enabled"@);
        assert(s[1].key == "GameDVR_DSEBehavior"@);
        assert(s[2].key == "GameDVR_FSEBehaviorMode"@);
        assert(s[3].key == "GameDVR_FSEBehavior"@);
        assert(s[4].key == "GameDVR_HonorUserFSEBehaviorMode"@);
        assert(s[5].key == "GameDVR_DXGIHonorFSEWindowsCompatible"@);
        assert(s[6].key == "GameDVR_EFSEFeatureFlags"@);
        assert forall|i: int, j: int| 0 <= i < j < 7 implies #[trigger] s[i].key != #[trigger] s[j].key by {
            assert(i == 0 || i == 1 || i == 2 || i == 3 || i == 4 || i == 5);
            assert(j == 1 || j == 2 || j == 3 || j == 4 || j == 5 || j == 6);
        }
    }
    assert(g@.settings =~= current_user_catalogue(*dpi)[4].settings);
    push_group(&mut current_user, g);
    let mut users: Vec<RegTweaks> = Vec::new();
    let g = group(
        ".DEFAULT\\Control Panel\\Mouse",
        vec![
            dword("MouseSpeed", 0, None),
            dword("MouseThreshold1", 0, None),
            dword("MouseThreshold2", 0, None),
        ],
    );
    assert(group_wf(g@)) by {
        reveal_strlit("MouseSpeed");
        reveal_strlit("MouseThreshold1");
        reveal_strlit("MouseThreshold2");
        assert("MouseThreshold1"@[14] != "MouseThreshold2"@[14]);
        let s = g@.settings;
        assert(s[0].key == "MouseSpeed"@);
        assert(s[1].key == "MouseThreshold1"@);
        assert(s[2].key == "MouseThreshold2"@);
        assert forall|i: int, j: int| 0 <= i < j < 3 implies #[trigger] s[i].key != #[trigger] s[j].key by {
            assert(i == 0 || i == 1);
            assert(j == 1 || j == 2);
        }
    }
    assert(g@.settings =~= users_catalogue()[0].settings);
    push_group(&mut users, g);
    assert(groups_view(local_machine@) =~= local_machine_catalogue());
    assert(groups_view(current_user@) =~= current_user_catalogue(*dpi));
    assert(groups_view(users@) =~= users_catalogue());
    proof {
        lemma_catalogue_paths_distinct(*dpi);
    }
    Settings { local_machine, current_user, users }
}

} // verus!
