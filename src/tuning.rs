use vstd::prelude::*;

use crate::descriptor::{dword, group_wf, RegTweaks, Setting, SettingView};
use crate::reconcile::Outcome;
use crate::value::DataView;

verus! {

/// The scheduling priorities wanted for one process, by executable name.
/// Each field that is present becomes one setting of the process's
/// `PerfOptions` container.
pub struct CpuPriority {
    pub process: String,
    pub cpu_priority_class: Option<u32>,
    pub io_priority: Option<u32>,
    pub page_priority: Option<u32>,
    pub working_set_limit_in_kb: Option<u32>,
}

/// The setting of an optional priority field: one setting without a
/// default where the field is present, none where it is absent.
pub open spec fn optional_setting(key: Seq<char>, value: Option<u32>) -> Seq<SettingView> {
    match value {
        Some(n) => seq![SettingView { key, desired: DataView::Dword(n), default: None }],
        None => Seq::empty(),
    }
}

/// The settings of a process's `PerfOptions` container, in field order.
pub open spec fn priority_settings(p: CpuPriority) -> Seq<SettingView> {
    optional_setting("CpuPriorityClass"@, p.cpu_priority_class) + optional_setting(
        "IoPriority"@,
        p.io_priority,
    ) + optional_setting("PagePriority"@, p.page_priority) + optional_setting(
        "WorkingSetLimitInKB"@,
        p.working_set_limit_in_kb,
    )
}

fn push_optional(data: &mut Vec<Setting>, key: &str, value: Option<u32>)
    ensures
        final(data)@.map_values(|s: Setting| s@) == old(data)@.map_values(|s: Setting| s@)
            + optional_setting(key@, value),
{
    match value {
        Some(n) => {
            data.push(dword(key, n, None));
            assert(final(data)@.map_values(|s: Setting| s@) =~= old(data)@.map_values(|s: Setting| s@)
                + optional_setting(key@, value));
        },
        None => {
            assert(old(data)@.map_values(|s: Setting| s@) + optional_setting(key@, value)
                =~= old(data)@.map_values(|s: Setting| s@));
        },
    }
}

impl CpuPriority {
    /// The container group of the process's `PerfOptions` key, relative to
    /// the image file execution options.
    pub fn perf_options(&self) -> (r: RegTweaks)
        ensures
            r@.path == self.process@ + "\\PerfOptions"@,
            r@.settings == priority_settings(*self),
            group_wf(r@),
    {
        let path = self.process.clone().concat("\\PerfOptions");
        let mut data: Vec<Setting> = Vec::new();
        assert(data@.map_values(|s: Setting| s@) =~= Seq::<SettingView>::empty());
        push_optional(&mut data, "CpuPriorityClass", self.cpu_priority_class);
        push_optional(&mut data, "IoPriority", self.io_priority);
        push_optional(&mut data, "PagePriority", self.page_priority);
        push_optional(&mut data, "WorkingSetLimitInKB", self.working_set_limit_in_kb);
        proof {
            let a = optional_setting("CpuPriorityClass"@, self.cpu_priority_class);
            let b = optional_setting("IoPriority"@, self.io_priority);
            let c = optional_setting("PagePriority"@, self.page_priority);
            let d = optional_setting("WorkingSetLimitInKB"@, self.working_set_limit_in_kb);
            assert(Seq::<SettingView>::empty() + a + b + c + d =~= priority_settings(*self));
            reveal_strlit("CpuPriorityClass");
            reveal_strlit("IoPriority");
            reveal_strlit("PagePriority");
            reveal_strlit("WorkingSetLimitInKB");
            let s = priority_settings(*self);
            assert forall|i: int, j: int| 0 <= i < j < s.len() implies #[trigger] s[i].key
                != #[trigger] s[j].key by {
                assert(s[i].key.len() != s[j].key.len());
            }
        }
        RegTweaks { path, data }
    }
}

/// The display scale, in dots per inch, of a system without scaling.
pub const DEFAULT_DPI: u32 = 96;

/// The display scale in effect: the logged pixel density where scaling is
/// switched on (`Win8DpiScaling` non-zero), else the unscaled density. A
/// value that cannot be read counts as absent.
pub fn effective_dpi(win8_dpi_scaling: Option<u32>, log_pixels: Option<u32>) -> (r: u32)
    ensures
        r == match win8_dpi_scaling {
            Some(s) => if s != 0 {
                match log_pixels {
                    Some(p) => p,
                    None => DEFAULT_DPI,
                }
            } else {
                DEFAULT_DPI
            },
            None => DEFAULT_DPI,
        },
{
    match win8_dpi_scaling {
        Some(s) => if s != 0 {
            match log_pixels {
                Some(p) => p,
                None => DEFAULT_DPI,
            }
        } else {
            DEFAULT_DPI
        },
        None => DEFAULT_DPI,
    }
}

/// The check of an audio endpoint's speaker configuration.
#[derive(Clone, Copy, Debug, PartialEq, Eq, Structural)]
pub struct SpeakersStep {
    pub outcome: Outcome,
    /// Whether the full-range mask is to be set to the physical mask.
    pub set: bool,
}

/// The audio endpoint uses its full bandwidth when its full-range speaker
/// mask equals its physical speaker mask (the mask is never absent); a run
/// that writes sets it where it differs, and only there.
pub fn plan_speakers(physical_speakers: i32, full_range_speakers: i32, write_settings: bool) -> (r:
    SpeakersStep)
    ensures
        r.outcome == if physical_speakers == full_range_speakers {
            Outcome::Correct
        } else {
            Outcome::Wrong
        },
        r.set == (write_settings && physical_speakers != full_range_speakers),
{
    if physical_speakers == full_range_speakers {
        SpeakersStep { outcome: Outcome::Correct, set: false }
    } else {
        SpeakersStep { outcome: Outcome::Wrong, set: write_settings }
    }
}

} // verus!
