//! Desktop-environment classification and the capability downgrade rule.
//!
//! The classifier is a pure function over the probe results that the caller
//! gathered (which control tools exist on the machine, and whether the Plasma
//! shell process is running). The decision order is fixed: Plasma 6 before
//! Plasma 5, then the single-shot Plasma tool, then GNOME, then feh, and
//! `Unknown` when nothing usable was found.

use vstd::prelude::*;
use vstd::string::StringExecFns;

use crate::text::all_digits;
use crate::text::chars_vec;
use crate::text::dec_val;
use crate::text::parse_usize;
use crate::text::trim_bounds;
use crate::text::trimmed;

verus! {

/// How wallpapers are distributed over display targets.
#[derive(Debug, Clone, Copy, PartialEq, Eq, Structural)]
pub enum WallpaperMode {
    Monitors,
    VirtualDesktops,
    Both,
}

/// The classified wallpaper-control surface of the host.
#[derive(Debug, Clone, Copy, PartialEq, Eq, Structural)]
pub enum DesktopEnvironment {
    KdePlasma6,
    KdePlasma5,
    PlasmaFallback,
    Gnome,
    Feh,
    Unknown,
}

/// Which wallpaper tools the host offers, as probed by the caller.
#[derive(Debug, Clone, Copy, PartialEq, Eq, Structural)]
pub struct ToolAvailability {
    /// `qdbus6` is on the search path.
    pub qdbus6: bool,
    /// `qdbus` is on the search path.
    pub qdbus: bool,
    /// A `plasmashell` process is running.
    pub plasmashell_running: bool,
    /// `plasma-apply-wallpaperimage` is on the search path.
    pub plasma_apply_wallpaperimage: bool,
    /// `gsettings` is on the search path.
    pub gsettings: bool,
    /// `feh` is on the search path.
    pub feh: bool,
}

/// The classification policy: first match wins.
pub open spec fn spec_classify(t: ToolAvailability) -> DesktopEnvironment {
    if t.qdbus6 && t.plasmashell_running {
        DesktopEnvironment::KdePlasma6
    } else if t.qdbus && t.plasmashell_running {
        DesktopEnvironment::KdePlasma5
    } else if t.plasma_apply_wallpaperimage {
        DesktopEnvironment::PlasmaFallback
    } else if t.gsettings {
        DesktopEnvironment::Gnome
    } else if t.feh {
        DesktopEnvironment::Feh
    } else {
        DesktopEnvironment::Unknown
    }
}

/// Classify the desktop environment from the probed tool availability.
///
/// Absence of every tool yields `Unknown`; classification never fails.
pub fn detect_desktop_environment(tools: &ToolAvailability) -> (de: DesktopEnvironment)
    ensures
        de == spec_classify(*tools),
{
    if tools.qdbus6 && tools.plasmashell_running {
        DesktopEnvironment::KdePlasma6
    } else if tools.qdbus && tools.plasmashell_running {
        DesktopEnvironment::KdePlasma5
    } else if tools.plasma_apply_wallpaperimage {
        DesktopEnvironment::PlasmaFallback
    } else if tools.gsettings {
        DesktopEnvironment::Gnome
    } else if tools.feh {
        DesktopEnvironment::Feh
    } else {
        DesktopEnvironment::Unknown
    }
}

/// The downgrade policy: only KDE Plasma 6 supports multi-target modes, so
/// every other environment is reduced to a single-monitor request.
pub open spec fn spec_effective_mode(de: DesktopEnvironment, requested: WallpaperMode) -> WallpaperMode {
    if de is KdePlasma6 {
        requested
    } else {
        WallpaperMode::Monitors
    }
}

/// Reduce the requested mode to what the classified environment supports.
pub fn effective_mode(de: DesktopEnvironment, requested: WallpaperMode) -> (m: WallpaperMode)
    ensures
        m == spec_effective_mode(de, requested),
{
    match de {
        DesktopEnvironment::KdePlasma6 => requested,
        _ => WallpaperMode::Monitors,
    }
}

/// The label the mode is printed and logged under.
pub open spec fn spec_mode_label(m: WallpaperMode) -> Seq<char> {
    match m {
        WallpaperMode::Monitors => "monitors"@,
        WallpaperMode::VirtualDesktops => "virtual-desktops"@,
        WallpaperMode::Both => "both"@,
    }
}

impl WallpaperMode {
    /// Render the mode as its command-line spelling.
    pub fn label(&self) -> (r: String)
        ensures
            r@ == spec_mode_label(*self),
    {
        match self {
            WallpaperMode::Monitors => String::from_str("monitors"),
            WallpaperMode::VirtualDesktops => String::from_str("virtual-desktops"),
            WallpaperMode::Both => String::from_str("both"),
        }
    }
}

/// What a count probe's captured output means: the trimmed text read as a
/// decimal number, or the default of 1 when it is empty, not numeric, too
/// large for the machine, or zero (a display topology always has at least
/// one target).
pub open spec fn spec_count_from_probe(s: Seq<char>) -> int {
    let t = trimmed(s);
    if t.len() > 0 && all_digits(t) && 1 <= dec_val(t) <= usize::MAX {
        dec_val(t)
    } else {
        1
    }
}

/// Read a count from captured probe output, defaulting to 1.
pub fn count_from_probe(s: &str) -> (n: usize)
    ensures
        n >= 1,
        n as int == spec_count_from_probe(s@),
{
    let v = chars_vec(s);
    let bounds = trim_bounds(&v);
    match parse_usize(&v, bounds.0, bounds.1) {
        Some(k) => if k >= 1 {
            k
        } else {
            1
        },
        None => 1,
    }
}

/// The scripting tool used to query and drive the Plasma shell, when the
/// classified environment has one.
pub fn monitor_query_tool(de: DesktopEnvironment) -> (r: Option<&'static str>)
    ensures
        de is KdePlasma6 ==> (r matches Some(t) && t@ == "qdbus6"@),
        de is KdePlasma5 ==> (r matches Some(t) && t@ == "qdbus"@),
        !(de is KdePlasma6 || de is KdePlasma5) ==> r is None,
{
    match de {
        DesktopEnvironment::KdePlasma6 => Some("qdbus6"),
        DesktopEnvironment::KdePlasma5 => Some("qdbus"),
        _ => None,
    }
}

/// The monitor count for the classified environment.
///
/// `raw` is the captured output of the desktop-enumeration query, or `None`
/// when the probe could not be run. Only the two Plasma environments can be
/// queried; every other kind has one target without any probe, and a failed
/// or unreadable probe defaults to 1.
pub fn monitor_count(de: DesktopEnvironment, raw: &Option<String>) -> (n: usize)
    ensures
        n >= 1,
        (de is KdePlasma6 || de is KdePlasma5) ==> n as int == (match raw {
            Some(s) => spec_count_from_probe(s@),
            None => 1,
        }),
        !(de is KdePlasma6 || de is KdePlasma5) ==> n == 1,
{
    match de {
        DesktopEnvironment::KdePlasma6 | DesktopEnvironment::KdePlasma5 => match raw {
            Some(s) => count_from_probe(s.as_str()),
            None => 1,
        },
        _ => 1,
    }
}

/// The virtual-desktop count for the classified environment.
///
/// Only KDE Plasma 6 supports per-virtual-desktop wallpapers, so only it is
/// ever queried; every other kind yields 1, and a failed or unreadable probe
/// defaults to 1.
pub fn virtual_desktop_count(de: DesktopEnvironment, raw: &Option<String>) -> (n: usize)
    ensures
        n >= 1,
        de is KdePlasma6 ==> n as int == (match raw {
            Some(s) => spec_count_from_probe(s@),
            None => 1,
        }),
        !(de is KdePlasma6) ==> n == 1,
{
    match de {
        DesktopEnvironment::KdePlasma6 => match raw {
            Some(s) => count_from_probe(s.as_str()),
            None => 1,
        },
        _ => 1,
    }
}

/// The request survives the downgrade exactly when the environment is KDE
/// Plasma 6 or the request was already the single-target `Monitors` mode;
/// on every other environment the result is `Monitors` whatever was asked.
pub proof fn lemma_effective_mode_downgrade(de: DesktopEnvironment, requested: WallpaperMode)
    ensures
        spec_effective_mode(de, requested) == requested <==> (de is KdePlasma6
            || requested is Monitors),
        !(de is KdePlasma6) ==> spec_effective_mode(de, requested) is Monitors,
{
}

} // verus!
