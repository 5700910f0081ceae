//! The applier plan: which concrete "set wallpaper" invocations a plan of
//! assignments turns into, per environment, and how per-target outcomes are
//! recorded.
//!
//! The library only computes the calls and records what came back; running
//! the external tools is the unverified shell's job. A failed call never
//! cancels the rest of the batch, and never fails the operation as a whole.

use vstd::prelude::*;
use vstd::string::StringExecFns;

use crate::assign::WallpaperAssignment;
use crate::assign::assignment_plan_ok;
use crate::environment::DesktopEnvironment;
use crate::environment::WallpaperMode;
use crate::environment::spec_effective_mode;
use crate::errors::PhotoError;
use crate::text::chars_vec;
use crate::text::dec_rep;
use crate::text::push_dec;
use crate::text::string_of_chars;

verus! {

/// One concrete invocation of the environment's wallpaper mechanism.
#[derive(Debug)]
pub struct ApplyCall {
    /// The monitor the mechanism addresses (0-based; 0 for single-target
    /// tools, which ignore it).
    pub monitor_index: usize,
    /// The photo handed to the tool.
    pub photo_path: String,
    /// The target label the invocation is reported under.
    pub location: String,
}

/// The recorded result of one apply invocation.
#[derive(Debug)]
pub struct ApplyOutcome {
    /// The target label the invocation was reported under.
    pub location: String,
    /// Whether the tool reported success.
    pub success: bool,
    /// The tool's diagnostic output on failure, empty on success.
    pub detail: String,
}

/// What a correct call plan looks like, by environment and effective mode.
///
/// - Plasma 6 in `VirtualDesktops` mode writes each assignment's photo to
///   every monitor, because the mechanism addresses monitors.
/// - Plasma 6 in `Both` mode addresses monitor `i % monitors` for the `i`-th
///   assignment; in `Monitors` mode, and always on Plasma 5, monitor `i`.
/// - The single-target tools get exactly one call, for the primary
///   assignment.
pub open spec fn apply_plan_ok(
    calls: Seq<ApplyCall>,
    de: DesktopEnvironment,
    mode: WallpaperMode,
    a: Seq<WallpaperAssignment>,
    monitors: int,
) -> bool {
    if de is Unknown {
        false
    } else if de is KdePlasma6 && mode is VirtualDesktops {
        &&& calls.len() == a.len() * monitors
        &&& forall|k: int|
            0 <= k < calls.len() ==> (#[trigger] calls[k]).monitor_index as int == k % monitors
        &&& forall|k: int|
            0 <= k < calls.len() ==> (#[trigger] calls[k]).photo_path@ == a[k / monitors].photo_path@
        &&& forall|k: int|
            0 <= k < calls.len() ==> (#[trigger] calls[k]).location@ == a[k / monitors].location@
    } else if de is KdePlasma6 && mode is Both {
        &&& calls.len() == a.len()
        &&& forall|k: int|
            0 <= k < calls.len() ==> (#[trigger] calls[k]).monitor_index as int == k % monitors
        &&& forall|k: int|
            0 <= k < calls.len() ==> (#[trigger] calls[k]).photo_path@ == a[k].photo_path@
        &&& forall|k: int|
            0 <= k < calls.len() ==> (#[trigger] calls[k]).location@ == a[k].location@
    } else if de is KdePlasma6 || de is KdePlasma5 {
        &&& calls.len() == a.len()
        &&& forall|k: int|
            0 <= k < calls.len() ==> (#[trigger] calls[k]).monitor_index as int == k
        &&& forall|k: int|
            0 <= k < calls.len() ==> (#[trigger] calls[k]).photo_path@ == a[k].photo_path@
        &&& forall|k: int|
            0 <= k < calls.len() ==> (#[trigger] calls[k]).location@ == a[k].location@
    } else {
        if a.len() == 0 {
            calls.len() == 0
        } else {
            &&& calls.len() == 1
            &&& calls[0].monitor_index == 0
            &&& calls[0].photo_path@ == a[0].photo_path@
            &&& calls[0].location@ == a[0].location@
        }
    }
}

/// Turn an assignment plan into the list of apply invocations to make, in
/// order.
pub fn plan_apply_calls(
    de: DesktopEnvironment,
    mode: WallpaperMode,
    assignments: &Vec<WallpaperAssignment>,
    monitor_count: usize,
) -> (calls: Vec<ApplyCall>)
    requires
        !(de is Unknown),
        monitor_count >= 1,
        (de is KdePlasma6 && mode is VirtualDesktops) ==> assignments@.len() * monitor_count
            <= usize::MAX,
    ensures
        apply_plan_ok(calls@, de, mode, assignments@, monitor_count as int),
{
    let mut calls: Vec<ApplyCall> = Vec::new();
    let a_len = assignments.len();
    match de {
        DesktopEnvironment::KdePlasma6 => {
            match mode {
                WallpaperMode::VirtualDesktops => {
                    proof {
                        assert(a_len * monitor_count == assignments@.len() * monitor_count);
                    }
                    let total = a_len * monitor_count;
                    let mut k: usize = 0;
                    while k < total
                        invariant
                            a_len == assignments@.len(),
                            monitor_count >= 1,
                            total == a_len * monitor_count,
                            k <= total,
                            calls@.len() == k,
                            forall|j: int|
                                0 <= j < k ==> (#[trigger] calls@[j]).monitor_index as int == j
                                    % monitor_count as int,
                            forall|j: int|
                                0 <= j < k ==> (#[trigger] calls@[j]).photo_path@ == assignments@[j
                                    / monitor_count as int].photo_path@,
                            forall|j: int|
                                0 <= j < k ==> (#[trigger] calls@[j]).location@ == assignments@[j
                                    / monitor_count as int].location@,
                        decreases total - k,
                    {
                        let mon = k % monitor_count;
                        let idx = k / monitor_count;
                        proof {
                            assert(idx < a_len) by (nonlinear_arith)
                                requires
                                    monitor_count >= 1,
                                    total == a_len * monitor_count,
                                    k < total,
                                    idx as int == k as int / monitor_count as int,
                            {
                            }
                        }
                        calls.push(
                            ApplyCall {
                                monitor_index: mon,
                                photo_path: assignments[idx].photo_path.clone(),
                                location: assignments[idx].location.clone(),
                            },
                        );
                        k = k + 1;
                    }
                },
                WallpaperMode::Both => {
                    let mut i: usize = 0;
                    while i < a_len
                        invariant
                            a_len == assignments@.len(),
                            monitor_count >= 1,
                            i <= a_len,
                            calls@.len() == i,
                            forall|j: int|
                                0 <= j < i ==> (#[trigger] calls@[j]).monitor_index as int == j
                                    % monitor_count as int,
                            forall|j: int|
                                0 <= j < i ==> (#[trigger] calls@[j]).photo_path@
                                    == assignments@[j].photo_path@,
                            forall|j: int|
                                0 <= j < i ==> (#[trigger] calls@[j]).location@
                                    == assignments@[j].location@,
                        decreases a_len - i,
                    {
                        calls.push(
                            ApplyCall {
                                monitor_index: i % monitor_count,
                                photo_path: assignments[i].photo_path.clone(),
                                location: assignments[i].location.clone(),
                            },
                        );
                        i = i + 1;
                    }
                },
                WallpaperMode::Monitors => {
                    let mut i: usize = 0;
                    while i < a_len
                        invariant
                            a_len == assignments@.len(),
                            i <= a_len,
                            calls@.len() == i,
                            forall|j: int|
                                0 <= j < i ==> (#[trigger] calls@[j]).monitor_index as int == j,
                            forall|j: int|
                                0 <= j < i ==> (#[trigger] calls@[j]).photo_path@
                                    == assignments@[j].photo_path@,
                            forall|j: int|
                                0 <= j < i ==> (#[trigger] calls@[j]).location@
                                    == assignments@[j].location@,
                        decreases a_len - i,
                    {
                        calls.push(
                            ApplyCall {
                                monitor_index: i,
                                photo_path: assignments[i].photo_path.clone(),
                                location: assignments[i].location.clone(),
                            },
                        );
                        i = i + 1;
                    }
                },
            }
        },
        DesktopEnvironment::KdePlasma5 => {
            let mut i: usize = 0;
            while i < a_len
                invariant
                    a_len == assignments@.len(),
                    i <= a_len,
                    calls@.len() == i,
                    forall|j: int| 0 <= j < i ==> (#[trigger] calls@[j]).monitor_index as int == j,
                    forall|j: int|
                        0 <= j < i ==> (#[trigger] calls@[j]).photo_path@
                            == assignments@[j].photo_path@,
                    forall|j: int|
                        0 <= j < i ==> (#[trigger] calls@[j]).location@ == assignments@[j].location@,
                decreases a_len - i,
            {
                calls.push(
                    ApplyCall {
                        monitor_index: i,
                        photo_path: assignments[i].photo_path.clone(),
                        location: assignments[i].location.clone(),
                    },
                );
                i = i + 1;
            }
        },
        DesktopEnvironment::PlasmaFallback
        | DesktopEnvironment::Gnome
        | DesktopEnvironment::Feh => {
            if a_len > 0 {
                calls.push(
                    ApplyCall {
                        monitor_index: 0,
                        photo_path: assignments[0].photo_path.clone(),
                        location: assignments[0].location.clone(),
                    },
                );
            }
        },
        DesktopEnvironment::Unknown => {
            proof {
                assert(false);
            }
        },
    }
    calls
}

/// Pair each apply invocation with what the tool reported, in order.
///
/// Every call gets exactly one outcome; a failure is recorded with the
/// tool's diagnostic text and leaves every other outcome untouched.
pub fn collect_outcomes(calls: &Vec<ApplyCall>, results: &Vec<Result<(), String>>) -> (out: Vec<
    ApplyOutcome,
>)
    requires
        results@.len() == calls@.len(),
    ensures
        out@.len() == calls@.len(),
        forall|i: int|
            0 <= i < out@.len() ==> {
                &&& (#[trigger] out@[i]).location@ == calls@[i].location@
                &&& out@[i].success == (results@[i] is Ok)
                &&& (results@[i] matches Err(m) ==> out@[i].detail@ == m@)
                &&& (results@[i] is Ok ==> out@[i].detail@ == Seq::<char>::empty())
            },
{
    let n = calls.len();
    let mut out: Vec<ApplyOutcome> = Vec::new();
    let mut i: usize = 0;
    while i < n
        invariant
            n == calls@.len() == results@.len(),
            i <= n,
            out@.len() == i,
            forall|j: int|
                0 <= j < i ==> {
                    &&& (#[trigger] out@[j]).location@ == calls@[j].location@
                    &&& out@[j].success == (results@[j] is Ok)
                    &&& (results@[j] matches Err(m) ==> out@[j].detail@ == m@)
                    &&& (results@[j] is Ok ==> out@[j].detail@ == Seq::<char>::empty())
                },
        decreases n - i,
    {
        let outcome = match &results[i] {
            Ok(_) => ApplyOutcome {
                location: calls[i].location.clone(),
                success: true,
                detail: String::new(),
            },
            Err(m) => ApplyOutcome {
                location: calls[i].location.clone(),
                success: false,
                detail: m.clone(),
            },
        };
        out.push(outcome);
        i = i + 1;
    }
    out
}

/// The verdict of a batch that ran: per-target failures never escalate, so
/// the operation as a whole is a success whatever the outcomes hold. (Only
/// an unsupported environment or an empty pool abort a run, and both are
/// rejected before any call is planned.)
pub fn overall_status(_outcomes: &Vec<ApplyOutcome>) -> (r: Result<(), PhotoError>)
    ensures
        r is Ok,
{
    Ok(())
}

/// The Plasma shell script that writes `path` as the wallpaper of the
/// monitor at `idx`, guarded by the monitor existing.
pub open spec fn spec_plasma_script(idx: int, path: Seq<char>) -> Seq<char> {
    "var allDesktops = desktops();\nif ("@ + dec_rep(idx)
        + " < allDesktops.length) {\n    d = allDesktops["@ + dec_rep(idx)
        + "];\n    d.wallpaperPlugin = 'org.kde.image';\n    d.currentConfigGroup = Array('Wallpaper', 'org.kde.image', 'General');\n    d.writeConfig('Image', 'file://"@
        + path + "');\n}"@
}

/// Render the Plasma scripting-interface text for one apply invocation.
pub fn plasma_wallpaper_script(monitor_idx: usize, photo_path: &str) -> (s: String)
    ensures
        s@ == spec_plasma_script(monitor_idx as int, photo_path@),
{
    let mut v = chars_vec("var allDesktops = desktops();\nif (");
    push_dec(&mut v, monitor_idx);
    let mut p2 = chars_vec(" < allDesktops.length) {\n    d = allDesktops[");
    v.append(&mut p2);
    push_dec(&mut v, monitor_idx);
    let mut p3 = chars_vec(
        "];\n    d.wallpaperPlugin = 'org.kde.image';\n    d.currentConfigGroup = Array('Wallpaper', 'org.kde.image', 'General');\n    d.writeConfig('Image', 'file://",
    );
    v.append(&mut p3);
    let mut pp = chars_vec(photo_path);
    v.append(&mut pp);
    let mut p4 = chars_vec("');\n}");
    v.append(&mut p4);
    proof {
        assert(v@ =~= spec_plasma_script(monitor_idx as int, photo_path@));
    }
    string_of_chars(v.as_slice())
}

/// The `file://` URI for an absolute photo path.
pub fn file_uri(path: &str) -> (r: String)
    ensures
        r@ == "file://"@ + path@,
{
    String::from_str("file://").concat(path)
}

/// Everything a "set wallpapers" run decides before any tool is invoked.
#[derive(Debug)]
pub struct WallpaperPlan {
    /// The classified environment the plan was made for.
    pub environment: DesktopEnvironment,
    /// The mode after the capability downgrade.
    pub effective: WallpaperMode,
    /// One assignment per display target.
    pub assignments: Vec<WallpaperAssignment>,
    /// The apply invocations to make, in order.
    pub calls: Vec<ApplyCall>,
}

/// A plan is correct when it records the environment, downgrades the mode,
/// assigns photos cyclically over the targets, and turns the assignments
/// into the environment's calls.
pub open spec fn wallpaper_plan_ok(
    p: WallpaperPlan,
    requested: WallpaperMode,
    pool: Seq<String>,
    de: DesktopEnvironment,
    monitors: int,
    vds: int,
) -> bool {
    &&& p.environment == de
    &&& p.effective == spec_effective_mode(de, requested)
    &&& assignment_plan_ok(p.assignments@, spec_effective_mode(de, requested), pool, monitors, vds)
    &&& apply_plan_ok(p.calls@, de, spec_effective_mode(de, requested), p.assignments@, monitors)
}

/// On a single-target environment (the fallback Plasma tool, GNOME or feh)
/// every run boils down to exactly one apply invocation, whatever mode was
/// requested and however large the probed topology claims to be: the
/// downgrade forces `Monitors`, and the applier then takes only the primary
/// assignment, which carries the pool's first photo.
pub proof fn lemma_single_target_one_call(
    p: WallpaperPlan,
    requested: WallpaperMode,
    pool: Seq<String>,
    de: DesktopEnvironment,
    monitors: int,
    vds: int,
)
    requires
        wallpaper_plan_ok(p, requested, pool, de, monitors, vds),
        de is PlasmaFallback || de is Gnome || de is Feh,
        pool.len() > 0,
        monitors >= 1,
        vds >= 1,
    ensures
        p.effective is Monitors,
        p.calls@.len() == 1,
        p.calls@[0].photo_path@ == pool[0]@,
{
    assert(p.assignments@.len() == monitors);
    assert(p.assignments@[0].photo_path@ == pool[0int % pool.len() as int]@);
}

/// With a pool of one photo, every apply invocation of a correct plan
/// carries that photo, whatever the environment and mode: the cyclic reuse
/// rule sends every target index to the only photo there is.
pub proof fn lemma_single_photo_everywhere(
    p: WallpaperPlan,
    requested: WallpaperMode,
    pool: Seq<String>,
    de: DesktopEnvironment,
    monitors: int,
    vds: int,
)
    requires
        wallpaper_plan_ok(p, requested, pool, de, monitors, vds),
        pool.len() == 1,
        monitors >= 1,
        vds >= 1,
    ensures
        forall|k: int|
            0 <= k < p.calls@.len() ==> (#[trigger] p.calls@[k]).photo_path@ == pool[0]@,
{
    let mode = spec_effective_mode(de, requested);
    assert forall|k: int|
        0 <= k < p.calls@.len() implies (#[trigger] p.calls@[k]).photo_path@ == pool[0]@ by {
        if de is KdePlasma6 && mode is VirtualDesktops {
            let i = k / monitors;
            assert(p.calls@[k].photo_path@ == p.assignments@[i].photo_path@);
            assert(0 <= i < p.assignments@.len()) by (nonlinear_arith)
                requires
                    monitors >= 1,
                    0 <= k < p.calls@.len(),
                    p.calls@.len() == p.assignments@.len() * monitors,
                    i == k / monitors,
            {
            }
            assert(p.assignments@[i].photo_path@ == pool[i % pool.len() as int]@);
        } else {
            assert(p.calls@[k].photo_path@ == p.assignments@[k].photo_path@);
            assert(p.assignments@[k].photo_path@ == pool[k % pool.len() as int]@);
        }
    }
}

/// Decide a whole "set wallpapers" run, from the classified environment,
/// the probed topology and the selected pool.
///
/// The two fatal kinds are rejected here, before anything is applied: an
/// empty pool, and an environment with no usable mechanism. Everything else
/// yields a complete plan.
pub fn plan_wallpaper_run(
    requested: WallpaperMode,
    pool: &Vec<String>,
    de: DesktopEnvironment,
    monitor_count: usize,
    vd_count: usize,
) -> (r: Result<WallpaperPlan, PhotoError>)
    requires
        monitor_count >= 1,
        vd_count >= 1,
        vd_count * monitor_count <= usize::MAX,
    ensures
        r is Ok <==> (pool@.len() > 0 && !(de is Unknown)),
        pool@.len() == 0 ==> (r matches Err(e) && e matches PhotoError::NoPhotos(m) && m@
            == "empty photo pool"@),
        pool@.len() > 0 && de is Unknown ==> (r matches Err(e) && e matches PhotoError::Wallpaper(m)
            && m@ == "No supported wallpaper tool found"@),
        r matches Ok(p) ==> wallpaper_plan_ok(
            p,
            requested,
            pool@,
            de,
            monitor_count as int,
            vd_count as int,
        ),
{
    if pool.len() == 0 {
        return Err(PhotoError::NoPhotos(String::from_str("empty photo pool")));
    }
    if let DesktopEnvironment::Unknown = de {
        return Err(PhotoError::Wallpaper(String::from_str("No supported wallpaper tool found")));
    }
    let effective = crate::environment::effective_mode(de, requested);
    let assignments = crate::assign::build_assignments(effective, pool, monitor_count, vd_count);
    let calls = plan_apply_calls(de, effective, &assignments, monitor_count);
    Ok(WallpaperPlan { environment: de, effective, assignments, calls })
}

} // verus!
