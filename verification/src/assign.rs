//! The assignment planner: a pure mapping from a mode, a photo pool and the
//! display topology to the ordered list of wallpaper assignments.
//!
//! Targets are enumerated monitor-first; in `Both` mode the virtual desktop
//! varies slower than the monitor, and one running counter supplies the
//! photo index. When targets outnumber photos the pool is reused cyclically
//! by taking the index modulo the pool length.

use vstd::prelude::*;

use crate::environment::WallpaperMode;
use crate::text::chars_vec;
use crate::text::dec_rep;
use crate::text::push_dec;
use crate::text::string_of_chars;

verus! {

/// One (target, photo) pairing of a plan.
#[derive(Debug)]
pub struct WallpaperAssignment {
    /// Human-readable name of the target.
    pub location: String,
    /// Path of the photo assigned to the target.
    pub photo_path: String,
    /// Whether this is the plan's first assignment (the newest photo).
    pub is_newest: bool,
}

/// The label of monitor number `k` (1-based).
pub open spec fn spec_monitor_label(k: int) -> Seq<char> {
    "Monitor "@ + dec_rep(k)
}

/// The label of virtual desktop number `k` (1-based).
pub open spec fn spec_vd_label(k: int) -> Seq<char> {
    "Virtual Desktop "@ + dec_rep(k)
}

/// The label of the (monitor, virtual desktop) pair, both 1-based.
pub open spec fn spec_both_label(mon: int, vd: int) -> Seq<char> {
    "Monitor "@ + dec_rep(mon) + ", VD "@ + dec_rep(vd)
}

/// How many targets a plan covers.
pub open spec fn spec_target_count(mode: WallpaperMode, monitors: int, vds: int) -> int {
    match mode {
        WallpaperMode::Monitors => monitors,
        WallpaperMode::VirtualDesktops => vds,
        WallpaperMode::Both => vds * monitors,
    }
}

/// The label of target `i` (0-based position in the plan).
pub open spec fn spec_location(mode: WallpaperMode, i: int, monitors: int) -> Seq<char> {
    match mode {
        WallpaperMode::Monitors => spec_monitor_label(i + 1),
        WallpaperMode::VirtualDesktops => spec_vd_label(i + 1),
        WallpaperMode::Both => spec_both_label(i % monitors + 1, i / monitors + 1),
    }
}

/// What a correct plan looks like: one assignment per target, photos drawn
/// cyclically from the pool, and exactly the first assignment flagged as
/// newest.
pub open spec fn assignment_plan_ok(
    r: Seq<WallpaperAssignment>,
    mode: WallpaperMode,
    photos: Seq<String>,
    monitors: int,
    vds: int,
) -> bool {
    &&& r.len() == spec_target_count(mode, monitors, vds)
    &&& forall|i: int|
        0 <= i < r.len() ==> (#[trigger] r[i]).photo_path@ == photos[i % photos.len() as int]@
    &&& forall|i: int| 0 <= i < r.len() ==> (#[trigger] r[i]).location@ == spec_location(
        mode,
        i,
        monitors,
    )
    &&& forall|i: int| 0 <= i < r.len() ==> (#[trigger] r[i]).is_newest == (i == 0)
}

/// Render the label of monitor number `k`.
fn monitor_label(k: usize) -> (r: String)
    ensures
        r@ == spec_monitor_label(k as int),
{
    let mut v = chars_vec("Monitor ");
    push_dec(&mut v, k);
    string_of_chars(v.as_slice())
}

/// Render the label of virtual desktop number `k`.
fn vd_label(k: usize) -> (r: String)
    ensures
        r@ == spec_vd_label(k as int),
{
    let mut v = chars_vec("Virtual Desktop ");
    push_dec(&mut v, k);
    string_of_chars(v.as_slice())
}

/// Render the label of the (monitor, virtual desktop) pair.
fn both_label(mon: usize, vd: usize) -> (r: String)
    ensures
        r@ == spec_both_label(mon as int, vd as int),
{
    let mut v = chars_vec("Monitor ");
    push_dec(&mut v, mon);
    let mut mid = chars_vec(", VD ");
    v.append(&mut mid);
    push_dec(&mut v, vd);
    string_of_chars(v.as_slice())
}

/// Build the wallpaper assignments for a mode over the given topology.
///
/// The pool must not be empty (the caller rejects empty pools up front) and
/// the topology counts are positive, as the prober guarantees.
pub fn build_assignments(
    mode: WallpaperMode,
    photos: &Vec<String>,
    monitor_count: usize,
    vd_count: usize,
) -> (r: Vec<WallpaperAssignment>)
    requires
        photos@.len() >= 1,
        monitor_count >= 1,
        vd_count >= 1,
        vd_count * monitor_count <= usize::MAX,
    ensures
        assignment_plan_ok(r@, mode, photos@, monitor_count as int, vd_count as int),
{
    let mut r: Vec<WallpaperAssignment> = Vec::new();
    let n = photos.len();
    match mode {
        WallpaperMode::Monitors => {
            let mut i: usize = 0;
            while i < monitor_count
                invariant
                    n == photos@.len() >= 1,
                    i <= monitor_count,
                    r@.len() == i,
                    forall|k: int|
                        0 <= k < i ==> (#[trigger] r@[k]).photo_path@ == photos@[k % n as int]@,
                    forall|k: int|
                        0 <= k < i ==> (#[trigger] r@[k]).location@ == spec_monitor_label(k + 1),
                    forall|k: int| 0 <= k < i ==> (#[trigger] r@[k]).is_newest == (k == 0),
                decreases monitor_count - i,
            {
                let photo_idx = i % n;
                r.push(
                    WallpaperAssignment {
                        location: monitor_label(i + 1),
                        photo_path: photos[photo_idx].clone(),
                        is_newest: i == 0,
                    },
                );
                i = i + 1;
            }
        },
        WallpaperMode::VirtualDesktops => {
            let mut i: usize = 0;
            while i < vd_count
                invariant
                    n == photos@.len() >= 1,
                    i <= vd_count,
                    r@.len() == i,
                    forall|k: int|
                        0 <= k < i ==> (#[trigger] r@[k]).photo_path@ == photos@[k % n as int]@,
                    forall|k: int|
                        0 <= k < i ==> (#[trigger] r@[k]).location@ == spec_vd_label(k + 1),
                    forall|k: int| 0 <= k < i ==> (#[trigger] r@[k]).is_newest == (k == 0),
                decreases vd_count - i,
            {
                let photo_idx = i % n;
                r.push(
                    WallpaperAssignment {
                        location: vd_label(i + 1),
                        photo_path: photos[photo_idx].clone(),
                        is_newest: i == 0,
                    },
                );
                i = i + 1;
            }
        },
        WallpaperMode::Both => {
            let total = vd_count * monitor_count;
            let mut i: usize = 0;
            while i < total
                invariant
                    n == photos@.len() >= 1,
                    monitor_count >= 1,
                    total == vd_count * monitor_count,
                    i <= total,
                    r@.len() == i,
                    forall|k: int|
                        0 <= k < i ==> (#[trigger] r@[k]).photo_path@ == photos@[k % n as int]@,
                    forall|k: int|
                        0 <= k < i ==> (#[trigger] r@[k]).location@ == spec_both_label(
                            k % monitor_count as int + 1,
                            k / monitor_count as int + 1,
                        ),
                    forall|k: int| 0 <= k < i ==> (#[trigger] r@[k]).is_newest == (k == 0),
                decreases total - i,
            {
                let photo_idx = i % n;
                let mon = i % monitor_count;
                let vd = i / monitor_count;
                proof {
                    assert(vd + 1 <= total) by (nonlinear_arith)
                        requires
                            monitor_count >= 1,
                            total == vd_count * monitor_count,
                            i < total,
                            vd as int == i as int / monitor_count as int,
                    {
                    }
                }
                r.push(
                    WallpaperAssignment {
                        location: both_label(mon + 1, vd + 1),
                        photo_path: photos[photo_idx].clone(),
                        is_newest: i == 0,
                    },
                );
                i = i + 1;
            }
        },
    }
    r
}

} // verus!
