//! Geometry of the floating window on a monitor's work area, in physical pixels.
use vstd::prelude::*;
use crate::model::{AppSettings, WindowAnchor, WindowPlacement, default_placement};
use crate::text::same_text;

verus! {

/// The part of a monitor that windows may use.
#[derive(Clone, Copy, Debug, PartialEq, Eq, Structural)]
pub struct WorkArea {
    pub x: i32,
    pub y: i32,
    pub width: u32,
    pub height: u32,
}

/// A length as a signed coordinate (the two's complement reading of the bits).
pub open spec fn signed(u: u32) -> int {
    (u as i32) as int
}

/// The right edge of a work area.
pub open spec fn right_edge(a: WorkArea) -> int {
    a.x + signed(a.width)
}

/// The bottom edge of a work area.
pub open spec fn bottom_edge(a: WorkArea) -> int {
    a.y + signed(a.height)
}

/// Whether a value is an `i32`.
pub open spec fn fits(v: int) -> bool {
    i32::MIN <= v <= i32::MAX
}

/// Whether a value is an `i32` whose absolute value is an `i32`.
pub open spec fn abs_fits(v: int) -> bool {
    i32::MIN < v <= i32::MAX
}

pub open spec fn abs(v: int) -> int {
    if v < 0 {
        -v
    } else {
        v
    }
}

/// `v` brought into `[lo, hi]`.
pub open spec fn clamp(v: int, lo: int, hi: int) -> int {
    if v < lo {
        lo
    } else if v > hi {
        hi
    } else {
        v
    }
}

fn signed_len(u: u32) -> (r: i64)
    ensures
        r == signed(u),
{
    (u as i32) as i64
}

fn clamp_i64(v: i64, lo: i64, hi: i64) -> (r: i64)
    ensures
        r == clamp(v as int, lo as int, hi as int),
{
    if v < lo {
        lo
    } else if v > hi {
        hi
    } else {
        v
    }
}

fn abs_i64(v: i64) -> (r: i64)
    requires
        v > i64::MIN,
    ensures
        r == abs(v as int),
{
    if v < 0 {
        -v
    } else {
        v
    }
}

// ---------------------------------------------------------------- resizing

/// Whether every step of the resize computation stays within `i32`.
pub open spec fn resize_defined(
    a: WorkArea,
    x: i32,
    y: i32,
    w: u32,
    h: u32,
    target_w: i32,
    target_h: i32,
) -> bool {
    let r = right_edge(a);
    let b = bottom_edge(a);
    let cr = x + signed(w);
    let cb = y + signed(h);
    &&& fits(r)
    &&& fits(b)
    &&& fits(cr)
    &&& fits(cb)
    &&& abs_fits(r - cr)
    &&& abs_fits(x - a.x)
    &&& abs_fits(b - cb)
    &&& abs_fits(y - a.y)
    &&& (abs(r - cr) < abs(x - a.x) ==> fits(cr - target_w))
    &&& (abs(b - cb) < abs(y - a.y) ==> fits(cb - target_h))
    &&& fits(r - target_w)
    &&& fits(b - target_h)
    &&& a.x <= r - target_w
    &&& a.y <= b - target_h
}

/// The position of the window resized to `target_w` × `target_h`: the edge
/// nearer to the work area's edge stays where it is, and the window stays in the
/// work area.
pub open spec fn resized_position(
    a: WorkArea,
    x: i32,
    y: i32,
    w: u32,
    h: u32,
    target_w: i32,
    target_h: i32,
) -> (int, int) {
    let r = right_edge(a);
    let b = bottom_edge(a);
    let cr = x + signed(w);
    let cb = y + signed(h);
    let nx = if abs(r - cr) < abs(x - a.x) {
        cr - target_w
    } else {
        x as int
    };
    let ny = if abs(b - cb) < abs(y - a.y) {
        cb - target_h
    } else {
        y as int
    };
    (clamp(nx, a.x as int, r - target_w), clamp(ny, a.y as int, b - target_h))
}

/// Where the window at (`x`, `y`) of size `w` × `h` goes when it is resized to
/// `target_w` × `target_h` (expanding or collapsing it).
pub fn resized_window_position(
    area: WorkArea,
    x: i32,
    y: i32,
    w: u32,
    h: u32,
    target_w: i32,
    target_h: i32,
) -> (r: (i32, i32))
    requires
        resize_defined(area, x, y, w, h, target_w, target_h),
    ensures
        (r.0 as int, r.1 as int) == resized_position(area, x, y, w, h, target_w, target_h),
        area.x <= r.0 && r.0 + target_w <= right_edge(area),
        area.y <= r.1 && r.1 + target_h <= bottom_edge(area),
{
    let left = area.x as i64;
    let top = area.y as i64;
    let right = left + signed_len(area.width);
    let bottom = top + signed_len(area.height);
    let cur_right = x as i64 + signed_len(w);
    let cur_bottom = y as i64 + signed_len(h);
    let anchor_right = abs_i64(right - cur_right) < abs_i64(x as i64 - left);
    let anchor_bottom = abs_i64(bottom - cur_bottom) < abs_i64(y as i64 - top);
    let nx = if anchor_right {
        cur_right - target_w as i64
    } else {
        x as i64
    };
    let ny = if anchor_bottom {
        cur_bottom - target_h as i64
    } else {
        y as i64
    };
    let cx = clamp_i64(nx, left, right - target_w as i64);
    let cy = clamp_i64(ny, top, bottom - target_h as i64);
    (cx as i32, cy as i32)
}

// ---------------------------------------------------------------- restoring

/// The placement a restore uses: the remembered one, or the default.
pub open spec fn placement_or_default(remembered: Option<WindowPlacement>) -> WindowPlacement {
    match remembered {
        Some(p) => p,
        None => default_placement(),
    }
}

/// The position before clamping that a placement asks for.
pub open spec fn anchored_position(a: WorkArea, w: u32, h: u32, p: WindowPlacement) -> (int, int) {
    let r = right_edge(a);
    let b = bottom_edge(a);
    match p.anchor {
        WindowAnchor::TopLeft => (a.x + p.offset_x, a.y + p.offset_y),
        WindowAnchor::TopRight => (r - signed(w) - p.offset_x, a.y + p.offset_y),
        WindowAnchor::BottomLeft => (a.x + p.offset_x, b - signed(h) - p.offset_y),
        WindowAnchor::BottomRight => (r - signed(w) - p.offset_x, b - signed(h) - p.offset_y),
    }
}

/// Whether every step of the restore computation stays within `i32`.
pub open spec fn restore_defined(a: WorkArea, w: u32, h: u32, remembered: Option<WindowPlacement>) -> bool {
    let p = placement_or_default(remembered);
    let r = right_edge(a);
    let b = bottom_edge(a);
    &&& fits(r)
    &&& fits(b)
    &&& fits(r - signed(w))
    &&& fits(b - signed(h))
    &&& fits(anchored_position(a, w, h, p).0)
    &&& fits(anchored_position(a, w, h, p).1)
    &&& a.x <= r - signed(w)
    &&& a.y <= b - signed(h)
}

/// The position a window of size `w` × `h` is restored to.
pub open spec fn restored_position(a: WorkArea, w: u32, h: u32, remembered: Option<WindowPlacement>) -> (
    int,
    int,
) {
    let (x, y) = anchored_position(a, w, h, placement_or_default(remembered));
    (
        clamp(x, a.x as int, right_edge(a) - signed(w)),
        clamp(y, a.y as int, bottom_edge(a) - signed(h)),
    )
}

/// Where a window of size `w` × `h` is placed on start: at the remembered
/// distance from the remembered corner, or 24 pixels from the top right corner,
/// kept inside the work area.
pub fn restore_window_position(
    area: WorkArea,
    w: u32,
    h: u32,
    remembered: &Option<WindowPlacement>,
) -> (r: (i32, i32))
    requires
        restore_defined(area, w, h, *remembered),
    ensures
        (r.0 as int, r.1 as int) == restored_position(area, w, h, *remembered),
        area.x <= r.0 && r.0 + signed(w) <= right_edge(area),
        area.y <= r.1 && r.1 + signed(h) <= bottom_edge(area),
{
    let (anchor, gap_x, gap_y) = match remembered {
        Some(p) => (p.anchor, p.offset_x, p.offset_y),
        None => (WindowAnchor::TopRight, crate::model::EDGE_GAP, crate::model::EDGE_GAP),
    };
    let left = area.x as i64;
    let top = area.y as i64;
    let right = left + signed_len(area.width);
    let bottom = top + signed_len(area.height);
    let sw = signed_len(w);
    let sh = signed_len(h);
    let (x, y) = match anchor {
        WindowAnchor::TopLeft => (left + gap_x as i64, top + gap_y as i64),
        WindowAnchor::TopRight => (right - sw - gap_x as i64, top + gap_y as i64),
        WindowAnchor::BottomLeft => (left + gap_x as i64, bottom - sh - gap_y as i64),
        WindowAnchor::BottomRight => (right - sw - gap_x as i64, bottom - sh - gap_y as i64),
    };
    let cx = clamp_i64(x, left, right - sw);
    let cy = clamp_i64(y, top, bottom - sh);
    (cx as i32, cy as i32)
}

} // verus!

verus! {

// ---------------------------------------------------------------- moving

/// Whether every step of snapping a window at `x` (size `sw` along the axis)
/// between `lo` and `hi` stays within `i32`.
pub open spec fn snap_axis_defined(lo: int, hi: int, sw: int, x: int, threshold: int) -> bool {
    let far = hi - sw;
    &&& fits(far)
    &&& abs_fits(x - lo)
    &&& (abs(x - lo) < threshold ==> abs_fits(lo - far))
    &&& (!(abs(x - lo) < threshold) ==> abs_fits(x - far))
}

/// Snapping along one axis: within `threshold` of the near edge the window
/// moves onto it; then, within `threshold` of the far edge, onto that one.
pub open spec fn snap_axis(lo: int, hi: int, sw: int, x: int, threshold: int) -> int {
    let far = hi - sw;
    let x1 = if abs(x - lo) < threshold {
        lo
    } else {
        x
    };
    if abs(x1 - far) < threshold {
        far
    } else {
        x1
    }
}

/// Whether every step of snapping stays within `i32`.
pub open spec fn snap_defined(a: WorkArea, w: u32, h: u32, x: i32, y: i32, threshold: i32) -> bool {
    &&& fits(right_edge(a))
    &&& fits(bottom_edge(a))
    &&& snap_axis_defined(a.x as int, right_edge(a), signed(w), x as int, threshold as int)
    &&& snap_axis_defined(a.y as int, bottom_edge(a), signed(h), y as int, threshold as int)
}

fn snap_axis_exec(lo: i64, hi: i64, sw: i64, x: i64, threshold: i64) -> (r: i64)
    requires
        snap_axis_defined(lo as int, hi as int, sw as int, x as int, threshold as int),
        fits(lo as int),
        fits(x as int),
    ensures
        r == snap_axis(lo as int, hi as int, sw as int, x as int, threshold as int),
        fits(r as int),
{
    let far = hi - sw;
    let x1 = if abs_i64(x - lo) < threshold {
        lo
    } else {
        x
    };
    if abs_i64(x1 - far) < threshold {
        far
    } else {
        x1
    }
}

/// The position a window moved to (`x`, `y`) snaps to: each coordinate within
/// `threshold` pixels of a work area edge moves onto that edge.
pub fn snap_to_edges(area: WorkArea, w: u32, h: u32, x: i32, y: i32, threshold: i32) -> (r: (i32, i32))
    requires
        snap_defined(area, w, h, x, y, threshold),
    ensures
        r.0 as int == snap_axis(area.x as int, right_edge(area), signed(w), x as int, threshold as int),
        r.1 as int == snap_axis(area.y as int, bottom_edge(area), signed(h), y as int, threshold as int),
        ({
            let far = right_edge(area) - signed(w);
            &&& abs(x - area.x) >= threshold && abs(x - far) < threshold ==> r.0 == far
            &&& abs(x - area.x) >= threshold && abs(x - far) >= threshold ==> r.0 == x
            &&& abs(x - area.x) < threshold && abs(area.x - far) < threshold ==> r.0 == far
            &&& abs(x - area.x) < threshold && abs(area.x - far) >= threshold ==> r.0 == area.x
        }),
        ({
            let far = bottom_edge(area) - signed(h);
            &&& abs(y - area.y) >= threshold && abs(y - far) < threshold ==> r.1 == far
            &&& abs(y - area.y) >= threshold && abs(y - far) >= threshold ==> r.1 == y
            &&& abs(y - area.y) < threshold && abs(area.y - far) < threshold ==> r.1 == far
            &&& abs(y - area.y) < threshold && abs(area.y - far) >= threshold ==> r.1 == area.y
        }),
{
    let left = area.x as i64;
    let top = area.y as i64;
    let right = left + signed_len(area.width);
    let bottom = top + signed_len(area.height);
    let nx = snap_axis_exec(left, right, signed_len(w), x as i64, threshold as i64);
    let ny = snap_axis_exec(top, bottom, signed_len(h), y as i64, threshold as i64);
    (nx as i32, ny as i32)
}

/// Whether every step of deriving a placement stays within `i32`.
pub open spec fn placement_defined(a: WorkArea, w: u32, h: u32, x: i32, y: i32) -> bool {
    &&& fits(right_edge(a))
    &&& fits(bottom_edge(a))
    &&& fits(x + signed(w))
    &&& fits(y + signed(h))
    &&& abs_fits(x - a.x)
    &&& abs_fits(right_edge(a) - (x + signed(w)))
    &&& abs_fits(y - a.y)
    &&& abs_fits(bottom_edge(a) - (y + signed(h)))
}

/// The corner nearest to a window at (`x`, `y`): right when the right gap is
/// smaller than the left one, bottom when the bottom gap is smaller than the top one.
pub open spec fn nearest_anchor(a: WorkArea, w: u32, h: u32, x: i32, y: i32) -> WindowAnchor {
    let right = abs(right_edge(a) - (x + signed(w))) < abs(x - a.x);
    let bottom = abs(bottom_edge(a) - (y + signed(h))) < abs(y - a.y);
    if right {
        if bottom {
            WindowAnchor::BottomRight
        } else {
            WindowAnchor::TopRight
        }
    } else {
        if bottom {
            WindowAnchor::BottomLeft
        } else {
            WindowAnchor::TopLeft
        }
    }
}

/// The placement that records a window at (`x`, `y`): its nearest corner and
/// its distances from the edges of that corner.
pub open spec fn placement_of(
    a: WorkArea,
    w: u32,
    h: u32,
    x: i32,
    y: i32,
    monitor_name: Option<String>,
    scale_factor_bits: u64,
) -> WindowPlacement {
    let anchor = nearest_anchor(a, w, h, x, y);
    let dl = abs(x - a.x);
    let dr = abs(right_edge(a) - (x + signed(w)));
    let dt = abs(y - a.y);
    let db = abs(bottom_edge(a) - (y + signed(h)));
    WindowPlacement {
        monitor_name,
        anchor,
        offset_x: (if anchor == WindowAnchor::TopRight || anchor == WindowAnchor::BottomRight {
            dr
        } else {
            dl
        }) as i32,
        offset_y: (if anchor == WindowAnchor::BottomLeft || anchor == WindowAnchor::BottomRight {
            db
        } else {
            dt
        }) as i32,
        scale_factor_bits,
    }
}

/// The placement that records a window of size `w` × `h` at (`x`, `y`).
pub fn placement_at(
    area: WorkArea,
    w: u32,
    h: u32,
    x: i32,
    y: i32,
    monitor_name: Option<String>,
    scale_factor_bits: u64,
) -> (r: WindowPlacement)
    requires
        placement_defined(area, w, h, x, y),
    ensures
        r == placement_of(area, w, h, x, y, monitor_name, scale_factor_bits),
        ({
            let dl = abs(x - area.x);
            let dr = abs(right_edge(area) - (x + signed(w)));
            let dt = abs(y - area.y);
            let db = abs(bottom_edge(area) - (y + signed(h)));
            let right = r.anchor == WindowAnchor::TopRight || r.anchor == WindowAnchor::BottomRight;
            let bottom = r.anchor == WindowAnchor::BottomLeft || r.anchor
                == WindowAnchor::BottomRight;
            &&& right <==> dr < dl
            &&& bottom <==> db < dt
            &&& r.offset_x == (if right {
                dr
            } else {
                dl
            })
            &&& r.offset_y == (if bottom {
                db
            } else {
                dt
            })
        }),
{
    let left = area.x as i64;
    let top = area.y as i64;
    let right = left + signed_len(area.width);
    let bottom = top + signed_len(area.height);
    let dl = abs_i64(x as i64 - left);
    let dr = abs_i64(right - (x as i64 + signed_len(w)));
    let dt = abs_i64(y as i64 - top);
    let db = abs_i64(bottom - (y as i64 + signed_len(h)));
    let anchor = match (dr < dl, db < dt) {
        (false, false) => WindowAnchor::TopLeft,
        (true, false) => WindowAnchor::TopRight,
        (false, true) => WindowAnchor::BottomLeft,
        (true, true) => WindowAnchor::BottomRight,
    };
    let offset_x = match anchor {
        WindowAnchor::TopRight | WindowAnchor::BottomRight => dr,
        _ => dl,
    };
    let offset_y = match anchor {
        WindowAnchor::BottomLeft | WindowAnchor::BottomRight => db,
        _ => dt,
    };
    WindowPlacement {
        monitor_name,
        anchor,
        offset_x: offset_x as i32,
        offset_y: offset_y as i32,
        scale_factor_bits,
    }
}

/// A window placed inside the work area and then restored from the placement
/// that records it comes back to the same position.
pub proof fn lemma_restore_returns_recorded_position(
    a: WorkArea,
    w: u32,
    h: u32,
    x: i32,
    y: i32,
    monitor_name: Option<String>,
    scale_factor_bits: u64,
)
    requires
        placement_defined(a, w, h, x, y),
        0 <= signed(w),
        0 <= signed(h),
        a.x <= x && x + signed(w) <= right_edge(a),
        a.y <= y && y + signed(h) <= bottom_edge(a),
    ensures
        restore_defined(a, w, h, Some(placement_of(a, w, h, x, y, monitor_name, scale_factor_bits))),
        restored_position(a, w, h, Some(placement_of(a, w, h, x, y, monitor_name, scale_factor_bits))) == (
            x as int,
            y as int,
        ),
{
}

/// What follows a move of the window.
#[derive(Debug, PartialEq)]
pub struct MoveOutcome {
    /// Where to put the window when snapping moved it.
    pub snapped_to: Option<(i32, i32)>,
    /// The placement to remember, when positions are remembered.
    pub placement: Option<WindowPlacement>,
}

/// The position a moved window ends at: snapped when snapping is on.
pub open spec fn settled_position(s: AppSettings, a: WorkArea, w: u32, h: u32, x: i32, y: i32, threshold: i32) -> (int, int) {
    if s.edge_snap {
        (
            snap_axis(a.x as int, right_edge(a), signed(w), x as int, threshold as int),
            snap_axis(a.y as int, bottom_edge(a), signed(h), y as int, threshold as int),
        )
    } else {
        (x as int, y as int)
    }
}

/// Whether every step of settling a move stays within `i32`; the far snapping
/// edges are computed whether or not snapping is on.
pub open spec fn settle_defined(s: AppSettings, a: WorkArea, w: u32, h: u32, x: i32, y: i32, threshold: i32) -> bool {
    let p = settled_position(s, a, w, h, x, y, threshold);
    &&& fits(right_edge(a))
    &&& fits(bottom_edge(a))
    &&& fits(right_edge(a) - signed(w))
    &&& fits(bottom_edge(a) - signed(h))
    &&& s.edge_snap ==> snap_defined(a, w, h, x, y, threshold)
    &&& s.remember_position ==> placement_defined(a, w, h, p.0 as i32, p.1 as i32)
}

/// Settles a move of the window to (`x`, `y`): snaps it to the work area edges
/// when snapping is on (saying where to when that moved it), and records its
/// placement when positions are remembered.
pub fn settle_move(
    settings: &AppSettings,
    area: WorkArea,
    w: u32,
    h: u32,
    x: i32,
    y: i32,
    threshold: i32,
    monitor_name: Option<String>,
    scale_factor_bits: u64,
) -> (r: MoveOutcome)
    requires
        settle_defined(*settings, area, w, h, x, y, threshold),
    ensures
        ({
            let p = settled_position(*settings, area, w, h, x, y, threshold);
            &&& r.snapped_to matches Some(q) ==> settings.edge_snap && (q.0 as int, q.1 as int) == p
                && p != (x as int, y as int)
            &&& r.snapped_to is None ==> !settings.edge_snap || p == (x as int, y as int)
            &&& r.placement matches Some(pl) ==> settings.remember_position && pl == placement_of(
                area,
                w,
                h,
                p.0 as i32,
                p.1 as i32,
                monitor_name,
                scale_factor_bits,
            )
            &&& r.placement is None ==> !settings.remember_position
        }),
{
    let mut tx = x;
    let mut ty = y;
    let mut snapped_to = None;
    if settings.edge_snap {
        let (sx, sy) = snap_to_edges(area, w, h, x, y, threshold);
        tx = sx;
        ty = sy;
        if sx != x || sy != y {
            snapped_to = Some((sx, sy));
        }
    }
    let placement = if settings.remember_position {
        Some(placement_at(area, w, h, tx, ty, monitor_name, scale_factor_bits))
    } else {
        None
    };
    MoveOutcome { snapped_to, placement }
}

/// The index of the first monitor with the wanted name.
pub fn find_monitor_by_name(names: &Vec<Option<String>>, wanted: &str) -> (r: Option<usize>)
    ensures
        r matches Some(i) ==> i < names.len() && (names@[i as int] matches Some(n) && n@ == wanted@)
            && forall|j: int| 0 <= j < i ==> !(#[trigger] names@[j] matches Some(m) && m@ == wanted@),
        r is None ==> forall|j: int|
            0 <= j < names.len() ==> !(#[trigger] names@[j] matches Some(m) && m@ == wanted@),
{
    let mut i: usize = 0;
    while i < names.len()
        invariant
            i <= names.len(),
            forall|j: int| 0 <= j < i ==> !(#[trigger] names@[j] matches Some(m) && m@ == wanted@),
        decreases names.len() - i,
    {
        match &names[i] {
            Some(n) => {
                if same_text(n.as_str(), wanted) {
                    return Some(i);
                }
            },
            None => {},
        }
        i = i + 1;
    }
    None
}

} // verus!

verus! {

// ---------------------------------------------------------------- range checks

fn fits_i64(v: i64) -> (r: bool)
    ensures
        r == fits(v as int),
{
    i32::MIN as i64 <= v && v <= i32::MAX as i64
}

fn abs_fits_i64(v: i64) -> (r: bool)
    ensures
        r == abs_fits(v as int),
{
    (i32::MIN as i64) < v && v <= i32::MAX as i64
}

/// Whether resizing this window stays within `i32` (what `resized_window_position`
/// requires).
pub fn resize_is_defined(
    area: WorkArea,
    x: i32,
    y: i32,
    w: u32,
    h: u32,
    target_w: i32,
    target_h: i32,
) -> (r: bool)
    ensures
        r == resize_defined(area, x, y, w, h, target_w, target_h),
{
    let left = area.x as i64;
    let top = area.y as i64;
    let right = left + signed_len(area.width);
    let bottom = top + signed_len(area.height);
    let cr = x as i64 + signed_len(w);
    let cb = y as i64 + signed_len(h);
    if !(fits_i64(right) && fits_i64(bottom) && fits_i64(cr) && fits_i64(cb)) {
        return false;
    }
    if !(abs_fits_i64(right - cr) && abs_fits_i64(x as i64 - left) && abs_fits_i64(bottom - cb)
        && abs_fits_i64(y as i64 - top)) {
        return false;
    }
    let anchor_right = abs_i64(right - cr) < abs_i64(x as i64 - left);
    let anchor_bottom = abs_i64(bottom - cb) < abs_i64(y as i64 - top);
    (!anchor_right || fits_i64(cr - target_w as i64)) && (!anchor_bottom || fits_i64(
        cb - target_h as i64,
    )) && fits_i64(right - target_w as i64) && fits_i64(bottom - target_h as i64) && left <= right
        - target_w as i64 && top <= bottom - target_h as i64
}

/// Whether restoring this window stays within `i32` (what
/// `restore_window_position` requires).
pub fn restore_is_defined(area: WorkArea, w: u32, h: u32, remembered: &Option<WindowPlacement>) -> (r: bool)
    ensures
        r == restore_defined(area, w, h, *remembered),
{
    let (anchor, gap_x, gap_y) = match remembered {
        Some(p) => (p.anchor, p.offset_x, p.offset_y),
        None => (WindowAnchor::TopRight, crate::model::EDGE_GAP, crate::model::EDGE_GAP),
    };
    let left = area.x as i64;
    let top = area.y as i64;
    let right = left + signed_len(area.width);
    let bottom = top + signed_len(area.height);
    let sw = signed_len(w);
    let sh = signed_len(h);
    let (x, y) = match anchor {
        WindowAnchor::TopLeft => (left + gap_x as i64, top + gap_y as i64),
        WindowAnchor::TopRight => (right - sw - gap_x as i64, top + gap_y as i64),
        WindowAnchor::BottomLeft => (left + gap_x as i64, bottom - sh - gap_y as i64),
        WindowAnchor::BottomRight => (right - sw - gap_x as i64, bottom - sh - gap_y as i64),
    };
    fits_i64(right) && fits_i64(bottom) && fits_i64(right - sw) && fits_i64(bottom - sh)
        && fits_i64(x) && fits_i64(y) && left <= right - sw && top <= bottom - sh
}

fn snap_axis_is_defined(lo: i64, hi: i64, sw: i64, x: i64, threshold: i64) -> (r: bool)
    requires
        fits(lo as int),
        fits(hi as int),
        fits(x as int),
        -0x1_0000_0000 <= sw <= 0x1_0000_0000,
    ensures
        r == snap_axis_defined(lo as int, hi as int, sw as int, x as int, threshold as int),
{
    let far = hi - sw;
    if !(fits_i64(far) && abs_fits_i64(x - lo)) {
        return false;
    }
    if abs_i64(x - lo) < threshold {
        abs_fits_i64(lo - far)
    } else {
        abs_fits_i64(x - far)
    }
}

fn placement_is_defined(area: WorkArea, w: u32, h: u32, x: i32, y: i32) -> (r: bool)
    ensures
        r == placement_defined(area, w, h, x, y),
{
    let left = area.x as i64;
    let top = area.y as i64;
    let right = left + signed_len(area.width);
    let bottom = top + signed_len(area.height);
    let xr = x as i64 + signed_len(w);
    let yb = y as i64 + signed_len(h);
    fits_i64(right) && fits_i64(bottom) && fits_i64(xr) && fits_i64(yb) && abs_fits_i64(
        x as i64 - left,
    ) && abs_fits_i64(right - xr) && abs_fits_i64(y as i64 - top) && abs_fits_i64(bottom - yb)
}

/// Whether settling this move stays within `i32` (what `settle_move` requires).
pub fn settle_is_defined(
    settings: &AppSettings,
    area: WorkArea,
    w: u32,
    h: u32,
    x: i32,
    y: i32,
    threshold: i32,
) -> (r: bool)
    ensures
        r == settle_defined(*settings, area, w, h, x, y, threshold),
{
    let left = area.x as i64;
    let top = area.y as i64;
    let right = left + signed_len(area.width);
    let bottom = top + signed_len(area.height);
    let mut tx = x;
    let mut ty = y;
    if !(fits_i64(right) && fits_i64(bottom) && fits_i64(right - signed_len(w)) && fits_i64(
        bottom - signed_len(h),
    )) {
        return false;
    }
    if settings.edge_snap {
        if !(snap_axis_is_defined(left, right, signed_len(w), x as i64, threshold as i64)
            && snap_axis_is_defined(top, bottom, signed_len(h), y as i64, threshold as i64)) {
            return false;
        }
        let (sx, sy) = snap_to_edges(area, w, h, x, y, threshold);
        tx = sx;
        ty = sy;
    }
    if settings.remember_position {
        placement_is_defined(area, w, h, tx, ty)
    } else {
        true
    }
}

} // verus!

verus! {

/// Snapping a snapped position changes nothing: the move that snapping makes
/// does not snap again.
pub proof fn lemma_snap_is_stable(lo: int, hi: int, sw: int, x: int, threshold: int)
    ensures
        snap_axis(lo, hi, sw, snap_axis(lo, hi, sw, x, threshold), threshold) == snap_axis(
            lo,
            hi,
            sw,
            x,
            threshold,
        ),
{
}

/// For a window inside the work area, the edge nearer to the work area's edge
/// keeps its place when the resized window fits there: the right (bottom) edge
/// when that gap is the smaller one, else the left (top) edge.
pub proof fn lemma_resize_keeps_nearer_edge(
    a: WorkArea,
    x: i32,
    y: i32,
    w: u32,
    h: u32,
    target_w: i32,
    target_h: i32,
)
    requires
        resize_defined(a, x, y, w, h, target_w, target_h),
        a.x <= x && x + signed(w) <= right_edge(a),
        a.y <= y && y + signed(h) <= bottom_edge(a),
    ensures
        ({
            let r = resized_position(a, x, y, w, h, target_w, target_h);
            let cr = x + signed(w);
            let anchor_right = abs(right_edge(a) - cr) < abs(x - a.x);
            &&& anchor_right && a.x <= cr - target_w ==> r.0 + target_w == cr
            &&& !anchor_right && x <= right_edge(a) - target_w ==> r.0 == x
        }),
        ({
            let r = resized_position(a, x, y, w, h, target_w, target_h);
            let cb = y + signed(h);
            let anchor_bottom = abs(bottom_edge(a) - cb) < abs(y - a.y);
            &&& anchor_bottom && a.y <= cb - target_h ==> r.1 + target_h == cb
            &&& !anchor_bottom && y <= bottom_edge(a) - target_h ==> r.1 == y
        }),
{
}

} // verus!

verus! {

/// The monitor the window is restored on.
#[derive(Clone, Copy, Debug, PartialEq, Eq, Structural)]
pub enum MonitorPick {
    /// The monitor at this index of the available ones.
    Listed(usize),
    /// The primary monitor.
    Primary,
}

/// The monitor at index `i` has the wanted name.
pub open spec fn named_at(names: Seq<Option<String>>, wanted: Seq<char>, i: int) -> bool {
    names[i] matches Some(m) && m@ == wanted
}

/// Some available monitor has the wanted name.
pub open spec fn some_named(names: Seq<Option<String>>, wanted: Option<&str>) -> bool {
    wanted matches Some(w) && exists|i: int| 0 <= i < names.len() && named_at(names, w@, i)
}

/// Chooses the monitor to restore the window on: the first available one with
/// the remembered name, else the primary monitor when there is one, else the
/// first available monitor.
pub fn pick_monitor(names: &Vec<Option<String>>, wanted: Option<&str>, has_primary: bool) -> (r: Option<MonitorPick>)
    ensures
        some_named(names@, wanted) ==> (r matches Some(MonitorPick::Listed(i)) && i < names.len()
            && (wanted matches Some(w) && named_at(names@, w@, i as int) && forall|j: int|
            0 <= j < i ==> !named_at(names@, w@, j))),
        !some_named(names@, wanted) && has_primary ==> r == Some(MonitorPick::Primary),
        !some_named(names@, wanted) && !has_primary && names.len() > 0 ==> r == Some(
            MonitorPick::Listed(0),
        ),
        !some_named(names@, wanted) && !has_primary && names.len() == 0 ==> r is None,
{
    match wanted {
        Some(w) => match find_monitor_by_name(names, w) {
            Some(i) => {
                return Some(MonitorPick::Listed(i));
            },
            None => {},
        },
        None => {},
    }
    if has_primary {
        Some(MonitorPick::Primary)
    } else if names.len() > 0 {
        Some(MonitorPick::Listed(0))
    } else {
        None
    }
}

} // verus!

verus! {

/// A window whose move is settled at a position inside the work area, with
/// positions remembered, is stored with a placement that restores it to that
/// same position.
pub proof fn lemma_settled_position_is_restored(
    s: AppSettings,
    a: WorkArea,
    w: u32,
    h: u32,
    x: i32,
    y: i32,
    threshold: i32,
    monitor_name: Option<String>,
    scale_factor_bits: u64,
)
    requires
        settle_defined(s, a, w, h, x, y, threshold),
        s.remember_position,
        0 <= signed(w),
        0 <= signed(h),
        ({
            let p = settled_position(s, a, w, h, x, y, threshold);
            &&& a.x <= p.0 && p.0 + signed(w) <= right_edge(a)
            &&& a.y <= p.1 && p.1 + signed(h) <= bottom_edge(a)
        }),
    ensures
        ({
            let p = settled_position(s, a, w, h, x, y, threshold);
            let pl = placement_of(a, w, h, p.0 as i32, p.1 as i32, monitor_name, scale_factor_bits);
            let stored = AppSettings { placement: Some(pl), ..s };
            &&& stored.remember_position && stored.placement == Some(pl)
            &&& restore_defined(a, w, h, Some(pl))
            &&& restored_position(a, w, h, Some(pl)) == p
        }),
{
    let p = settled_position(s, a, w, h, x, y, threshold);
    assert(fits(p.0) && fits(p.1));
    lemma_restore_returns_recorded_position(
        a,
        w,
        h,
        p.0 as i32,
        p.1 as i32,
        monitor_name,
        scale_factor_bits,
    );
}

} // verus!

verus! {

/// Snapping along one axis, stated on the gaps: `far` is where the window
/// touches the far edge (`hi - sw`). Within `threshold` of the near edge the
/// window moves onto it, unless the far edge is also within `threshold` of
/// there, when it moves onto the far edge; away from the near edge it moves
/// onto the far edge when within `threshold` of it, on either side; otherwise
/// it stays.
pub proof fn lemma_snap_axis_by_gaps(lo: int, hi: int, sw: int, x: int, threshold: int)
    ensures
        ({
            let far = hi - sw;
            let r = snap_axis(lo, hi, sw, x, threshold);
            &&& abs(x - lo) >= threshold && abs(x - far) < threshold ==> r == far
            &&& abs(x - lo) >= threshold && abs(x - far) >= threshold ==> r == x
            &&& abs(x - lo) < threshold && abs(lo - far) < threshold ==> r == far
            &&& abs(x - lo) < threshold && abs(lo - far) >= threshold ==> r == lo
            &&& r == x || r == lo || r == far
        }),
{
}

/// The recorded placement names the nearer horizontal and vertical edges: a
/// right anchor exactly when the right gap is smaller than the left gap, a
/// bottom anchor exactly when the bottom gap is smaller than the top gap, and
/// the offsets are the gaps to the anchored edges.
pub proof fn lemma_placement_by_gaps(
    a: WorkArea,
    w: u32,
    h: u32,
    x: i32,
    y: i32,
    monitor_name: Option<String>,
    scale_factor_bits: u64,
)
    requires
        placement_defined(a, w, h, x, y),
    ensures
        ({
            let p = placement_of(a, w, h, x, y, monitor_name, scale_factor_bits);
            let dl = abs(x - a.x);
            let dr = abs(right_edge(a) - (x + signed(w)));
            let dt = abs(y - a.y);
            let db = abs(bottom_edge(a) - (y + signed(h)));
            let right = p.anchor == WindowAnchor::TopRight || p.anchor == WindowAnchor::BottomRight;
            let bottom = p.anchor == WindowAnchor::BottomLeft || p.anchor
                == WindowAnchor::BottomRight;
            &&& right <==> dr < dl
            &&& bottom <==> db < dt
            &&& p.offset_x == (if right {
                dr
            } else {
                dl
            })
            &&& p.offset_y == (if bottom {
                db
            } else {
                dt
            })
            &&& p.monitor_name == monitor_name
            &&& p.scale_factor_bits == scale_factor_bits
        }),
{
}

} // verus!
