//! Screen geometry: finding the monitor under a point, the bounding box of
//! the virtual desktop, and composing the monitors' screenshots into one
//! frozen desktop image.

use vstd::prelude::*;
use crate::imaging::{
    RgbaBuffer, blank_rgba, crop_rgba, is_crop_of, is_opaque, overlay_fits, overlay_pixels,
    overlay_rgba,
};

verus! {

/// Position and size of a monitor in virtual-desktop pixels.
#[derive(Debug, Clone, Copy)]
pub struct MonitorGeometry {
    pub x: i32,
    pub y: i32,
    pub width: u32,
    pub height: u32,
}

impl MonitorGeometry {
    /// The monitor's right and bottom edges, and its size, fit in `i32`.
    pub open spec fn wf(&self) -> bool {
        &&& self.width <= i32::MAX
        &&& self.height <= i32::MAX
        &&& self.x + self.width <= i32::MAX
        &&& self.y + self.height <= i32::MAX
    }

    /// The point (`px`, `py`) lies on this monitor.
    pub open spec fn contains(&self, px: int, py: int) -> bool {
        &&& self.x <= px < self.x + self.width
        &&& self.y <= py < self.y + self.height
    }
}

/// A point given relative to the top-left corner of one of the monitors.
#[derive(Debug, Clone, Copy, PartialEq, Eq, Structural)]
pub struct MonitorPoint {
    pub monitor: usize,
    pub x: u32,
    pub y: u32,
}

/// Finds the first monitor (in the given order) that contains the point
/// (`px`, `py`) and returns the point relative to that monitor; `None` when
/// no monitor contains it.
pub fn locate_point(monitors: &Vec<MonitorGeometry>, px: i32, py: i32) -> (r: Option<MonitorPoint>)
    ensures
        r is None <==> forall|i: int| 0 <= i < monitors@.len() ==> !monitors@[i].contains(px as int, py as int),
        r matches Some(p) ==> {
            &&& p.monitor < monitors@.len()
            &&& monitors@[p.monitor as int].contains(px as int, py as int)
            &&& forall|i: int| 0 <= i < p.monitor ==> !monitors@[i].contains(px as int, py as int)
            &&& p.x == px - monitors@[p.monitor as int].x
            &&& p.y == py - monitors@[p.monitor as int].y
            &&& p.x < monitors@[p.monitor as int].width
            &&& p.y < monitors@[p.monitor as int].height
        },
{
    let mut i: usize = 0;
    while i < monitors.len()
        invariant
            i <= monitors@.len(),
            forall|j: int| 0 <= j < i ==> !monitors@[j].contains(px as int, py as int),
        decreases monitors@.len() - i,
    {
        let m = monitors[i];
        let left = m.x as i64;
        let top = m.y as i64;
        let right = left + m.width as i64;
        let bottom = top + m.height as i64;
        let x = px as i64;
        let y = py as i64;
        if left <= x && x < right && top <= y && y < bottom {
            return Some(MonitorPoint { monitor: i, x: (x - left) as u32, y: (y - top) as u32 });
        }
        i = i + 1;
    }
    None
}

/// Cuts the `width` by `height` region whose top-left corner is `at` out
/// of the screenshot of the monitor that `at` refers to, clipped to the
/// screenshot.
pub fn cut_region(shot: &RgbaBuffer, at: MonitorPoint, width: u32, height: u32) -> (r: RgbaBuffer)
    requires
        shot.wf(),
    ensures
        is_crop_of(r, *shot, at.x, at.y, width, height),
{
    crop_rgba(shot, at.x, at.y, width, height)
}

/// Smallest left edge among `ms` (`i32::MAX` when there is none).
pub open spec fn min_left(ms: Seq<MonitorGeometry>) -> int
    decreases ms.len(),
{
    if ms.len() == 0 {
        i32::MAX as int
    } else {
        let rest = min_left(ms.drop_last());
        if ms.last().x < rest {
            ms.last().x as int
        } else {
            rest
        }
    }
}

/// Smallest top edge among `ms` (`i32::MAX` when there is none).
pub open spec fn min_top(ms: Seq<MonitorGeometry>) -> int
    decreases ms.len(),
{
    if ms.len() == 0 {
        i32::MAX as int
    } else {
        let rest = min_top(ms.drop_last());
        if ms.last().y < rest {
            ms.last().y as int
        } else {
            rest
        }
    }
}

/// Largest right edge among `ms` (`i32::MIN` when there is none).
pub open spec fn max_right(ms: Seq<MonitorGeometry>) -> int
    decreases ms.len(),
{
    if ms.len() == 0 {
        i32::MIN as int
    } else {
        let rest = max_right(ms.drop_last());
        let edge = ms.last().x + ms.last().width;
        if edge > rest {
            edge
        } else {
            rest
        }
    }
}

/// Largest bottom edge among `ms` (`i32::MIN` when there is none).
pub open spec fn max_bottom(ms: Seq<MonitorGeometry>) -> int
    decreases ms.len(),
{
    if ms.len() == 0 {
        i32::MIN as int
    } else {
        let rest = max_bottom(ms.drop_last());
        let edge = ms.last().y + ms.last().height;
        if edge > rest {
            edge
        } else {
            rest
        }
    }
}

/// The monitors can be laid out on one desktop canvas: there is at least
/// one, each is well formed, the desktop's extent fits in `i32`, and the
/// canvas fits in memory.
pub open spec fn desktop_fits(ms: Seq<MonitorGeometry>) -> bool {
    &&& ms.len() > 0
    &&& forall|i: int| 0 <= i < ms.len() ==> (#[trigger] ms[i]).wf()
    &&& max_right(ms) - min_left(ms) <= i32::MAX
    &&& max_bottom(ms) - min_top(ms) <= i32::MAX
    &&& (max_right(ms) - min_left(ms)) * (max_bottom(ms) - min_top(ms)) * 4 <= usize::MAX
}

/// Whether the monitors can be laid out on one desktop canvas (see
/// `desktop_fits`).
pub fn check_desktop_fits(monitors: &Vec<MonitorGeometry>) -> (r: bool)
    ensures
        r == desktop_fits(monitors@),
{
    if monitors.len() == 0 {
        return false;
    }
    let mut min_x: i64 = i32::MAX as i64;
    let mut min_y: i64 = i32::MAX as i64;
    let mut max_x: i64 = i32::MIN as i64;
    let mut max_y: i64 = i32::MIN as i64;
    let mut all_wf = true;
    let mut i: usize = 0;
    while i < monitors.len()
        invariant
            i <= monitors@.len(),
            min_x == min_left(monitors@.subrange(0, i as int)),
            min_y == min_top(monitors@.subrange(0, i as int)),
            max_x == max_right(monitors@.subrange(0, i as int)),
            max_y == max_bottom(monitors@.subrange(0, i as int)),
            i32::MIN <= min_x <= i32::MAX,
            i32::MIN <= min_y <= i32::MAX,
            i32::MIN <= max_x <= i32::MAX + u32::MAX,
            i32::MIN <= max_y <= i32::MAX + u32::MAX,
            all_wf == (forall|j: int| 0 <= j < i ==> (#[trigger] monitors@[j]).wf()),
        decreases monitors@.len() - i,
    {
        let m = monitors[i];
        proof {
            lemma_bounds_step(monitors@, i as int);
        }
        let right = m.x as i64 + m.width as i64;
        let bottom = m.y as i64 + m.height as i64;
        let ok = m.width <= i32::MAX as u32 && m.height <= i32::MAX as u32 && right
            <= i32::MAX as i64 && bottom <= i32::MAX as i64;
        proof {
            assert(ok == monitors@[i as int].wf());
            if all_wf && ok {
                assert forall|j: int| 0 <= j < i + 1 implies (#[trigger] monitors@[j]).wf() by {}
            }
            if !ok {
                assert(!monitors@[i as int].wf());
            }
        }
        all_wf = all_wf && ok;
        if (m.x as i64) < min_x {
            min_x = m.x as i64;
        }
        if (m.y as i64) < min_y {
            min_y = m.y as i64;
        }
        if right > max_x {
            max_x = right;
        }
        if bottom > max_y {
            max_y = bottom;
        }
        i = i + 1;
    }
    proof {
        assert(monitors@.subrange(0, monitors@.len() as int) =~= monitors@);
        lemma_bounds_cover(monitors@);
    }
    if !all_wf {
        return false;
    }
    let w = max_x - min_x;
    let h = max_y - min_y;
    if w > i32::MAX as i64 || h > i32::MAX as i64 {
        return false;
    }
    let w128 = w as u128;
    let h128 = h as u128;
    proof {
        assert(w128 * h128 <= (i32::MAX as u128) * (i32::MAX as u128)) by (nonlinear_arith)
            requires
                w128 <= i32::MAX as u128,
                h128 <= i32::MAX as u128,
        ;
    }
    w128 * h128 * 4 <= usize::MAX as u128
}

/// The bounding box of all monitors.
#[derive(Debug, Clone, Copy, PartialEq, Eq, Structural)]
pub struct DesktopBounds {
    pub x: i32,
    pub y: i32,
    pub width: u32,
    pub height: u32,
}

/// The bounding box of the virtual desktop that `ms` spans.
pub open spec fn desktop_bounds_of(ms: Seq<MonitorGeometry>) -> DesktopBounds {
    DesktopBounds {
        x: min_left(ms) as i32,
        y: min_top(ms) as i32,
        width: (max_right(ms) - min_left(ms)) as u32,
        height: (max_bottom(ms) - min_top(ms)) as u32,
    }
}

proof fn lemma_bounds_step(ms: Seq<MonitorGeometry>, i: int)
    requires
        0 <= i < ms.len(),
    ensures
        ms.subrange(0, i + 1).drop_last() =~= ms.subrange(0, i),
        ms.subrange(0, i + 1).last() == ms[i],
{
}

proof fn lemma_bounds_cover(ms: Seq<MonitorGeometry>)
    ensures
        forall|i: int|
            0 <= i < ms.len() ==> min_left(ms) <= (#[trigger] ms[i]).x && min_top(ms) <= ms[i].y
                && ms[i].x + ms[i].width <= max_right(ms) && ms[i].y + ms[i].height <= max_bottom(
                ms,
            ),
        ms.len() > 0 ==> min_left(ms) >= i32::MIN && min_top(ms) >= i32::MIN,
        ms.len() > 0 ==> (exists|i: int| 0 <= i < ms.len() && min_left(ms) == ms[i].x),
        ms.len() > 0 ==> (exists|i: int| 0 <= i < ms.len() && min_top(ms) == ms[i].y),
        ms.len() > 0 ==> (exists|i: int|
            0 <= i < ms.len() && max_right(ms) == ms[i].x + ms[i].width),
        ms.len() > 0 ==> (exists|i: int|
            0 <= i < ms.len() && max_bottom(ms) == ms[i].y + ms[i].height),
    decreases ms.len(),
{
    if ms.len() > 0 {
        let p = ms.drop_last();
        lemma_bounds_cover(p);
        assert forall|i: int| 0 <= i < p.len() implies p[i] == ms[i] by {}
        if p.len() > 0 {
            let a = choose|i: int| 0 <= i < p.len() && min_left(p) == p[i].x;
            let b = choose|i: int| 0 <= i < p.len() && min_top(p) == p[i].y;
            let c = choose|i: int| 0 <= i < p.len() && max_right(p) == p[i].x + p[i].width;
            let d = choose|i: int| 0 <= i < p.len() && max_bottom(p) == p[i].y + p[i].height;
            assert(ms[a] == p[a] && ms[b] == p[b] && ms[c] == p[c] && ms[d] == p[d]);
        }
        assert(ms[ms.len() - 1] == ms.last());
    }
}

/// The desktop canvas spans every monitor, and no more: each of its four
/// edges is the edge of some monitor.
pub proof fn lemma_desktop_covers_monitors(ms: Seq<MonitorGeometry>)
    requires
        desktop_fits(ms),
    ensures
        ({
            let b = desktop_bounds_of(ms);
            &&& forall|i: int|
                0 <= i < ms.len() ==> b.x <= (#[trigger] ms[i]).x && b.y <= ms[i].y && ms[i].x
                    + ms[i].width <= b.x + b.width && ms[i].y + ms[i].height <= b.y + b.height
            &&& exists|i: int| 0 <= i < ms.len() && ms[i].x == b.x
            &&& exists|i: int| 0 <= i < ms.len() && ms[i].y == b.y
            &&& exists|i: int| 0 <= i < ms.len() && ms[i].x + ms[i].width == b.x + b.width
            &&& exists|i: int| 0 <= i < ms.len() && ms[i].y + ms[i].height == b.y + b.height
        }),
{
    lemma_bounds_cover(ms);
}

/// Any non-empty layout of well-formed monitors can be laid out on one
/// canvas, wherever the monitors lie (left of or above the primary one
/// included), as long as the distance from any monitor's left (top) edge to
/// any monitor's right (bottom) edge fits in `i32` and the canvas spanned by
/// those edges fits in memory.
pub proof fn lemma_desktop_fits_anywhere(ms: Seq<MonitorGeometry>)
    requires
        ms.len() > 0,
        forall|i: int| 0 <= i < ms.len() ==> (#[trigger] ms[i]).wf(),
        forall|i: int, j: int|
            0 <= i < ms.len() && 0 <= j < ms.len() ==> #[trigger] ms[j].x + ms[j].width - #[trigger] ms[i].x
                <= i32::MAX && ms[j].y + ms[j].height - ms[i].y <= i32::MAX,
        forall|i: int, j: int, k: int, l: int|
            0 <= i < ms.len() && 0 <= j < ms.len() && 0 <= k < ms.len() && 0 <= l < ms.len()
                && ms[i].x <= ms[j].x + ms[j].width && ms[k].y <= ms[l].y + ms[l].height ==> (ms[j].x
                + ms[j].width - ms[i].x) * (ms[l].y + ms[l].height - ms[k].y) * 4 <= usize::MAX,
    ensures
        desktop_fits(ms),
{
    lemma_bounds_cover(ms);
    let i = choose|i: int| 0 <= i < ms.len() && min_left(ms) == ms[i].x;
    let k = choose|i: int| 0 <= i < ms.len() && min_top(ms) == ms[i].y;
    let j = choose|i: int| 0 <= i < ms.len() && max_right(ms) == ms[i].x + ms[i].width;
    let l = choose|i: int| 0 <= i < ms.len() && max_bottom(ms) == ms[i].y + ms[i].height;
    assert(ms[j].x + ms[j].width - ms[i].x <= i32::MAX);
    assert(ms[l].y + ms[l].height - ms[k].y <= i32::MAX);
    assert(ms[i].x <= ms[i].x + ms[i].width);
    assert(ms[k].y <= ms[k].y + ms[k].height);
}

/// Computes the bounding box of the virtual desktop that the monitors span.
pub fn desktop_bounds(monitors: &Vec<MonitorGeometry>) -> (r: DesktopBounds)
    requires
        desktop_fits(monitors@),
    ensures
        r == desktop_bounds_of(monitors@),
{
    let mut min_x: i32 = i32::MAX;
    let mut min_y: i32 = i32::MAX;
    let mut max_x: i32 = i32::MIN;
    let mut max_y: i32 = i32::MIN;
    let mut i: usize = 0;
    while i < monitors.len()
        invariant
            i <= monitors@.len(),
            desktop_fits(monitors@),
            min_x == min_left(monitors@.subrange(0, i as int)),
            min_y == min_top(monitors@.subrange(0, i as int)),
            max_x == max_right(monitors@.subrange(0, i as int)),
            max_y == max_bottom(monitors@.subrange(0, i as int)),
        decreases monitors@.len() - i,
    {
        let m = monitors[i];
        proof {
            lemma_bounds_step(monitors@, i as int);
            assert(monitors@[i as int].wf());
        }
        if m.x < min_x {
            min_x = m.x;
        }
        if m.y < min_y {
            min_y = m.y;
        }
        let right = m.x + m.width as i32;
        let bottom = m.y + m.height as i32;
        if right > max_x {
            max_x = right;
        }
        if bottom > max_y {
            max_y = bottom;
        }
        i = i + 1;
    }
    proof {
        assert(monitors@.subrange(0, monitors@.len() as int) =~= monitors@);
        lemma_bounds_cover(monitors@);
    }
    DesktopBounds {
        x: min_x,
        y: min_y,
        width: (max_x - min_x) as u32,
        height: (max_y - min_y) as u32,
    }
}

/// The desktop canvas after the first `n` screenshots have been overlaid,
/// each at its monitor's offset from the desktop's top-left corner;
/// monitors whose capture failed (`None`) are skipped.
pub open spec fn composed_pixels(
    canvas: Seq<u8>,
    bounds: DesktopBounds,
    ms: Seq<MonitorGeometry>,
    shots: Seq<Option<RgbaBuffer>>,
    n: nat,
) -> Seq<u8>
    decreases n,
{
    if n == 0 {
        canvas
    } else {
        let prev = composed_pixels(canvas, bounds, ms, shots, (n - 1) as nat);
        match shots[n - 1] {
            Some(shot) => overlay_pixels(
                prev,
                bounds.width,
                bounds.height,
                shot.data@,
                shot.width,
                shot.height,
                (ms[n - 1].x - bounds.x) as i64,
                (ms[n - 1].y - bounds.y) as i64,
            ),
            None => prev,
        }
    }
}

/// The virtual desktop frozen into one image, and where its top-left
/// corner lies.
#[derive(Debug, Clone)]
pub struct FrozenDesktop {
    pub bounds: DesktopBounds,
    pub image: RgbaBuffer,
}

/// No two monitors overlap.
pub open spec fn monitors_disjoint(ms: Seq<MonitorGeometry>) -> bool {
    forall|i: int, j: int|
        0 <= i < ms.len() && 0 <= j < ms.len() && i != j ==> !(ms[i].x < ms[j].x + ms[j].width
            && ms[j].x < ms[i].x + ms[i].width && ms[i].y < ms[j].y + ms[j].height && ms[j].y
            < ms[i].y + ms[i].height)
}

/// Every screenshot has the size of its monitor.
pub open spec fn shots_match(ms: Seq<MonitorGeometry>, shots: Seq<Option<RgbaBuffer>>) -> bool {
    forall|i: int|
        0 <= i < shots.len() ==> (#[trigger] shots[i] matches Some(s) ==> s.width == ms[i].width
            && s.height == ms[i].height)
}

/// `img`, a canvas whose top-left corner is at (`b.x`, `b.y`) on the
/// desktop, shows `shot` where monitor `m` is.
pub open spec fn shows_shot(img: RgbaBuffer, b: DesktopBounds, m: MonitorGeometry, shot: RgbaBuffer) -> bool {
    forall|a: int, d: int, c: int|
        0 <= a < m.width && 0 <= d < m.height && 0 <= c < 4 ==> img.at(m.x - b.x + a, m.y - b.y + d, c)
            == #[trigger] shot.at(a, d, c)
}

/// An opaque screenshot is shown where its monitor is (a failed capture
/// promises nothing).
pub open spec fn opaque_shot_shown(
    img: RgbaBuffer,
    b: DesktopBounds,
    m: MonitorGeometry,
    shot: Option<RgbaBuffer>,
) -> bool {
    match shot {
        Some(s) => is_opaque(s) ==> shows_shot(img, b, m, s),
        None => true,
    }
}

/// Index of the last of the first `n` monitors that was captured and
/// covers the canvas point (`px`, `py`); -1 when there is none.
pub open spec fn last_cover(
    ms: Seq<MonitorGeometry>,
    shots: Seq<Option<RgbaBuffer>>,
    b: DesktopBounds,
    n: int,
    px: int,
    py: int,
) -> int
    decreases n,
{
    if n <= 0 {
        -1
    } else if shots[n - 1] is Some && ms[n - 1].contains(px + b.x, py + b.y) {
        n - 1
    } else {
        last_cover(ms, shots, b, n - 1, px, py)
    }
}

/// `img` holds, at the canvas point (`px`, `py`), what the captured monitors
/// among the first `n` put there: nothing (transparent black) when none
/// covers it, and otherwise, when the pixel of the last screenshot covering
/// it is fully opaque, that pixel.
pub open spec fn canvas_pixel_ok(
    img: RgbaBuffer,
    ms: Seq<MonitorGeometry>,
    shots: Seq<Option<RgbaBuffer>>,
    b: DesktopBounds,
    n: int,
    px: int,
    py: int,
    c: int,
) -> bool {
    let k = last_cover(ms, shots, b, n, px, py);
    let shot = shots[k]->Some_0;
    let (sx, sy) = (px + b.x - ms[k].x, py + b.y - ms[k].y);
    &&& k < 0 ==> img.at(px, py, c) == 0
    &&& k >= 0 && shot.at(sx, sy, 3) == 255 ==> img.at(px, py, c) == shot.at(sx, sy, c)
}

proof fn lemma_last_cover_range(
    ms: Seq<MonitorGeometry>,
    shots: Seq<Option<RgbaBuffer>>,
    b: DesktopBounds,
    n: int,
    px: int,
    py: int,
)
    requires
        0 <= n,
    ensures
        ({
            let k = last_cover(ms, shots, b, n, px, py);
            k < n && (k >= 0 ==> shots[k] is Some && ms[k].contains(px + b.x, py + b.y))
        }),
    decreases n,
{
    if n > 0 {
        lemma_last_cover_range(ms, shots, b, n - 1, px, py);
    }
}

proof fn lemma_pixel_index(w: u32, h: u32, px: int, py: int, c: int)
    requires
        0 <= px < w,
        0 <= py < h,
        0 <= c < 4,
    ensures
        0 <= (py * w + px) * 4 + c < w * h * 4,
{
    assert(0 <= (py * w + px) * 4 + c < w * h * 4) by (nonlinear_arith)
        requires
            0 <= px < w,
            0 <= py < h,
            0 <= c < 4,
    ;
}

/// `after` differs from `before` at most on monitor `i`'s rectangle.
pub open spec fn changed_only_on(
    before: RgbaBuffer,
    after: RgbaBuffer,
    b: DesktopBounds,
    m: MonitorGeometry,
) -> bool {
    forall|px: int, py: int, c: int|
        0 <= px < before.width && 0 <= py < before.height && 0 <= c < 4 && !m.contains(
            px + b.x,
            py + b.y,
        ) ==> #[trigger] after.at(px, py, c) == before.at(px, py, c)
}

proof fn lemma_cover_step(
    ms: Seq<MonitorGeometry>,
    shots: Seq<Option<RgbaBuffer>>,
    b: DesktopBounds,
    before: RgbaBuffer,
    after: RgbaBuffer,
    i: int,
)
    requires
        0 <= i < ms.len(),
        shots.len() == ms.len(),
        after.width == before.width,
        after.height == before.height,
        shots[i] is None ==> after == before,
        shots[i] is Some ==> changed_only_on(before, after, b, ms[i]),
        shots[i] matches Some(s) ==> forall|px: int, py: int, c: int|
            0 <= px < before.width && 0 <= py < before.height && 0 <= c < 4 && ms[i].contains(
                px + b.x,
                py + b.y,
            ) && s.at(px + b.x - ms[i].x, py + b.y - ms[i].y, 3) == 255 ==> #[trigger] after.at(
                px,
                py,
                c,
            ) == s.at(px + b.x - ms[i].x, py + b.y - ms[i].y, c),
        forall|px: int, py: int, c: int|
            0 <= px < before.width && 0 <= py < before.height && 0 <= c < 4 ==> #[trigger] canvas_pixel_ok(
                before,
                ms,
                shots,
                b,
                i,
                px,
                py,
                c,
            ),
    ensures
        forall|px: int, py: int, c: int|
            0 <= px < after.width && 0 <= py < after.height && 0 <= c < 4 ==> #[trigger] canvas_pixel_ok(
                after,
                ms,
                shots,
                b,
                i + 1,
                px,
                py,
                c,
            ),
{
    assert forall|px: int, py: int, c: int|
        0 <= px < after.width && 0 <= py < after.height && 0 <= c < 4 implies #[trigger] canvas_pixel_ok(
        after,
        ms,
        shots,
        b,
        i + 1,
        px,
        py,
        c,
    ) by {
        assert(canvas_pixel_ok(before, ms, shots, b, i, px, py, c));
        lemma_last_cover_range(ms, shots, b, i, px, py);
        if shots[i] is Some && ms[i].contains(px + b.x, py + b.y) {
            let s = shots[i]->Some_0;
            if s.at(px + b.x - ms[i].x, py + b.y - ms[i].y, 3) == 255 {
                assert(after.at(px, py, c) == s.at(px + b.x - ms[i].x, py + b.y - ms[i].y, c));
            }
        } else {
            assert(after.at(px, py, c) == before.at(px, py, c));
        }
    }
}

proof fn lemma_shots_stay_shown(
    ms: Seq<MonitorGeometry>,
    shots: Seq<Option<RgbaBuffer>>,
    b: DesktopBounds,
    before: RgbaBuffer,
    after: RgbaBuffer,
    i: int,
)
    requires
        0 <= i < ms.len(),
        shots.len() == ms.len(),
        monitors_disjoint(ms),
        changed_only_on(before, after, b, ms[i]),
        forall|j: int|
            0 <= j < ms.len() ==> b.x <= (#[trigger] ms[j]).x && b.y <= ms[j].y && ms[j].x
                + ms[j].width <= b.x + before.width && ms[j].y + ms[j].height <= b.y + before.height,
        forall|j: int| 0 <= j < i ==> opaque_shot_shown(before, b, ms[j], #[trigger] shots[j]),
        shots[i] matches Some(s) ==> is_opaque(s) ==> shows_shot(after, b, ms[i], s),
    ensures
        forall|j: int| 0 <= j < i + 1 ==> opaque_shot_shown(after, b, ms[j], #[trigger] shots[j]),
{
    assert forall|j: int| 0 <= j < i + 1 implies opaque_shot_shown(after, b, ms[j], #[trigger] shots[j]) by {
        if j < i {
            if let Some(s) = shots[j] {
                if is_opaque(s) {
                    let mj = ms[j];
                    assert forall|a: int, d: int, c: int|
                        0 <= a < mj.width && 0 <= d < mj.height && 0 <= c < 4 implies after.at(
                        mj.x - b.x + a,
                        mj.y - b.y + d,
                        c,
                    ) == #[trigger] s.at(a, d, c) by {
                        let px = mj.x - b.x + a;
                        let py = mj.y - b.y + d;
                        assert(!ms[i].contains(px + b.x, py + b.y));
                        assert(after.at(px, py, c) == before.at(px, py, c));
                    }
                }
            }
        }
    }
}

/// Lays the monitors' screenshots out on one canvas covering the whole
/// virtual desktop. `shots[i]` is the capture of `monitors[i]`, or `None`
/// when capturing it failed; the canvas starts out transparent black.
pub fn compose_desktop(monitors: &Vec<MonitorGeometry>, shots: &Vec<Option<RgbaBuffer>>) -> (r:
    FrozenDesktop)
    requires
        desktop_fits(monitors@),
        shots@.len() == monitors@.len(),
        forall|i: int| 0 <= i < shots@.len() ==> (#[trigger] shots@[i] matches Some(s) ==> s.wf()),
    ensures
        r.bounds == desktop_bounds_of(monitors@),
        r.image.wf(),
        r.image.width == r.bounds.width,
        r.image.height == r.bounds.height,
        r.image.data@ == composed_pixels(
            Seq::new((r.bounds.width * r.bounds.height * 4) as nat, |i: int| 0u8),
            r.bounds,
            monitors@,
            shots@,
            monitors@.len(),
        ),
        shots_match(monitors@, shots@) && monitors_disjoint(monitors@) ==> forall|i: int|
            0 <= i < shots@.len() ==> opaque_shot_shown(r.image, r.bounds, monitors@[i], #[trigger] shots@[i]),
        shots_match(monitors@, shots@) ==> forall|px: int, py: int, c: int|
            0 <= px < r.image.width && 0 <= py < r.image.height && 0 <= c < 4
                ==> #[trigger] canvas_pixel_ok(
                r.image,
                monitors@,
                shots@,
                r.bounds,
                monitors@.len() as int,
                px,
                py,
                c,
            ),
{
    let bounds = desktop_bounds(monitors);
    proof {
        lemma_bounds_cover(monitors@);
    }
    let mut canvas = blank_rgba(bounds.width, bounds.height);
    let ghost blank = canvas.data@;
    assert(blank =~= Seq::new((bounds.width * bounds.height * 4) as nat, |i: int| 0u8));
    proof {
        assert forall|px: int, py: int, c: int|
            0 <= px < canvas.width && 0 <= py < canvas.height && 0 <= c < 4 implies #[trigger] canvas_pixel_ok(
            canvas,
            monitors@,
            shots@,
            bounds,
            0,
            px,
            py,
            c,
        ) by {
            lemma_pixel_index(canvas.width, canvas.height, px, py, c);
        }
    }
    let mut i: usize = 0;
    while i < shots.len()
        invariant
            i <= shots@.len(),
            shots@.len() == monitors@.len(),
            desktop_fits(monitors@),
            bounds == desktop_bounds_of(monitors@),
            forall|j: int| 0 <= j < shots@.len() ==> (#[trigger] shots@[j] matches Some(s) ==> s.wf()),
            forall|j: int|
                0 <= j < monitors@.len() ==> bounds.x <= (#[trigger] monitors@[j]).x && bounds.y
                    <= monitors@[j].y && monitors@[j].x + monitors@[j].width <= bounds.x
                    + bounds.width && monitors@[j].y + monitors@[j].height <= bounds.y
                    + bounds.height,
            canvas.wf(),
            canvas.width == bounds.width,
            canvas.height == bounds.height,
            canvas.data@ == composed_pixels(blank, bounds, monitors@, shots@, i as nat),
            shots_match(monitors@, shots@) && monitors_disjoint(monitors@) ==> forall|j: int|
                0 <= j < i ==> opaque_shot_shown(canvas, bounds, monitors@[j], #[trigger] shots@[j]),
            shots_match(monitors@, shots@) ==> forall|px: int, py: int, c: int|
                0 <= px < canvas.width && 0 <= py < canvas.height && 0 <= c < 4
                    ==> #[trigger] canvas_pixel_ok(
                    canvas,
                    monitors@,
                    shots@,
                    bounds,
                    i as int,
                    px,
                    py,
                    c,
                ),
        decreases shots@.len() - i,
    {
        let m = monitors[i];
        proof {
            assert(monitors@[i as int].wf());
        }
        let ghost before = canvas;
        match &shots[i] {
            Some(shot) => {
                let dx = (m.x - bounds.x) as i64;
                let dy = (m.y - bounds.y) as i64;
                overlay_rgba(&mut canvas, shot, dx, dy);
                proof {
                    if shots_match(monitors@, shots@) {
                        assert(overlay_fits(before, *shot, dx, dy));
                        assert forall|px: int, py: int, c: int|
                            0 <= px < before.width && 0 <= py < before.height && 0 <= c < 4
                                && monitors@[i as int].contains(px + bounds.x, py + bounds.y)
                                && shot.at(px - dx, py - dy, 3) == 255 implies #[trigger] canvas.at(
                            px,
                            py,
                            c,
                        ) == shot.at(px - dx, py - dy, c) by {
                            assert(shot.at(px - dx, py - dy, c) == shot.at(px - dx, py - dy, c));
                        }
                        lemma_cover_step(monitors@, shots@, bounds, before, canvas, i as int);
                        if monitors_disjoint(monitors@) {
                            lemma_shots_stay_shown(monitors@, shots@, bounds, before, canvas, i as int);
                        }
                    }
                }
            },
            None => {
                proof {
                    if shots_match(monitors@, shots@) {
                        lemma_cover_step(monitors@, shots@, bounds, before, canvas, i as int);
                    }
                }
            },
        }
        i = i + 1;
    }
    FrozenDesktop { bounds, image: canvas }
}

} // verus!
