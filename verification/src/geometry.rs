use vstd::prelude::*;

verus! {

/// A position in physical pixels on the virtual desktop.
#[derive(Clone, Copy, Debug, PartialEq, Eq, Structural)]
pub struct Point {
    pub x: i32,
    pub y: i32,
}

/// A connected monitor: the top-left corner of its area on the virtual
/// desktop and its size, all in physical pixels.
#[derive(Clone, Copy, Debug, PartialEq, Eq, Structural)]
pub struct Monitor {
    pub x: i32,
    pub y: i32,
    pub width: u32,
    pub height: u32,
}

/// The far (exclusive) edge of a monitor along one axis: its origin plus
/// its size read as a signed pixel count.
pub open spec fn far_edge(origin: i32, size: u32) -> int {
    origin as int + (size as i32) as int
}

/// `(x, y)` is on monitor `m`, allowing 4 px of slack above and to the
/// left of its top-left corner (a window dragged slightly past the edge
/// still counts as visible).
pub open spec fn near_monitor(m: Monitor, x: int, y: int) -> bool {
    &&& m.x - 4 <= x < far_edge(m.x, m.width)
    &&& m.y - 4 <= y < far_edge(m.y, m.height)
}

/// `(x, y)` lies inside monitor `m`.
pub open spec fn inside_monitor(m: Monitor, x: int, y: int) -> bool {
    &&& m.x <= x < far_edge(m.x, m.width)
    &&& m.y <= y < far_edge(m.y, m.height)
}

/// Some monitor of `monitors` has `(x, y)` near it.
pub open spec fn spec_on_screen(monitors: Seq<Monitor>, x: int, y: int) -> bool {
    exists|i: int| 0 <= i < monitors.len() && near_monitor(#[trigger] monitors[i], x, y)
}

/// Some monitor of `monitors` has `(x, y)` inside it.
pub open spec fn spec_under_some_monitor(monitors: Seq<Monitor>, x: int, y: int) -> bool {
    exists|i: int| 0 <= i < monitors.len() && inside_monitor(#[trigger] monitors[i], x, y)
}

fn far_edge_exec(origin: i32, size: u32) -> (e: i64)
    ensures
        e == far_edge(origin, size),
{
    origin as i64 + (size as i32) as i64
}

fn near_monitor_exec(m: &Monitor, x: i32, y: i32) -> (b: bool)
    ensures
        b == near_monitor(*m, x as int, y as int),
{
    let x = x as i64;
    let y = y as i64;
    m.x as i64 - 4 <= x && x < far_edge_exec(m.x, m.width) && m.y as i64 - 4 <= y
        && y < far_edge_exec(m.y, m.height)
}

fn inside_monitor_exec(m: &Monitor, x: i32, y: i32) -> (b: bool)
    ensures
        b == inside_monitor(*m, x as int, y as int),
{
    let x = x as i64;
    let y = y as i64;
    m.x as i64 <= x && x < far_edge_exec(m.x, m.width) && m.y as i64 <= y && y < far_edge_exec(
        m.y,
        m.height,
    )
}

/// Whether a remembered window position is still on a connected monitor.
/// An empty list (monitors could not be enumerated) means "not on screen".
pub fn position_on_screen(monitors: &Vec<Monitor>, x: i32, y: i32) -> (on: bool)
    ensures
        on == spec_on_screen(monitors@, x as int, y as int),
        on <==> exists|j: int|
            0 <= j < monitors@.len() && #[trigger] monitors@[j].x - 4 <= x < monitors@[j].x + (
            monitors@[j].width as i32) && monitors@[j].y - 4 <= y < monitors@[j].y + (
            monitors@[j].height as i32),
{
    let mut i: usize = 0;
    while i < monitors.len()
        invariant
            i <= monitors.len(),
            forall|j: int| 0 <= j < i ==> !near_monitor(#[trigger] monitors@[j], x as int, y as int),
        decreases monitors.len() - i,
    {
        if near_monitor_exec(&monitors[i], x, y) {
            return true;
        }
        i = i + 1;
    }
    false
}

/// The index of the first monitor that has the cursor inside it, if any.
pub fn cursor_monitor(monitors: &Vec<Monitor>, cursor_x: i32, cursor_y: i32) -> (found: Option<
    usize,
>)
    ensures
        match found {
            Some(i) => {
                &&& i < monitors@.len()
                &&& inside_monitor(monitors@[i as int], cursor_x as int, cursor_y as int)
                &&& forall|j: int|
                    0 <= j < i ==> !inside_monitor(
                        #[trigger] monitors@[j],
                        cursor_x as int,
                        cursor_y as int,
                    )
            },
            None => !spec_under_some_monitor(monitors@, cursor_x as int, cursor_y as int),
        },
        found matches Some(i) ==> i < monitors@.len() && monitors@[i as int].x <= cursor_x
            < monitors@[i as int].x + (monitors@[i as int].width as i32) && monitors@[i as int].y
            <= cursor_y < monitors@[i as int].y + (monitors@[i as int].height as i32),
        found is None ==> forall|j: int|
            0 <= j < monitors@.len() ==> !(#[trigger] monitors@[j].x <= cursor_x < monitors@[j].x
                + (monitors@[j].width as i32) && monitors@[j].y <= cursor_y < monitors@[j].y + (
            monitors@[j].height as i32)),
{
    let mut i: usize = 0;
    while i < monitors.len()
        invariant
            i <= monitors.len(),
            forall|j: int|
                0 <= j < i ==> !inside_monitor(
                    #[trigger] monitors@[j],
                    cursor_x as int,
                    cursor_y as int,
                ),
        decreases monitors.len() - i,
    {
        if inside_monitor_exec(&monitors[i], cursor_x, cursor_y) {
            return Some(i);
        }
        i = i + 1;
    }
    None
}

/// Width assumed for the compact panel when its size cannot be read.
pub const DEFAULT_PANEL_WIDTH: u32 = 480;

/// `v` is representable as an `i32` pixel coordinate.
pub open spec fn fits_i32(v: int) -> bool {
    i32::MIN <= v <= i32::MAX
}

/// The monitor on which to place a window: the one under the cursor, else
/// the window's current monitor, else the primary monitor.
pub fn fallback_monitor<T>(under_cursor: Option<T>, current: Option<T>, primary: Option<T>) -> (chosen:
    Option<T>)
    ensures
        chosen == (if under_cursor is Some {
            under_cursor
        } else if current is Some {
            current
        } else {
            primary
        }),
{
    match under_cursor {
        Some(m) => Some(m),
        None => match current {
            Some(m) => Some(m),
            None => primary,
        },
    }
}

/// Left edge of the compact panel snapped to the top-right corner of `m`:
/// the panel's right edge sits `margin` px inside the monitor's right edge.
pub open spec fn snap_x(m: Monitor, panel_width: u32, margin: i32) -> int {
    far_edge(m.x, m.width) - (panel_width as i32) as int - margin
}

/// Top edge of the compact panel snapped to the top of `m`, `margin` px down.
pub open spec fn snap_y(m: Monitor, margin: i32) -> int {
    m.y + margin
}

/// Where the compact panel goes on monitor `m`: its top-right corner,
/// `margin` physical pixels in from both edges. `panel_width` is the
/// panel's outer width when known (else [`DEFAULT_PANEL_WIDTH`]).
/// `None` when that corner lies outside the `i32` coordinate range.
pub fn snap_position(m: Monitor, panel_width: Option<u32>, margin: i32) -> (p: Option<Point>)
    ensures
        ({
            let w = match panel_width {
                Some(w) => w,
                None => DEFAULT_PANEL_WIDTH,
            };
            &&& p is Some <==> fits_i32(snap_x(m, w, margin)) && fits_i32(snap_y(m, margin))
            &&& p matches Some(pt) ==> pt.x == snap_x(m, w, margin) && pt.y == snap_y(m, margin)
            &&& panel_width is None ==> w == 480
            &&& p is Some <==> fits_i32(
                m.x + (m.width as i32) - (w as i32) - margin,
            ) && fits_i32(m.y + margin)
            &&& p matches Some(pt) ==> pt.x + (w as i32) + margin == m.x + (m.width as i32)
                && pt.y == m.y + margin
        }),
{
    let w = match panel_width {
        Some(w) => w,
        None => DEFAULT_PANEL_WIDTH,
    };
    let x: i64 = far_edge_exec(m.x, m.width) - (w as i32) as i64 - margin as i64;
    let y: i64 = m.y as i64 + margin as i64;
    if i32::MIN as i64 <= x && x <= i32::MAX as i64 && i32::MIN as i64 <= y && y
        <= i32::MAX as i64 {
        Some(Point { x: x as i32, y: y as i32 })
    } else {
        None
    }
}

/// Integer halving that rounds toward zero, as `/ 2` does on machine integers.
pub open spec fn half_toward_zero(a: int) -> int {
    if a >= 0 {
        a / 2
    } else {
        -((-a) / 2)
    }
}

/// Start of a window of `target` px centred in a monitor span starting at
/// `origin` of `size` px, but never before `origin`.
pub open spec fn center_coord(origin: i32, size: u32, target: i32) -> int {
    let c = origin + half_toward_zero((size as i32) as int - target);
    if c >= origin {
        c
    } else {
        origin as int
    }
}

fn center_coord_exec(origin: i32, size: u32, target: i32) -> (c: i64)
    ensures
        c == center_coord(origin, size, target),
{
    let span: i64 = (size as i32) as i64 - target as i64;
    let half: i64 = if span >= 0 {
        span / 2
    } else {
        -((-span) / 2)
    };
    let c = origin as i64 + half;
    if c >= origin as i64 {
        c
    } else {
        origin as i64
    }
}

/// Where a window of `target_width` x `target_height` physical pixels goes
/// to be centred on monitor `m`; never above or left of the monitor's
/// top-left corner. `None` when that point lies outside the `i32` range.
pub fn center_position(m: Monitor, target_width: i32, target_height: i32) -> (p: Option<Point>)
    ensures
        p is Some <==> fits_i32(center_coord(m.x, m.width, target_width)) && fits_i32(
            center_coord(m.y, m.height, target_height),
        ),
        p matches Some(pt) ==> pt.x == center_coord(m.x, m.width, target_width) && pt.y
            == center_coord(m.y, m.height, target_height),
        p matches Some(pt) ==> pt.x >= m.x && pt.y >= m.y,
{
    let x = center_coord_exec(m.x, m.width, target_width);
    let y = center_coord_exec(m.y, m.height, target_height);
    if x <= i32::MAX as i64 && y <= i32::MAX as i64 {
        Some(Point { x: x as i32, y: y as i32 })
    } else {
        None
    }
}

/// Centring along one axis: a window no larger than the monitor span lies
/// wholly inside it with the two gaps differing by at most one pixel (the
/// extra pixel on the far side); a larger window starts at the monitor's
/// origin.
pub proof fn lemma_center_axis(origin: i32, size: u32, target: i32)
    ensures
        0 <= target <= (size as i32) ==> {
            let c = center_coord(origin, size, target);
            let gap_before = c - origin;
            let gap_after = far_edge(origin, size) - (c + target);
            &&& origin <= c
            &&& c + target <= far_edge(origin, size)
            &&& 0 <= gap_after - gap_before <= 1
        },
        target > (size as i32) ==> center_coord(origin, size, target) == origin,
{
}

/// The panel snapped for any panel width `w` ends exactly `margin` px
/// inside the monitor's right edge and starts `margin` px below its top.
pub proof fn lemma_snap_right_edge(m: Monitor, w: u32, margin: i32)
    ensures
        snap_x(m, w, margin) + (w as i32) + margin == m.x + (m.width as i32),
        snap_y(m, margin) == m.y + margin,
{
}

/// Every point of a monitor's area lies under that monitor: a cursor there
/// is found on some monitor, wherever the monitor sits on the desktop
/// (left of or above the primary one too).
pub proof fn lemma_monitor_area_under_cursor(monitors: Seq<Monitor>, i: int, dx: int, dy: int)
    requires
        0 <= i < monitors.len(),
        0 <= dx < (monitors[i].width as i32),
        0 <= dy < (monitors[i].height as i32),
    ensures
        spec_under_some_monitor(monitors, monitors[i].x + dx, monitors[i].y + dy),
{
    assert(inside_monitor(monitors[i], monitors[i].x + dx, monitors[i].y + dy));
}

/// Every point of a monitor's area, and of the 4 px band above and left of
/// it, is on screen, wherever the monitor sits on the desktop.
pub proof fn lemma_monitor_area_on_screen(monitors: Seq<Monitor>, i: int, dx: int, dy: int)
    requires
        0 <= i < monitors.len(),
        -4 <= dx < (monitors[i].width as i32),
        -4 <= dy < (monitors[i].height as i32),
    ensures
        spec_on_screen(monitors, monitors[i].x + dx, monitors[i].y + dy),
{
    assert(near_monitor(monitors[i], monitors[i].x + dx, monitors[i].y + dy));
}

/// A point under some monitor lies in that monitor's area and no further:
/// left of its origin or past its far edges is not under it.
pub proof fn lemma_under_cursor_is_monitor_area(m: Monitor, x: int, y: int)
    ensures
        inside_monitor(m, x, y) <==> (m.x <= x < m.x + (m.width as i32) && m.y <= y < m.y + (
        m.height as i32)),
        near_monitor(m, x, y) <==> (m.x - 4 <= x < m.x + (m.width as i32) && m.y - 4 <= y < m.y + (
        m.height as i32)),
{
}

/// A cursor inside some monitor is also on screen: every point that
/// [`cursor_monitor`] finds a monitor for passes [`position_on_screen`].
pub proof fn lemma_inside_implies_on_screen(monitors: Seq<Monitor>, x: int, y: int)
    ensures
        spec_under_some_monitor(monitors, x, y) ==> spec_on_screen(monitors, x, y),
{
    if spec_under_some_monitor(monitors, x, y) {
        let i = choose|i: int| 0 <= i < monitors.len() && inside_monitor(#[trigger] monitors[i], x, y);
        assert(near_monitor(monitors[i], x, y));
    }
}

} // verus!
