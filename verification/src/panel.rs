use vstd::prelude::*;

use crate::geometry::{position_on_screen, spec_on_screen, Monitor, Point};

verus! {

/// Logical size of the full-mode window.
pub const FULL_WIDTH: u32 = 1280;
pub const FULL_HEIGHT: u32 = 800;

/// Smallest logical size the full-mode window may be resized to.
pub const MIN_WIDTH: u32 = 360;
pub const MIN_HEIGHT: u32 = 480;

/// Logical size of the compact panel.
pub const COMPACT_WIDTH: u32 = 480;
pub const COMPACT_HEIGHT: u32 = 640;

/// How the main window is configured in one of its modes.
#[derive(Clone, Copy, Debug, PartialEq, Eq, Structural)]
pub struct WindowLayout {
    pub always_on_top: bool,
    pub resizable: bool,
    pub decorations: bool,
    /// Logical width.
    pub width: u32,
    /// Logical height.
    pub height: u32,
}

/// The full-app window: an ordinary, resizable 1280x800 window; whether it
/// gets native decorations is the caller's choice (the web page draws its
/// own chrome).
pub fn full_mode_layout(decorations: bool) -> (l: WindowLayout)
    ensures
        l == (WindowLayout {
            always_on_top: false,
            resizable: true,
            decorations: decorations,
            width: FULL_WIDTH,
            height: FULL_HEIGHT,
        }),
{
    WindowLayout {
        always_on_top: false,
        resizable: true,
        decorations: decorations,
        width: FULL_WIDTH,
        height: FULL_HEIGHT,
    }
}

/// The compact panel: a fixed-size, undecorated 480x640 window kept on top.
pub fn compact_mode_layout() -> (l: WindowLayout)
    ensures
        l == (WindowLayout {
            always_on_top: true,
            resizable: false,
            decorations: false,
            width: COMPACT_WIDTH,
            height: COMPACT_HEIGHT,
        }),
{
    WindowLayout {
        always_on_top: true,
        resizable: false,
        decorations: false,
        width: COMPACT_WIDTH,
        height: COMPACT_HEIGHT,
    }
}

/// How a shown window is placed when no remembered position applies.
#[derive(Clone, Copy, Debug, PartialEq, Eq, Structural)]
pub enum Fallback {
    /// Snap to the top-right corner of the cursor's monitor (compact panel).
    SnapToCursorMonitor,
    /// Centre a window of this logical width and height on the cursor's
    /// monitor (full-mode window).
    CenterOnCursorMonitor(u32, u32),
}

/// Where a window that is being shown goes.
#[derive(Clone, Copy, Debug, PartialEq, Eq, Structural)]
pub enum Placement {
    /// Back at this remembered position.
    At(Point),
    /// Snapped to the top-right corner of the cursor's monitor.
    SnapToCursorMonitor,
    /// Centred on the cursor's monitor at this logical width and height.
    CenterOnCursorMonitor(u32, u32),
}

/// What a show/hide toggle does with the main window.
#[derive(Clone, Copy, Debug, PartialEq, Eq, Structural)]
pub enum PanelToggle {
    /// Hide the visible window.
    Hide,
    /// Place the hidden window as given, then show and focus it.
    Show(Placement),
}

/// The placement of a shown window: the restore target if there is one,
/// else the fallback rule.
pub open spec fn spec_placement(target: Option<Point>, fallback: Fallback) -> Placement {
    match target {
        Some(p) => Placement::At(p),
        None => match fallback {
            Fallback::SnapToCursorMonitor => Placement::SnapToCursorMonitor,
            Fallback::CenterOnCursorMonitor(w, h) => Placement::CenterOnCursorMonitor(w, h),
        },
    }
}

/// Where a shown window goes: at `target` when restoring, else by `fallback`.
pub fn placement(target: Option<Point>, fallback: Fallback) -> (p: Placement)
    ensures
        p == spec_placement(target, fallback),
{
    match target {
        Some(p) => Placement::At(p),
        None => match fallback {
            Fallback::SnapToCursorMonitor => Placement::SnapToCursorMonitor,
            Fallback::CenterOnCursorMonitor(w, h) => Placement::CenterOnCursorMonitor(w, h),
        },
    }
}

/// Where a remembered position restores the window: the position itself if
/// it is still on a connected monitor, else nowhere.
pub open spec fn spec_restore_target(last: Option<Point>, monitors: Seq<Monitor>) -> Option<Point> {
    match last {
        Some(p) => if spec_on_screen(monitors, p.x as int, p.y as int) {
            Some(p)
        } else {
            None
        },
        None => None,
    }
}

/// The remembered position after the window is hidden while its outer
/// position reads as `outer` (nothing when it could not be read).
pub open spec fn spec_remember(last: Option<Point>, outer: Option<Point>) -> Option<Point> {
    if outer is Some {
        outer
    } else {
        last
    }
}

/// Remembered position and action after a toggle: a visible window
/// (`visible` unknown counts as hidden) is hidden and its position
/// remembered; a hidden one is shown where it was, if that is on screen,
/// and else placed by `fallback`.
pub open spec fn spec_toggle(
    last: Option<Point>,
    visible: Option<bool>,
    outer: Option<Point>,
    monitors: Seq<Monitor>,
    fallback: Fallback,
) -> (Option<Point>, PanelToggle) {
    if visible == Some(true) {
        (spec_remember(last, outer), PanelToggle::Hide)
    } else {
        (last, PanelToggle::Show(spec_placement(spec_restore_target(last, monitors), fallback)))
    }
}

/// The position the main window had when it was last hidden in this
/// session, so that showing it again puts it back where it was.
pub struct PanelMemory {
    last_position: Option<Point>,
}

impl View for PanelMemory {
    type V = Option<Point>;

    closed spec fn view(&self) -> Option<Point> {
        self.last_position
    }
}

impl PanelMemory {
    /// Nothing remembered yet (first show after launch).
    pub fn new() -> (m: Self)
        ensures
            m@ is None,
    {
        PanelMemory { last_position: None }
    }

    /// The remembered position.
    pub fn last_position(&self) -> (p: Option<Point>)
        ensures
            p == self@,
    {
        self.last_position
    }

    /// Remember the window's outer position `outer` as it is hidden; a
    /// position that could not be read keeps the previous one.
    pub fn remember_position(&mut self, outer: Option<Point>)
        ensures
            final(self)@ == spec_remember(old(self)@, outer),
    {
        if outer.is_some() {
            self.last_position = outer;
        }
    }

    /// Where to put the window when it is shown again: the remembered
    /// position if it is still on one of `monitors`.
    pub fn restore_target(&self, monitors: &Vec<Monitor>) -> (p: Option<Point>)
        ensures
            p == spec_restore_target(self@, monitors@),
    {
        match self.last_position {
            Some(p) => if position_on_screen(monitors, p.x, p.y) {
                Some(p)
            } else {
                None
            },
            None => None,
        }
    }

    /// The show/hide toggle (global hotkey or the panel's command), given
    /// whether the window is visible (`None`: unknown), its outer position,
    /// the connected monitors and how to place a window with nothing to
    /// restore.
    pub fn toggle(
        &mut self,
        visible: Option<bool>,
        outer: Option<Point>,
        monitors: &Vec<Monitor>,
        fallback: Fallback,
    ) -> (action: PanelToggle)
        ensures
            (final(self)@, action) == spec_toggle(old(self)@, visible, outer, monitors@, fallback),
    {
        let is_visible = match visible {
            Some(v) => v,
            None => false,
        };
        if is_visible {
            self.remember_position(outer);
            PanelToggle::Hide
        } else {
            PanelToggle::Show(placement(self.restore_target(monitors), fallback))
        }
    }
}

/// Hiding the window and showing it again puts it back where it was, as
/// long as that position is still on a connected monitor.
pub proof fn lemma_hide_then_show_restores(
    last: Option<Point>,
    p: Point,
    monitors: Seq<Monitor>,
    outer_when_hidden: Option<Point>,
    fallback: Fallback,
)
    requires
        spec_on_screen(monitors, p.x as int, p.y as int),
    ensures
        ({
            let (m1, a1) = spec_toggle(last, Some(true), Some(p), monitors, fallback);
            let (m2, a2) = spec_toggle(m1, Some(false), outer_when_hidden, monitors, fallback);
            a1 == PanelToggle::Hide && a2 == PanelToggle::Show(Placement::At(p)) && m2 == Some(p)
        }),
{
}

/// A remembered position that is on no connected monitor any more (its
/// display was unplugged) is not restored: the window is placed afresh by
/// the fallback rule.
pub proof fn lemma_off_screen_position_not_restored(
    p: Point,
    monitors: Seq<Monitor>,
    fallback: Fallback,
)
    requires
        !spec_on_screen(monitors, p.x as int, p.y as int),
    ensures
        spec_toggle(Some(p), Some(false), None, monitors, fallback).1 == PanelToggle::Show(
            spec_placement(None, fallback),
        ),
{
}

/// The first show of a session has nothing to restore: the window is
/// placed by the fallback rule.
pub proof fn lemma_first_show_falls_back(
    visible: Option<bool>,
    outer: Option<Point>,
    monitors: Seq<Monitor>,
    fallback: Fallback,
)
    requires
        visible != Some(true),
    ensures
        spec_toggle(None, visible, outer, monitors, fallback).1 == PanelToggle::Show(
            spec_placement(None, fallback),
        ),
{
}

/// Showing the window never changes what is remembered.
pub proof fn lemma_show_keeps_memory(
    last: Option<Point>,
    visible: Option<bool>,
    outer: Option<Point>,
    monitors: Seq<Monitor>,
    fallback: Fallback,
)
    requires
        visible != Some(true),
    ensures
        spec_toggle(last, visible, outer, monitors, fallback).0 == last,
{
}

} // verus!
