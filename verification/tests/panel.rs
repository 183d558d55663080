use wellwon_desktop::geometry::{Monitor, Point};
use wellwon_desktop::panel::{
    compact_mode_layout, full_mode_layout, placement, Fallback, PanelMemory, PanelToggle,
    Placement, WindowLayout, COMPACT_HEIGHT, COMPACT_WIDTH, FULL_HEIGHT, FULL_WIDTH, MIN_HEIGHT,
    MIN_WIDTH,
};

const SNAP: Fallback = Fallback::SnapToCursorMonitor;
const CENTER: Fallback = Fallback::CenterOnCursorMonitor(1280, 800);

fn desk() -> Vec<Monitor> {
    vec![Monitor { x: 0, y: 0, width: 1920, height: 1080 }]
}

#[test]
fn layouts() {
    assert_eq!(
        full_mode_layout(true),
        WindowLayout { always_on_top: false, resizable: true, decorations: true, width: 1280, height: 800 }
    );
    assert!(!full_mode_layout(false).decorations);
    assert_eq!(
        compact_mode_layout(),
        WindowLayout { always_on_top: true, resizable: false, decorations: false, width: 480, height: 640 }
    );
    assert_eq!((FULL_WIDTH, FULL_HEIGHT, MIN_WIDTH, MIN_HEIGHT), (1280, 800, 360, 480));
    assert_eq!((COMPACT_WIDTH, COMPACT_HEIGHT), (480, 640));
}

#[test]
fn first_show_uses_fallback() {
    let mut m = PanelMemory::new();
    assert_eq!(m.toggle(Some(false), Some(Point { x: 5, y: 5 }), &desk(), SNAP), PanelToggle::Show(Placement::SnapToCursorMonitor));
    assert_eq!(m.last_position(), None);
}

#[test]
fn hide_then_show_restores_position() {
    let mut m = PanelMemory::new();
    let p = Point { x: 700, y: 300 };
    assert_eq!(m.toggle(Some(true), Some(p), &desk(), CENTER), PanelToggle::Hide);
    assert_eq!(m.last_position(), Some(p));
    assert_eq!(m.toggle(Some(false), None, &desk(), CENTER), PanelToggle::Show(Placement::At(p)));
}

#[test]
fn unknown_visibility_counts_as_hidden() {
    let mut m = PanelMemory::new();
    m.remember_position(Some(Point { x: 1, y: 1 }));
    assert_eq!(m.toggle(None, None, &desk(), SNAP), PanelToggle::Show(Placement::At(Point { x: 1, y: 1 })));
}

#[test]
fn unplugged_display_position_not_restored() {
    let mut m = PanelMemory::new();
    m.remember_position(Some(Point { x: 2500, y: 100 }));
    assert_eq!(m.restore_target(&desk()), None);
    assert_eq!(m.toggle(Some(false), None, &desk(), CENTER), PanelToggle::Show(Placement::CenterOnCursorMonitor(1280, 800)));
}

#[test]
fn unreadable_position_keeps_previous() {
    let mut m = PanelMemory::new();
    m.remember_position(Some(Point { x: 10, y: 20 }));
    m.remember_position(None);
    assert_eq!(m.last_position(), Some(Point { x: 10, y: 20 }));
    assert_eq!(m.toggle(Some(true), None, &desk(), SNAP), PanelToggle::Hide);
    assert_eq!(m.last_position(), Some(Point { x: 10, y: 20 }));
}

#[test]
fn placement_prefers_restore_target() {
    let p = Point { x: 3, y: 4 };
    assert_eq!(placement(Some(p), SNAP), Placement::At(p));
    assert_eq!(placement(None, SNAP), Placement::SnapToCursorMonitor);
    assert_eq!(placement(None, CENTER), Placement::CenterOnCursorMonitor(1280, 800));
}
