use std::sync::Arc;

use clover_viewer::feature::Feature;
use clover_viewer::history::{
    HistoryEntry, HistoryShape, ScreenshotAction, ScreenshotTool, SelectionAnchor, WindowPrevState,
    MAX_HISTORY_ENTRIES,
};
use clover_viewer::hotkeys::HotkeyAction;
use clover_viewer::mode::{take_tray_restore, AppMode};
use clover_viewer::screenshot_feature::{is_expired_ocr_temp, FrameRequest, ScreenshotFeature};

#[derive(Clone, Copy, Debug, PartialEq)]
struct Pos2 {
    x: f32,
    y: f32,
}

impl Pos2 {
    fn new(x: f32, y: f32) -> Self {
        Pos2 { x, y }
    }
}

#[derive(Clone, Copy, Debug, PartialEq)]
struct Rect {
    min: Pos2,
    max: Pos2,
}

impl Rect {
    fn from_min_max(min: Pos2, max: Pos2) -> Self {
        Rect { min, max }
    }
}

impl SelectionAnchor<Pos2> for Rect {
    fn right_bottom(&self) -> Pos2 {
        self.max
    }

    fn is_positive(&self) -> bool {
        self.min.x < self.max.x && self.min.y < self.max.y
    }
}

#[derive(Clone, Copy, Debug, PartialEq)]
struct Color32(u32);

impl Color32 {
    const WHITE: Color32 = Color32(0xffff_ffff);
}

type DrawnShape =
    clover_viewer::shape::DrawnShape<Pos2, Color32, f32, str, Arc<String>, Arc<String>>;

type ScreenshotState = clover_viewer::history::ScreenshotState<DrawnShape, Rect, Pos2>;

fn make_shape(start_x: f32) -> DrawnShape {
    DrawnShape {
        tool: ScreenshotTool::Rect,
        start: Pos2::new(start_x, 0.0),
        end: Pos2::new(start_x + 10.0, 10.0),
        color: Color32::WHITE,
        stroke_width: 2.0,
        text: None,
        points: None,
        cached_galley: None,
        cached_mosaic: None,
    }
}

#[test]
fn selection_history_shares_shape_payloads() {
    let shared_text: Arc<str> = Arc::from("hello");
    let shared_points = Arc::new(vec![Pos2::new(1.0, 2.0), Pos2::new(3.0, 4.0)]);
    let mut state = ScreenshotState::default();
    state.edit.shapes.push(DrawnShape {
        tool: ScreenshotTool::Pen,
        start: Pos2::new(0.0, 0.0),
        end: Pos2::new(10.0, 10.0),
        color: Color32::WHITE,
        stroke_width: 2.0,
        text: Some(shared_text.clone()),
        points: Some(shared_points.clone()),
        cached_galley: None,
        cached_mosaic: None,
    });

    state.record_selection_change(None);

    let HistoryEntry::RestoreSelectionAndShapes { shapes, .. } = &state.edit.history[0] else {
        panic!("expected selection restore history entry");
    };

    let snapshot = &shapes[0];
    assert!(Arc::ptr_eq(snapshot.text.as_ref().expect("text missing"), &shared_text));
    assert!(Arc::ptr_eq(snapshot.points.as_ref().expect("points missing"), &shared_points));
    assert!(snapshot.cached_galley.is_none());
    assert!(snapshot.cached_mosaic.is_none());
}

#[test]
fn history_is_bounded() {
    let mut state = ScreenshotState::default();

    for index in 0..=MAX_HISTORY_ENTRIES {
        state.record_shape_added(index);
    }

    assert_eq!(state.edit.history.len(), MAX_HISTORY_ENTRIES);
}

#[test]
fn undo_redo_shape_addition_roundtrip() {
    let mut state = ScreenshotState::default();
    state.edit.shapes.push(make_shape(10.0));
    state.record_shape_added(0);

    state.undo_last();
    assert!(state.edit.shapes.is_empty());
    assert!(state.edit.history.is_empty());
    assert_eq!(state.edit.redo.len(), 1);

    state.redo_last();
    assert_eq!(state.edit.shapes.len(), 1);
    assert_eq!(state.edit.shapes[0].start.x, 10.0);
    assert_eq!(state.edit.history.len(), 1);
    assert!(state.edit.redo.is_empty());
}

#[test]
fn undo_redo_shape_edit_roundtrip() {
    let mut state = ScreenshotState::default();
    state.edit.shapes.push(make_shape(10.0));
    state.record_shape_before_edit(0);
    state.edit.shapes[0].start.x = 40.0;
    state.edit.shapes[0].end.x = 60.0;

    state.undo_last();
    assert_eq!(state.edit.shapes[0].start.x, 10.0);
    assert_eq!(state.edit.shapes[0].end.x, 20.0);

    state.redo_last();
    assert_eq!(state.edit.shapes[0].start.x, 40.0);
    assert_eq!(state.edit.shapes[0].end.x, 60.0);
}

#[test]
fn undo_redo_selection_change_roundtrip() {
    let mut state = ScreenshotState::default();
    let original_selection = Some(Rect::from_min_max(
        Pos2::new(0.0, 0.0),
        Pos2::new(100.0, 100.0),
    ));
    let changed_selection = Some(Rect::from_min_max(
        Pos2::new(10.0, 10.0),
        Pos2::new(80.0, 80.0),
    ));

    state.set_selection(original_selection);
    state.edit.shapes.push(make_shape(5.0));
    state.record_selection_change(original_selection);

    state.set_selection(changed_selection);
    state.edit.shapes.clear();

    state.undo_last();
    assert_eq!(state.select.selection, original_selection);
    assert_eq!(state.edit.shapes.len(), 1);
    assert_eq!(state.edit.shapes[0].start.x, 5.0);

    state.redo_last();
    assert_eq!(state.select.selection, changed_selection);
    assert!(state.edit.shapes.is_empty());
}

#[test]
fn redo_is_cleared_after_new_edit() {
    let mut state = ScreenshotState::default();
    state.edit.shapes.push(make_shape(10.0));
    state.record_shape_added(0);
    state.undo_last();

    state.edit.shapes.push(make_shape(20.0));
    state.record_shape_added(0);

    assert!(state.edit.redo.is_empty());

    state.redo_last();
    assert_eq!(state.edit.shapes.len(), 1);
    assert_eq!(state.edit.shapes[0].start.x, 20.0);
}

#[test]
fn toolbar_follows_selection() {
    let mut state = ScreenshotState::new(WindowPrevState::Minimized);
    assert_eq!(state.runtime.prev_window_state, WindowPrevState::Minimized);
    let sel = Rect::from_min_max(Pos2::new(1.0, 2.0), Pos2::new(30.0, 40.0));
    state.set_selection(Some(sel));
    assert_eq!(state.select.toolbar_pos, Some(Pos2::new(30.0, 40.0)));
    state.clear_toolbar();
    assert_eq!(state.select.toolbar_pos, None);
    state.update_selection_only(None);
    assert_eq!(state.select.toolbar_pos, None);
    state.set_selection(Some(sel));
    state.update_selection_only(None);
    assert_eq!(state.select.toolbar_pos, Some(Pos2::new(30.0, 40.0)));
    state.sync_toolbar_to_selection();
    assert_eq!(state.select.toolbar_pos, None);
}

#[test]
fn out_of_bounds_entry_is_dropped_on_undo() {
    let mut state = ScreenshotState::default();
    state.record_shape_added(3);
    state.undo_last();
    assert!(state.edit.history.is_empty());
    assert!(state.edit.redo.is_empty());
    assert!(state.edit.shapes.is_empty());
}

#[test]
fn edit_record_without_shape_is_ignored() {
    let mut state = ScreenshotState::default();
    state.record_shape_before_edit(0);
    assert!(state.edit.history.is_empty());
}

#[test]
fn redo_stack_is_bounded() {
    let mut state = ScreenshotState::default();
    for i in 0..(MAX_HISTORY_ENTRIES + 5) {
        state.edit.shapes.push(make_shape(i as f32));
        state.record_selection_change(None);
    }
    for _ in 0..(MAX_HISTORY_ENTRIES + 5) {
        state.undo_last();
    }
    assert_eq!(state.edit.history.len(), 0);
    assert_eq!(state.edit.redo.len(), MAX_HISTORY_ENTRIES);
}

#[test]
fn positive_selection_needs_a_selection() {
    let mut state = ScreenshotState::default();
    assert!(!state.has_positive_selection());
    state.set_selection(Some(Rect::from_min_max(Pos2::new(5.0, 5.0), Pos2::new(5.0, 9.0))));
    assert!(!state.has_positive_selection());
    state.set_selection(Some(Rect::from_min_max(Pos2::new(1.0, 2.0), Pos2::new(3.0, 4.0))));
    assert!(state.has_positive_selection());
}

#[test]
fn hotkey_starts_a_fresh_session() {
    let mut feature: ScreenshotFeature<DrawnShape, Rect, Pos2> = ScreenshotFeature::new();
    assert!(!feature.is_active);
    feature.state.edit.shapes.push(make_shape(1.0));
    let mode = feature.handle_hotkey(HotkeyAction::SetScreenshotMode {
        prev_state: WindowPrevState::Tray,
    });
    assert_eq!(mode, Some(AppMode::Screenshot));
    assert!(feature.is_active);
    assert!(feature.state.edit.shapes.is_empty());
    assert_eq!(feature.state.runtime.prev_window_state, WindowPrevState::Tray);
}

#[test]
fn screenshot_frame_cycle() {
    let mut feature: ScreenshotFeature<DrawnShape, Rect, Pos2> = ScreenshotFeature::new();
    let mut mode = AppMode::Viewer;
    assert_eq!(feature.logic(&mut mode), FrameRequest::Nothing);
    assert!(!feature.is_active);

    mode = AppMode::Screenshot;
    assert_eq!(feature.logic(&mut mode), FrameRequest::PrepareFrame);
    assert!(feature.is_active);
    assert_eq!(feature.state.runtime.prev_window_state, WindowPrevState::Normal);

    feature.after_prepare(false, false, &mut mode);
    assert_eq!(mode, AppMode::Screenshot);
    assert!(!feature.should_draw(mode, true));
    feature.state.runtime.window_configured = true;
    assert!(!feature.should_draw(mode, false));
    assert!(feature.should_draw(mode, true));

    assert!(!feature.finish_frame(ScreenshotAction::NoAction, &mut mode));
    assert_eq!(mode, AppMode::Screenshot);
    assert!(feature.finish_frame(ScreenshotAction::SaveAndClose, &mut mode));
    assert!(!feature.is_active);
    assert_eq!(mode, AppMode::Viewer);
}

#[test]
fn abandoned_capture_returns_to_viewer() {
    let mut feature: ScreenshotFeature<DrawnShape, Rect, Pos2> = ScreenshotFeature::new();
    let mut mode = AppMode::Screenshot;
    feature.logic(&mut mode);
    feature.after_prepare(false, true, &mut mode);
    assert!(!feature.is_active);
    assert_eq!(mode, AppMode::Viewer);
}

#[test]
fn expired_ocr_temp_files() {
    let day: u128 = 86_400_000_000_000;
    assert!(is_expired_ocr_temp("ocr_temp_1700000000000.png", day + 1));
    assert!(!is_expired_ocr_temp("ocr_temp_1700000000000.png", day));
    assert!(!is_expired_ocr_temp("shot.png", day * 2));
    assert!(!is_expired_ocr_temp("ocr_temp", day * 2));
    assert!(is_expired_ocr_temp("ocr_temp_", day * 2));
}

#[test]
fn tray_restore_resets_mode() {
    let mut requested = true;
    let mut mode = AppMode::Screenshot;
    take_tray_restore(&mut requested, &mut mode);
    assert!(!requested);
    assert_eq!(mode, AppMode::Viewer);
    mode = AppMode::Screenshot;
    take_tray_restore(&mut requested, &mut mode);
    assert_eq!(mode, AppMode::Screenshot);
}

#[test]
fn history_copy_drops_caches_and_keeps_the_rest() {
    let mut shape = make_shape(3.0);
    shape.text = Some(Arc::from("note"));
    shape.points = Some(Arc::new(vec![Pos2::new(1.0, 2.0)]));
    shape.cached_galley = Some(Arc::new("galley".to_string()));
    shape.cached_mosaic = Some(Arc::new("mosaic".to_string()));
    let copy = shape.clone_for_history();
    assert!(copy.cached_galley.is_none());
    assert!(copy.cached_mosaic.is_none());
    assert_eq!(copy.start, shape.start);
    assert_eq!(copy.end, shape.end);
    assert_eq!(copy.color, shape.color);
    assert_eq!(copy.stroke_width, shape.stroke_width);
    assert_eq!(copy.text.as_deref(), Some("note"));
    assert!(Arc::ptr_eq(copy.points.as_ref().unwrap(), shape.points.as_ref().unwrap()));
}
