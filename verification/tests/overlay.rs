use zenshot::overlay::{
    bar_length, drag_step, overlay_keys, palette_color, secondary_click_step, tool_after_click, ColorChoice, Cursor, DragEffect, DragPhase, Handle,
    KeyInput, KeyOutcome, PointerInput, SelectionHit, Tool, H_ACTION_COUNT, H_ICON_W, V_ICON_H, V_TOOL_COUNT,
};
use zenshot::raster::Color;

fn input(pressed: bool, released: bool, on_toolbar: bool, hit: SelectionHit) -> PointerInput {
    PointerInput { primary_pressed: pressed, primary_released: released, on_toolbar, hit }
}

fn keys() -> KeyInput {
    KeyInput { escape: false, shortcut: false, a: false, c: false, s: false, p: false, x: false, z: false }
}

#[test]
fn toolbars_block_only_new_interactions() {
    let s = drag_step(DragPhase::Idle, Tool::Pen, input(true, false, true, SelectionHit::Inside));
    assert_eq!((s.phase, s.cursor, s.effect), (DragPhase::Idle, Cursor::Default, DragEffect::Nothing));
    let r = drag_step(DragPhase::DrawingPath, Tool::Pen, input(false, true, true, SelectionHit::Inside));
    assert_eq!((r.phase, r.effect), (DragPhase::Idle, DragEffect::Finish));
}

#[test]
fn presses_start_the_right_drag() {
    let grip = drag_step(DragPhase::Idle, Tool::Select, input(true, false, false, SelectionHit::Grip(Handle::TopRight)));
    assert_eq!(grip.phase, DragPhase::ResizingSelection(Handle::TopRight));
    assert_eq!(grip.cursor, Cursor::ResizeNeSw);
    let mv = drag_step(DragPhase::Idle, Tool::Select, input(true, false, false, SelectionHit::Inside));
    assert_eq!((mv.phase, mv.cursor, mv.effect), (DragPhase::MovingSelection, Cursor::Move, DragEffect::BeginMove));
    let marker = drag_step(DragPhase::Idle, Tool::Marker, input(true, false, false, SelectionHit::Inside));
    assert_eq!((marker.phase, marker.effect), (DragPhase::DrawingPath, DragEffect::BeginPath));
    let text = drag_step(DragPhase::Idle, Tool::Text, input(true, false, false, SelectionHit::Inside));
    assert_eq!((text.phase, text.cursor, text.effect), (DragPhase::Idle, Cursor::Text, DragEffect::BeginText));
    let out = drag_step(DragPhase::Idle, Tool::Arrow, input(true, false, false, SelectionHit::Outside));
    assert_eq!((out.phase, out.effect), (DragPhase::CreatingSelection, DragEffect::ClearAndBeginSelection));
    let fresh = drag_step(DragPhase::Idle, Tool::Arrow, input(true, false, false, SelectionHit::NoSelection));
    assert_eq!(fresh.effect, DragEffect::BeginSelection);
}

#[test]
fn hovering_sets_the_cursor_only() {
    let s = drag_step(DragPhase::Idle, Tool::Rectangle, input(false, false, false, SelectionHit::Grip(Handle::Left)));
    assert_eq!((s.phase, s.cursor, s.effect), (DragPhase::Idle, Cursor::ResizeHorizontal, DragEffect::Nothing));
    let t = drag_step(DragPhase::Idle, Tool::Line, input(false, false, false, SelectionHit::Inside));
    assert_eq!(t.cursor, Cursor::Crosshair);
}

#[test]
fn drags_track_until_release() {
    let s = drag_step(DragPhase::MovingSelection, Tool::Select, input(false, false, false, SelectionHit::Outside));
    assert_eq!((s.phase, s.cursor, s.effect), (DragPhase::MovingSelection, Cursor::Move, DragEffect::Track));
    let e = drag_step(DragPhase::ResizingSelection(Handle::Bottom), Tool::Select, input(false, true, false, SelectionHit::Inside));
    assert_eq!((e.phase, e.effect), (DragPhase::Idle, DragEffect::Finish));
}

#[test]
fn shortcuts_follow_lightshot() {
    let mut k = keys();
    k.escape = true;
    assert_eq!(overlay_keys(false, k).outcome, KeyOutcome::Close);
    let esc_text = overlay_keys(true, k);
    assert!(esc_text.cancel_text);
    assert_eq!(esc_text.outcome, KeyOutcome::Continue);

    let mut all_copy = keys();
    all_copy.shortcut = true;
    all_copy.a = true;
    all_copy.c = true;
    let r = overlay_keys(false, all_copy);
    assert!(r.select_all);
    assert_eq!(r.outcome, KeyOutcome::Copy);

    let mut undo = keys();
    undo.shortcut = true;
    undo.z = true;
    assert!(overlay_keys(false, undo).undo);
    assert!(!overlay_keys(true, undo).undo);

    let mut plain_s = keys();
    plain_s.s = true;
    assert_eq!(overlay_keys(false, plain_s).outcome, KeyOutcome::Continue);
    plain_s.shortcut = true;
    assert_eq!(overlay_keys(false, plain_s).outcome, KeyOutcome::Save);
}

#[test]
fn tool_buttons_toggle() {
    assert_eq!(tool_after_click(Tool::Select, Tool::Pen), Tool::Pen);
    assert_eq!(tool_after_click(Tool::Pen, Tool::Pen), Tool::Select);
    assert_eq!(tool_after_click(Tool::Pen, Tool::Arrow), Tool::Arrow);
}

#[test]
fn palette_cycles_through_six_colours() {
    let mut c = ColorChoice::new();
    assert_eq!(c.current_color(), Color { r: 239, g: 68, b: 68, a: 255 });
    c.cycle_color();
    assert_eq!(c.current_color(), Color { r: 59, g: 130, b: 246, a: 255 });
    for _ in 0..5 {
        c.cycle_color();
    }
    assert_eq!(c.current_color(), Color { r: 239, g: 68, b: 68, a: 255 });
    assert_eq!(palette_color(5), Color { r: 255, g: 255, b: 255, a: 255 });
    assert_eq!(palette_color(7), palette_color(1));
}

#[test]
fn toolbar_lengths() {
    assert_eq!(bar_length(H_ACTION_COUNT, H_ICON_W), 119);
    assert_eq!(bar_length(V_TOOL_COUNT, V_ICON_H), 203);
    assert_eq!(bar_length(1, 10), 18);
    assert_eq!(bar_length(0, 10), 3);
}

#[test]
fn right_click_clears_and_ends_any_drag() {
    assert_eq!(secondary_click_step(DragPhase::DrawingPath, true), (DragPhase::Idle, true));
    assert_eq!(secondary_click_step(DragPhase::Idle, true), (DragPhase::Idle, true));
    assert_eq!(secondary_click_step(DragPhase::MovingSelection, false), (DragPhase::MovingSelection, false));
}
