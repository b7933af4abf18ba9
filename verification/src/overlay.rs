//! The capture overlay's interaction rules: which drag a press starts, how a
//! drag ends, which cursor is shown, the keyboard shortcuts, the tool buttons
//! and the colour palette. Pointer geometry (the fractional screen
//! positions) is kept by the caller; these rules decide what to do with it.
use vstd::prelude::*;
use crate::raster::Color;

verus! {

/// Handle position for resizing the selection.
#[derive(Debug, Clone, Copy, PartialEq, Eq, Structural)]
pub enum Handle {
    TopLeft,
    Top,
    TopRight,
    Right,
    BottomRight,
    Bottom,
    BottomLeft,
    Left,
}

/// Active editing tool.
#[derive(Debug, Clone, Copy, PartialEq, Eq, Structural)]
pub enum Tool {
    Select,
    Pen,
    Line,
    Arrow,
    Rectangle,
    Marker,
    Text,
}

/// What the pointer is currently doing.
#[derive(Debug, Clone, Copy, PartialEq, Eq, Structural)]
pub enum DragPhase {
    Idle,
    CreatingSelection,
    MovingSelection,
    ResizingSelection(Handle),
    DrawingRect,
    DrawingArrow,
    DrawingLine,
    DrawingPath,
}

/// Mouse cursor shapes the overlay uses.
#[derive(Debug, Clone, Copy, PartialEq, Eq, Structural)]
pub enum Cursor {
    Default,
    Crosshair,
    Move,
    Text,
    ResizeNwSe,
    ResizeNeSw,
    ResizeVertical,
    ResizeHorizontal,
}

/// Where the pointer is relative to the current selection.
#[derive(Debug, Clone, Copy, PartialEq, Eq, Structural)]
pub enum SelectionHit {
    /// Nothing is selected.
    NoSelection,
    /// Within reach of one of the eight resize grips.
    Grip(Handle),
    /// Inside the selection, away from the grips.
    Inside,
    /// Outside the selection.
    Outside,
}

/// One frame of pointer input, with the geometry already judged by the
/// caller.
#[derive(Debug, Clone, Copy, PartialEq, Eq, Structural)]
pub struct PointerInput {
    pub primary_pressed: bool,
    pub primary_released: bool,
    /// The pointer is over one of the floating toolbars.
    pub on_toolbar: bool,
    pub hit: SelectionHit,
}

/// What the caller has to do with the pointer geometry this frame.
#[derive(Debug, Clone, Copy, PartialEq, Eq, Structural)]
pub enum DragEffect {
    Nothing,
    /// Remember the selection as it is and start resizing from `handle`.
    BeginResize(Handle),
    /// Remember the pointer and the selection and start moving it.
    BeginMove,
    /// Start a freehand path at the pointer.
    BeginPath,
    BeginLine,
    BeginArrow,
    BeginRect,
    /// Open the inline text box at the pointer.
    BeginText,
    /// Drop the selection and its annotations, then start a new selection at
    /// the pointer.
    ClearAndBeginSelection,
    /// Start a new selection at the pointer.
    BeginSelection,
    /// Update the drag in progress with the pointer.
    Track,
    /// Update the drag in progress with the pointer, then complete it.
    Finish,
}

#[derive(Debug, Clone, Copy, PartialEq, Eq, Structural)]
pub struct DragStep {
    pub phase: DragPhase,
    pub cursor: Cursor,
    pub effect: DragEffect,
}

/// Resize cursor shown over a grip.
pub open spec fn grip_cursor(h: Handle) -> Cursor {
    match h {
        Handle::TopLeft | Handle::BottomRight => Cursor::ResizeNwSe,
        Handle::TopRight | Handle::BottomLeft => Cursor::ResizeNeSw,
        Handle::Top | Handle::Bottom => Cursor::ResizeVertical,
        Handle::Left | Handle::Right => Cursor::ResizeHorizontal,
    }
}

/// The drag a press inside the selection starts with each tool.
pub open spec fn tool_press(tool: Tool) -> (DragPhase, DragEffect) {
    match tool {
        Tool::Select => (DragPhase::MovingSelection, DragEffect::BeginMove),
        Tool::Pen | Tool::Marker => (DragPhase::DrawingPath, DragEffect::BeginPath),
        Tool::Line => (DragPhase::DrawingLine, DragEffect::BeginLine),
        Tool::Arrow => (DragPhase::DrawingArrow, DragEffect::BeginArrow),
        Tool::Rectangle => (DragPhase::DrawingRect, DragEffect::BeginRect),
        Tool::Text => (DragPhase::Idle, DragEffect::BeginText),
    }
}

/// Cursor shown over the selection's interior with each tool.
pub open spec fn tool_cursor(tool: Tool) -> Cursor {
    match tool {
        Tool::Select => Cursor::Move,
        Tool::Text => Cursor::Text,
        _ => Cursor::Crosshair,
    }
}

/// Cursor shown while a drag is in progress.
pub open spec fn drag_cursor(phase: DragPhase) -> Cursor {
    match phase {
        DragPhase::MovingSelection => Cursor::Move,
        _ => Cursor::Crosshair,
    }
}

pub fn grip_cursor_of(h: Handle) -> (c: Cursor)
    ensures
        c == grip_cursor(h),
{
    match h {
        Handle::TopLeft | Handle::BottomRight => Cursor::ResizeNwSe,
        Handle::TopRight | Handle::BottomLeft => Cursor::ResizeNeSw,
        Handle::Top | Handle::Bottom => Cursor::ResizeVertical,
        Handle::Left | Handle::Right => Cursor::ResizeHorizontal,
    }
}

/// Advances the pointer state machine by one frame.
///
/// While idle over a toolbar nothing starts (the arrow cursor is shown); a
/// drag already in progress is never blocked, so a release over a toolbar
/// still ends it. An idle press on a grip resizes, inside the selection it
/// starts what the current tool does, outside it drops the selection and
/// starts a new one.
pub fn drag_step(phase: DragPhase, tool: Tool, input: PointerInput) -> (step: DragStep)
    ensures
        phase == DragPhase::Idle && input.on_toolbar ==> step == (DragStep {
            phase: DragPhase::Idle,
            cursor: Cursor::Default,
            effect: DragEffect::Nothing,
        }),
        phase == DragPhase::Idle && !input.on_toolbar ==> step == (match input.hit {
            SelectionHit::Grip(h) => if input.primary_pressed {
                DragStep { phase: DragPhase::ResizingSelection(h), cursor: grip_cursor(h), effect: DragEffect::BeginResize(h) }
            } else {
                DragStep { phase: DragPhase::Idle, cursor: grip_cursor(h), effect: DragEffect::Nothing }
            },
            SelectionHit::Inside => if input.primary_pressed {
                DragStep { phase: tool_press(tool).0, cursor: tool_cursor(tool), effect: tool_press(tool).1 }
            } else {
                DragStep { phase: DragPhase::Idle, cursor: tool_cursor(tool), effect: DragEffect::Nothing }
            },
            SelectionHit::Outside => if input.primary_pressed {
                DragStep { phase: DragPhase::CreatingSelection, cursor: Cursor::Crosshair, effect: DragEffect::ClearAndBeginSelection }
            } else {
                DragStep { phase: DragPhase::Idle, cursor: Cursor::Crosshair, effect: DragEffect::Nothing }
            },
            SelectionHit::NoSelection => if input.primary_pressed {
                DragStep { phase: DragPhase::CreatingSelection, cursor: Cursor::Crosshair, effect: DragEffect::BeginSelection }
            } else {
                DragStep { phase: DragPhase::Idle, cursor: Cursor::Crosshair, effect: DragEffect::Nothing }
            },
        }),
        phase != DragPhase::Idle && input.primary_released ==> step.phase == DragPhase::Idle
            && step.effect == DragEffect::Finish,
        phase != DragPhase::Idle ==> step == (if input.primary_released {
            DragStep { phase: DragPhase::Idle, cursor: drag_cursor(phase), effect: DragEffect::Finish }
        } else {
            DragStep { phase, cursor: drag_cursor(phase), effect: DragEffect::Track }
        }),
{
    match phase {
        DragPhase::Idle => {
            if input.on_toolbar {
                return DragStep { phase: DragPhase::Idle, cursor: Cursor::Default, effect: DragEffect::Nothing };
            }
            match input.hit {
                SelectionHit::Grip(h) => {
                    let cursor = grip_cursor_of(h);
                    if input.primary_pressed {
                        DragStep { phase: DragPhase::ResizingSelection(h), cursor, effect: DragEffect::BeginResize(h) }
                    } else {
                        DragStep { phase: DragPhase::Idle, cursor, effect: DragEffect::Nothing }
                    }
                },
                SelectionHit::Inside => {
                    let (next, cursor, effect) = match tool {
                        Tool::Select => (DragPhase::MovingSelection, Cursor::Move, DragEffect::BeginMove),
                        Tool::Pen => (DragPhase::DrawingPath, Cursor::Crosshair, DragEffect::BeginPath),
                        Tool::Line => (DragPhase::DrawingLine, Cursor::Crosshair, DragEffect::BeginLine),
                        Tool::Arrow => (DragPhase::DrawingArrow, Cursor::Crosshair, DragEffect::BeginArrow),
                        Tool::Rectangle => (DragPhase::DrawingRect, Cursor::Crosshair, DragEffect::BeginRect),
                        Tool::Marker => (DragPhase::DrawingPath, Cursor::Crosshair, DragEffect::BeginPath),
                        Tool::Text => (DragPhase::Idle, Cursor::Text, DragEffect::BeginText),
                    };
                    if input.primary_pressed {
                        DragStep { phase: next, cursor, effect }
                    } else {
                        DragStep { phase: DragPhase::Idle, cursor, effect: DragEffect::Nothing }
                    }
                },
                SelectionHit::Outside => {
                    if input.primary_pressed {
                        DragStep { phase: DragPhase::CreatingSelection, cursor: Cursor::Crosshair, effect: DragEffect::ClearAndBeginSelection }
                    } else {
                        DragStep { phase: DragPhase::Idle, cursor: Cursor::Crosshair, effect: DragEffect::Nothing }
                    }
                },
                SelectionHit::NoSelection => {
                    if input.primary_pressed {
                        DragStep { phase: DragPhase::CreatingSelection, cursor: Cursor::Crosshair, effect: DragEffect::BeginSelection }
                    } else {
                        DragStep { phase: DragPhase::Idle, cursor: Cursor::Crosshair, effect: DragEffect::Nothing }
                    }
                },
            }
        },
        _ => {
            let cursor = match phase {
                DragPhase::MovingSelection => Cursor::Move,
                _ => Cursor::Crosshair,
            };
            if input.primary_released {
                DragStep { phase: DragPhase::Idle, cursor, effect: DragEffect::Finish }
            } else {
                DragStep { phase, cursor, effect: DragEffect::Track }
            }
        },
    }
}

/// A press inside the selection starts the drag named after the active
/// tool: Line draws a line, Arrow an arrow, Rectangle a rectangle, Pen and
/// Marker a freehand path, Select moves the selection and Text opens the text
/// box. The four drawing drags are told apart: two tools start the same drag
/// only when both draw freehand paths.
pub proof fn lemma_press_starts_tool_drag(tool: Tool, other: Tool)
    ensures
        tool == Tool::Line ==> tool_press(tool) == (DragPhase::DrawingLine, DragEffect::BeginLine),
        tool == Tool::Arrow ==> tool_press(tool) == (DragPhase::DrawingArrow, DragEffect::BeginArrow),
        tool == Tool::Rectangle ==> tool_press(tool) == (DragPhase::DrawingRect, DragEffect::BeginRect),
        tool == Tool::Pen || tool == Tool::Marker ==> tool_press(tool) == (DragPhase::DrawingPath, DragEffect::BeginPath),
        tool == Tool::Select ==> tool_press(tool) == (DragPhase::MovingSelection, DragEffect::BeginMove),
        tool == Tool::Text ==> tool_press(tool) == (DragPhase::Idle, DragEffect::BeginText),
        tool_press(tool).1 == tool_press(other).1 ==> tool == other || ((tool == Tool::Pen || tool == Tool::Marker)
            && (other == Tool::Pen || other == Tool::Marker)),
{
}

/// A right-click clears: the selection and its annotations are dropped and
/// any drag in progress ends. Returns the phase to go on with and whether to
/// drop the selection and the annotations.
pub fn secondary_click_step(phase: DragPhase, secondary_clicked: bool) -> (r: (DragPhase, bool))
    ensures
        r == (if secondary_clicked { (DragPhase::Idle, true) } else { (phase, false) }),
{
    if secondary_clicked {
        (DragPhase::Idle, true)
    } else {
        (phase, false)
    }
}

/// Keys pressed this frame. `shortcut` is the platform's shortcut modifier
/// (Ctrl, or Command on macOS).
#[derive(Debug, Clone, Copy, PartialEq, Eq, Structural)]
pub struct KeyInput {
    pub escape: bool,
    pub shortcut: bool,
    pub a: bool,
    pub c: bool,
    pub s: bool,
    pub p: bool,
    pub x: bool,
    pub z: bool,
}

/// What ends the frame's keyboard handling.
#[derive(Debug, Clone, Copy, PartialEq, Eq, Structural)]
pub enum KeyOutcome {
    /// Go on with the pointer and painting.
    Continue,
    Close,
    Copy,
    Save,
    Print,
}

#[derive(Debug, Clone, Copy, PartialEq, Eq, Structural)]
pub struct KeyResponse {
    /// Close the inline text box and drop what was typed.
    pub cancel_text: bool,
    /// Select the whole screen.
    pub select_all: bool,
    /// Remove the most recent annotation.
    pub undo: bool,
    pub outcome: KeyOutcome,
}

/// The overlay's shortcuts: Esc or Ctrl+X closes, Ctrl+A selects the whole
/// screen, Ctrl+C copies, Ctrl+S saves, Ctrl+P prints and Ctrl+Z undoes.
/// While the text box has focus they are all inert except Esc, which closes
/// the text box instead.
pub fn overlay_keys(text_editing: bool, keys: KeyInput) -> (r: KeyResponse)
    ensures
        text_editing ==> r == (KeyResponse {
            cancel_text: keys.escape,
            select_all: false,
            undo: false,
            outcome: KeyOutcome::Continue,
        }),
        !text_editing ==> ({
            let close = keys.escape || (keys.shortcut && keys.x);
            let outcome = if close {
                KeyOutcome::Close
            } else if keys.shortcut && keys.c {
                KeyOutcome::Copy
            } else if keys.shortcut && keys.s {
                KeyOutcome::Save
            } else if keys.shortcut && keys.p {
                KeyOutcome::Print
            } else {
                KeyOutcome::Continue
            };
            r == KeyResponse {
                cancel_text: false,
                select_all: !close && keys.shortcut && keys.a,
                undo: outcome == KeyOutcome::Continue && keys.shortcut && keys.z,
                outcome,
            }
        }),
{
    if text_editing {
        return KeyResponse { cancel_text: keys.escape, select_all: false, undo: false, outcome: KeyOutcome::Continue };
    }
    let hit_x = keys.shortcut && keys.x;
    if keys.escape || hit_x {
        return KeyResponse { cancel_text: false, select_all: false, undo: false, outcome: KeyOutcome::Close };
    }
    let select_all = keys.shortcut && keys.a;
    if keys.shortcut && keys.c {
        return KeyResponse { cancel_text: false, select_all, undo: false, outcome: KeyOutcome::Copy };
    }
    if keys.shortcut && keys.s {
        return KeyResponse { cancel_text: false, select_all, undo: false, outcome: KeyOutcome::Save };
    }
    if keys.shortcut && keys.p {
        return KeyResponse { cancel_text: false, select_all, undo: false, outcome: KeyOutcome::Print };
    }
    KeyResponse { cancel_text: false, select_all, undo: keys.shortcut && keys.z, outcome: KeyOutcome::Continue }
}

/// The tool that becomes active when the button of `clicked` is clicked:
/// clicking the active tool switches back to plain selection.
pub open spec fn next_tool(current: Tool, clicked: Tool) -> Tool {
    if current == clicked {
        Tool::Select
    } else {
        clicked
    }
}

pub fn tool_after_click(current: Tool, clicked: Tool) -> (t: Tool)
    ensures
        t == next_tool(current, clicked),
{
    if current == clicked {
        Tool::Select
    } else {
        clicked
    }
}

/// A tool button toggles: clicking it twice returns to the tool that was
/// active before, whenever that was plain selection or the button's own tool.
pub proof fn lemma_tool_button_toggles(current: Tool, clicked: Tool)
    requires
        clicked != Tool::Select,
        current == Tool::Select || current == clicked,
    ensures
        next_tool(next_tool(current, clicked), clicked) == current,
{
}

/// Number of colours in the annotation palette.
pub const PALETTE_LEN: usize = 6;

/// The annotation palette: red, blue, green, yellow, purple, white.
pub open spec fn palette(i: int) -> Color {
    if i == 0 {
        Color { r: 239, g: 68, b: 68, a: 255 }
    } else if i == 1 {
        Color { r: 59, g: 130, b: 246, a: 255 }
    } else if i == 2 {
        Color { r: 16, g: 185, b: 129, a: 255 }
    } else if i == 3 {
        Color { r: 245, g: 158, b: 11, a: 255 }
    } else if i == 4 {
        Color { r: 168, g: 85, b: 247, a: 255 }
    } else {
        Color { r: 255, g: 255, b: 255, a: 255 }
    }
}

/// Palette entry `i`, counting round the palette.
pub fn palette_color(index: usize) -> (c: Color)
    ensures
        c == palette(index as int % PALETTE_LEN as int),
{
    let i = index % PALETTE_LEN;
    if i == 0 {
        Color { r: 239, g: 68, b: 68, a: 255 }
    } else if i == 1 {
        Color { r: 59, g: 130, b: 246, a: 255 }
    } else if i == 2 {
        Color { r: 16, g: 185, b: 129, a: 255 }
    } else if i == 3 {
        Color { r: 245, g: 158, b: 11, a: 255 }
    } else if i == 4 {
        Color { r: 168, g: 85, b: 247, a: 255 }
    } else {
        Color { r: 255, g: 255, b: 255, a: 255 }
    }
}

/// The palette position after cycling once from `p`.
pub open spec fn next_position(p: int) -> int {
    (p + 1) % (PALETTE_LEN as int)
}

/// The palette position annotations are currently drawn with.
pub struct ColorChoice {
    index: usize,
}

impl ColorChoice {
    #[verifier::type_invariant]
    spec fn in_palette(self) -> bool {
        self.index < PALETTE_LEN
    }

    /// Position in the palette.
    pub closed spec fn position(self) -> int {
        self.index as int
    }

    /// Starts at the first palette colour (red).
    pub fn new() -> (c: ColorChoice)
        ensures
            c.position() == 0,
    {
        ColorChoice { index: 0 }
    }

    /// Active drawing colour.
    pub fn current_color(&self) -> (c: Color)
        ensures
            c == palette(self.position()),
    {
        proof {
            use_type_invariant(self);
        }
        palette_color(self.index)
    }

    /// Moves to the next palette colour, wrapping after white.
    pub fn cycle_color(&mut self)
        ensures
            final(self).position() == next_position(old(self).position()),
    {
        proof {
            use_type_invariant(&*self);
        }
        self.index = (self.index + 1) % PALETTE_LEN;
    }
}

/// Cycling the colour six times comes back to the colour one started from.
pub proof fn lemma_six_cycles_return(p: int)
    requires
        0 <= p < PALETTE_LEN,
    ensures
        next_position(next_position(next_position(next_position(next_position(next_position(p)))))) == p,
{
}

/// Toolbar geometry in screen points: button glyph sizes, padding around a
/// glyph, gap between buttons, margin at the bar's ends, bar thickness.
pub const H_ICON_W: u32 = 24;
pub const H_ICON_H: u32 = 20;
pub const V_ICON_W: u32 = 20;
pub const V_ICON_H: u32 = 20;
pub const BAR_THICKNESS: u32 = 29;
pub const BTN_PAD: u32 = 2;
pub const BTN_GAP: u32 = 1;
pub const BAR_MARGIN: u32 = 2;
/// Buttons on the action bar: Print, Copy, Save, Close.
pub const H_ACTION_COUNT: u32 = 4;
/// Buttons on the tool bar: Pen, Line, Arrow, Rect, Marker, Text, Color, Undo.
pub const V_TOOL_COUNT: u32 = 8;
/// Side of a resize grip.
pub const HANDLE_SIZE: u32 = 6;
/// Length of one dash of the selection outline.
pub const ANTS_DASH: u32 = 3;

/// Length of a toolbar along its main axis for `n` buttons of `icon` extent:
/// each button padded on both sides, gaps between buttons, a margin at each end.
pub fn bar_length(n: u32, icon: u32) -> (len: u32)
    requires
        n * (icon + 2 * BTN_PAD) + (n - 1) * BTN_GAP + 2 * BAR_MARGIN <= u32::MAX,
    ensures
        len == n * (icon + 2 * BTN_PAD) + (n - 1) * BTN_GAP + 2 * BAR_MARGIN,
{
    if n == 0 {
        return 2 * BAR_MARGIN - BTN_GAP;
    }
    assert(icon + 2 * BTN_PAD <= n * (icon + 2 * BTN_PAD)) by (nonlinear_arith)
        requires
            n >= 1,
    ;
    assert(n * (icon + 2 * BTN_PAD) <= n * (icon + 2 * BTN_PAD) + (n - 1) * BTN_GAP + 2 * BAR_MARGIN);
    n * (icon + 2 * BTN_PAD) + (n - 1) * BTN_GAP + 2 * BAR_MARGIN
}

} // verus!
