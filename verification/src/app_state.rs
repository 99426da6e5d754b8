//! Shared render state: canvas size, mouse tracking, the camera operation
//! log, and the dirty flag that gates redraws.
//!
//! The camera itself (an arcball transform over floating-point matrices)
//! lives outside the library.  Here every camera-affecting input is turned
//! into a [`CameraAction`] — a plain-value description of the rotate, pan
//! or zoom the camera must perform — and recorded in a ghost operation log,
//! so the contracts can say exactly which camera motion each input causes.

use vstd::prelude::*;

verus! {

/// Which mouse button is being held during a drag.
#[derive(Clone, Copy, PartialEq, Eq, Structural, Debug)]
pub enum MouseButton {
    Left,
    Right,
}

/// A mouse position in screen (pixel) coordinates.
#[derive(Clone, Copy, PartialEq, Eq, Structural, Debug)]
pub struct ScreenPos {
    pub x: i32,
    pub y: i32,
}

/// Logical pixel size of the drawing surface.
#[derive(Clone, Copy, PartialEq, Eq, Structural, Debug)]
pub struct CanvasDims {
    pub width: u32,
    pub height: u32,
}

/// A camera operation, as the ghost log records it.
///
/// A zoom is kept as the exact rational `num / den`: the raw scroll delta
/// over the canvas height it was normalized by.
pub enum CamOp {
    Rotate { from_x: int, from_y: int, to_x: int, to_y: int },
    Pan { dx: int, dy: int },
    Zoom { num: int, den: int },
}

/// A camera operation handed to the platform camera for execution.
///
/// A zoom carries the exact rational `num / den` that the camera must
/// apply as its dolly amount.
#[derive(Clone, Copy, PartialEq, Eq, Structural, Debug)]
pub enum CameraAction {
    Rotate { from: ScreenPos, to: ScreenPos },
    Pan { dx: i64, dy: i64 },
    Zoom { num: i64, den: i64 },
}

/// The mathematical value of a [`CameraAction`].
pub open spec fn action_view(a: CameraAction) -> CamOp {
    match a {
        CameraAction::Rotate { from, to } => CamOp::Rotate {
            from_x: from.x as int,
            from_y: from.y as int,
            to_x: to.x as int,
            to_y: to.y as int,
        },
        CameraAction::Pan { dx, dy } => CamOp::Pan { dx: dx as int, dy: dy as int },
        CameraAction::Zoom { num, den } => CamOp::Zoom { num: num as int, den: den as int },
    }
}

/// The mathematical value of an optional [`CameraAction`].
pub open spec fn action_opt_view(a: Option<CameraAction>) -> Option<CamOp> {
    match a {
        Some(x) => Some(action_view(x)),
        None => None,
    }
}

/// The mathematical model of the shared render state.
pub struct StateModel {
    pub canvas_height: int,
    pub canvas_width: int,
    pub mouse_prev_x: int,
    pub mouse_prev_y: int,
    pub mouse_button: Option<MouseButton>,
    pub dirty: bool,
    pub density: Seq<u8>,
    pub ops: Seq<CamOp>,
}

/// The state right after construction: a 600x400 canvas, the anchor at the
/// origin, no button held, a clean dirty flag, no density data, and one
/// initial zoom of -1 applied to back the eye away from the volume.
pub open spec fn new_spec() -> StateModel {
    StateModel {
        canvas_height: 400,
        canvas_width: 600,
        mouse_prev_x: 0,
        mouse_prev_y: 0,
        mouse_button: None,
        dirty: false,
        density: Seq::empty(),
        ops: seq![CamOp::Zoom { num: -1, den: 1 }],
    }
}

/// Storing a new canvas size changes nothing else.
pub open spec fn update_canvas_spec(s: StateModel, h: int, w: int) -> StateModel {
    StateModel { canvas_height: h, canvas_width: w, ..s }
}

/// A button change re-anchors the drag at the given position.
pub open spec fn update_mouse_down_spec(
    s: StateModel,
    px: int,
    py: int,
    button: Option<MouseButton>,
) -> StateModel {
    StateModel { mouse_prev_x: px, mouse_prev_y: py, mouse_button: button, ..s }
}

/// The camera operation a mouse move causes: a rotation from the anchor
/// while the left button is held, a pan by the delta from the anchor while
/// the right one is, and nothing otherwise.
pub open spec fn mouse_op_spec(s: StateModel, px: int, py: int) -> Option<CamOp> {
    match s.mouse_button {
        Some(MouseButton::Left) => Some(
            CamOp::Rotate { from_x: s.mouse_prev_x, from_y: s.mouse_prev_y, to_x: px, to_y: py },
        ),
        Some(MouseButton::Right) => Some(
            CamOp::Pan { dx: px - s.mouse_prev_x, dy: py - s.mouse_prev_y },
        ),
        None => None,
    }
}

/// A mouse move applies [`mouse_op_spec`] (marking the state dirty when an
/// operation occurred) and always moves the anchor to the new position.
pub open spec fn update_mouse_pos_spec(s: StateModel, px: int, py: int) -> StateModel {
    match mouse_op_spec(s, px, py) {
        Some(op) => StateModel {
            mouse_prev_x: px,
            mouse_prev_y: py,
            dirty: true,
            ops: s.ops.push(op),
            ..s
        },
        None => StateModel { mouse_prev_x: px, mouse_prev_y: py, ..s },
    }
}

/// The zoom a scroll of `delta` causes: the raw delta normalized by the
/// current canvas height, kept as an exact rational.
pub open spec fn scroll_zoom_op_spec(s: StateModel, delta: int) -> CamOp {
    CamOp::Zoom { num: delta, den: s.canvas_height }
}

/// A scroll records its zoom and marks the state dirty.
pub open spec fn scroll_to_zoom_spec(s: StateModel, delta: int) -> StateModel {
    StateModel { dirty: true, ops: s.ops.push(scroll_zoom_op_spec(s, delta)), ..s }
}

/// Setting the dirty flag changes nothing else.
pub open spec fn set_arcball_changed_spec(s: StateModel, new_state: bool) -> StateModel {
    StateModel { dirty: new_state, ..s }
}

/// The shared render state.
///
/// The platform owns exactly one value of this type, locked around every
/// access; input handlers, the data loader and the render loop all go
/// through it.
pub struct AppState {
    pub canvas_height: u32,
    pub canvas_width: u32,
    mouse_prev: ScreenPos,
    pub mouse_button: Option<MouseButton>,
    arcball_changed: bool,
    pub density_data: Vec<u8>,
    ops: Ghost<Seq<CamOp>>,
}

impl View for AppState {
    type V = StateModel;

    closed spec fn view(&self) -> StateModel {
        StateModel {
            canvas_height: self.canvas_height as int,
            canvas_width: self.canvas_width as int,
            mouse_prev_x: self.mouse_prev.x as int,
            mouse_prev_y: self.mouse_prev.y as int,
            mouse_button: self.mouse_button,
            dirty: self.arcball_changed,
            density: self.density_data@,
            ops: self.ops@,
        }
    }
}

impl AppState {
    /// A fresh state, as [`new_spec`] describes it.
    pub fn new() -> (s: AppState)
        ensures
            s@ == new_spec(),
    {
        let ghost initial_ops: Seq<CamOp> = seq![CamOp::Zoom { num: -1, den: 1 }];
        let s = AppState {
            canvas_height: 400,
            canvas_width: 600,
            mouse_prev: ScreenPos { x: 0, y: 0 },
            mouse_button: None,
            arcball_changed: false,
            density_data: Vec::new(),
            ops: Ghost(initial_ops),
        };
        proof {
            assert(s@.density =~= new_spec().density);
            assert(s@.ops =~= new_spec().ops);
        }
        s
    }

    /// Stores a new canvas size.  The caller must also tell the platform
    /// camera about the new screen size so that later screen-space deltas
    /// map correctly.
    pub fn update_canvas(&mut self, canvas_height: u32, canvas_width: u32)
        ensures
            final(self)@ == update_canvas_spec(
                old(self)@,
                canvas_height as int,
                canvas_width as int,
            ),
    {
        self.canvas_height = canvas_height;
        self.canvas_width = canvas_width;
    }

    /// The current canvas size.
    pub fn get_canvas_dims(&self) -> (r: CanvasDims)
        ensures
            r.width == self@.canvas_width,
            r.height == self@.canvas_height,
    {
        CanvasDims { width: self.canvas_width, height: self.canvas_height }
    }

    /// Records which button (if any) is now held and re-anchors the drag
    /// at the given position.  `None` stands for "no button held" and is
    /// what a mouse-up reports.
    pub fn update_mouse_down(&mut self, mouse_new: ScreenPos, mouse_button: Option<MouseButton>)
        ensures
            final(self)@ == update_mouse_down_spec(
                old(self)@,
                mouse_new.x as int,
                mouse_new.y as int,
                mouse_button,
            ),
    {
        self.mouse_button = mouse_button;
        self.mouse_prev = mouse_new;
    }

    /// Sets the dirty flag.  The render loop clears it right after a
    /// successful draw; every camera-affecting input sets it.
    pub fn set_arcball_changed(&mut self, new_state: bool)
        ensures
            final(self)@ == set_arcball_changed_spec(old(self)@, new_state),
    {
        self.arcball_changed = new_state;
    }

    /// Handles a mouse move: returns the camera operation the move causes
    /// (rotate with the left button held, pan with the right one, nothing
    /// otherwise), marks the state dirty when one occurred, and always
    /// moves the anchor to the new position.
    pub fn update_mouse_pos(&mut self, mouse_new: ScreenPos) -> (r: Option<CameraAction>)
        ensures
            final(self)@ == update_mouse_pos_spec(
                old(self)@,
                mouse_new.x as int,
                mouse_new.y as int,
            ),
            action_opt_view(r) == mouse_op_spec(old(self)@, mouse_new.x as int, mouse_new.y as int),
    {
        let action: Option<CameraAction> = match self.mouse_button {
            Some(MouseButton::Left) => Some(
                CameraAction::Rotate { from: self.mouse_prev, to: mouse_new },
            ),
            Some(MouseButton::Right) => Some(
                CameraAction::Pan {
                    dx: mouse_new.x as i64 - self.mouse_prev.x as i64,
                    dy: mouse_new.y as i64 - self.mouse_prev.y as i64,
                },
            ),
            None => None,
        };
        if action.is_some() {
            self.arcball_changed = true;
            proof {
                self.ops@ = self.ops@.push(action_view(action->Some_0));
            }
        }
        self.mouse_prev = mouse_new;
        action
    }

    /// Handles a scroll: returns the zoom the camera must apply — the raw
    /// delta over the current canvas height, as an exact rational — and
    /// marks the state dirty.
    pub fn scroll_to_zoom(&mut self, scroll_delta: i64) -> (r: CameraAction)
        ensures
            final(self)@ == scroll_to_zoom_spec(old(self)@, scroll_delta as int),
            action_view(r) == scroll_zoom_op_spec(old(self)@, scroll_delta as int),
    {
        let action = CameraAction::Zoom { num: scroll_delta, den: self.canvas_height as i64 };
        self.arcball_changed = true;
        proof {
            self.ops@ = self.ops@.push(action_view(action));
        }
        action
    }

    /// Whether the rendered frame is stale relative to the camera state.
    pub fn get_arcball_changed(&self) -> (r: bool)
        ensures
            r == self@.dirty,
    {
        self.arcball_changed
    }
}

/// Two zooms are the same camera motion when their rationals are equal.
pub open spec fn zoom_equiv(a: CamOp, b: CamOp) -> bool {
    &&& a matches CamOp::Zoom { num: an, den: ad }
    &&& b matches CamOp::Zoom { num: bn, den: bd }
    &&& an * bd == bn * ad
}

/// Zooming is resolution-independent: a scroll of `delta` at canvas height
/// `h` is the same camera motion as a scroll of `delta * k` at canvas
/// height `h * k`, for any positive `k`.
pub proof fn lemma_zoom_resolution_independent(
    s: StateModel,
    t: StateModel,
    delta: int,
    k: int,
)
    requires
        k > 0,
        t.canvas_height == k * s.canvas_height,
    ensures
        zoom_equiv(scroll_zoom_op_spec(s, delta), scroll_zoom_op_spec(t, delta * k)),
{
    assert(delta * (k * s.canvas_height) == (delta * k) * s.canvas_height) by (nonlinear_arith);
}

/// A mouse move with no button held moves the anchor without touching the
/// camera; a following press and drag then rotates exactly from the press
/// position, not from any earlier one.
pub proof fn lemma_mouse_anchor_continuity(
    s: StateModel,
    free_x: int,
    free_y: int,
    down_x: int,
    down_y: int,
    drag_x: int,
    drag_y: int,
)
    requires
        s.mouse_button is None,
    ensures
        ({
            let s1 = update_mouse_pos_spec(s, free_x, free_y);
            &&& s1.ops == s.ops
            &&& s1.dirty == s.dirty
            &&& s1.mouse_prev_x == free_x
            &&& s1.mouse_prev_y == free_y
        }),
        ({
            let s1 = update_mouse_pos_spec(s, free_x, free_y);
            let s2 = update_mouse_down_spec(s1, down_x, down_y, Some(MouseButton::Left));
            let s3 = update_mouse_pos_spec(s2, drag_x, drag_y);
            &&& s3.ops == s.ops.push(
                CamOp::Rotate { from_x: down_x, from_y: down_y, to_x: drag_x, to_y: drag_y },
            )
            &&& s3.dirty
        }),
{
}

/// Maps the platform's numeric button code to a [`MouseButton`]:
/// code 0 is the left button, code 1 the right one, and anything else
/// is treated as no button of interest.
pub fn button_from_code(code: i16) -> (r: Option<MouseButton>)
    ensures
        code == 0 ==> r == Some(MouseButton::Left),
        code == 1 ==> r == Some(MouseButton::Right),
        code != 0 && code != 1 ==> r is None,
{
    if code == 0 {
        Some(MouseButton::Left)
    } else if code == 1 {
        Some(MouseButton::Right)
    } else {
        None
    }
}

} // verus!
