use volumetric_renderer::app_state::AppState;
use volumetric_renderer::app_state::CameraAction;
use volumetric_renderer::app_state::MouseButton;
use volumetric_renderer::app_state::ScreenPos;
use volumetric_renderer::app_state::button_from_code;

#[test]
fn fresh_state_is_clean() {
    let s = AppState::new();
    assert!(!s.get_arcball_changed());
    assert_eq!(s.canvas_height, 400);
    assert_eq!(s.canvas_width, 600);
    assert!(s.mouse_button.is_none());
    assert!(s.density_data.is_empty());
}

#[test]
fn update_canvas_stores_dims() {
    let mut s = AppState::new();
    s.update_canvas(800, 800);
    let dims = s.get_canvas_dims();
    assert_eq!(dims.height, 800);
    assert_eq!(dims.width, 800);
    // Resizing alone does not make the frame stale.
    assert!(!s.get_arcball_changed());
}

#[test]
fn scroll_normalizes_by_canvas_height() {
    let mut s = AppState::new();
    s.update_canvas(400, 600);
    let a = s.scroll_to_zoom(10);
    assert_eq!(a, CameraAction::Zoom { num: 10, den: 400 });
    assert!(s.get_arcball_changed());

    // The same gesture at double the resolution: the zoom rationals are
    // equal, so the camera motion is the same.
    let mut t = AppState::new();
    t.update_canvas(800, 1200);
    let b = t.scroll_to_zoom(20);
    assert_eq!(b, CameraAction::Zoom { num: 20, den: 800 });
    match (a, b) {
        (CameraAction::Zoom { num: an, den: ad }, CameraAction::Zoom { num: bn, den: bd }) => {
            assert_eq!(an * bd, bn * ad);
        }
        _ => panic!("scroll must map to a zoom"),
    }
}

#[test]
fn free_mouse_move_only_moves_anchor() {
    let mut s = AppState::new();
    let r = s.update_mouse_pos(ScreenPos { x: 100, y: 200 });
    assert_eq!(r, None);
    assert!(!s.get_arcball_changed());
}

#[test]
fn left_drag_rotates_from_new_anchor() {
    let mut s = AppState::new();
    // A stray move with no button held: camera untouched.
    assert_eq!(s.update_mouse_pos(ScreenPos { x: 1, y: 2 }), None);
    // Press at (50, 60), then drag to (70, 80): the rotation starts at
    // the press position, not at (1, 2).
    s.update_mouse_down(ScreenPos { x: 50, y: 60 }, Some(MouseButton::Left));
    let r = s.update_mouse_pos(ScreenPos { x: 70, y: 80 });
    assert_eq!(
        r,
        Some(CameraAction::Rotate {
            from: ScreenPos { x: 50, y: 60 },
            to: ScreenPos { x: 70, y: 80 },
        })
    );
    assert!(s.get_arcball_changed());
}

#[test]
fn right_drag_pans_by_delta() {
    let mut s = AppState::new();
    s.update_mouse_down(ScreenPos { x: 10, y: 10 }, Some(MouseButton::Right));
    let r = s.update_mouse_pos(ScreenPos { x: 13, y: 6 });
    assert_eq!(r, Some(CameraAction::Pan { dx: 3, dy: -4 }));
    assert!(s.get_arcball_changed());
}

#[test]
fn mouse_up_stops_camera_motion() {
    let mut s = AppState::new();
    s.update_mouse_down(ScreenPos { x: 10, y: 10 }, Some(MouseButton::Left));
    assert!(s.update_mouse_pos(ScreenPos { x: 11, y: 10 }).is_some());
    // Mouse-up reports "no button held".
    s.update_mouse_down(ScreenPos { x: 11, y: 10 }, None);
    assert_eq!(s.update_mouse_pos(ScreenPos { x: 20, y: 20 }), None);
}

#[test]
fn button_codes() {
    assert_eq!(button_from_code(0), Some(MouseButton::Left));
    assert_eq!(button_from_code(1), Some(MouseButton::Right));
    assert_eq!(button_from_code(2), None);
    assert_eq!(button_from_code(-1), None);
}
