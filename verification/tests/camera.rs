use iso_tilemap::camera::{CameraEvent, CameraState, ZOOM_MAX, ZOOM_MIN, ZOOM_UNIT};

#[test]
fn new_camera_is_identity() {
    let cam = CameraState::new();
    assert_eq!(cam.pan(), (0, 0));
    assert_eq!(cam.zoom(), ZOOM_UNIT);
    assert!(!cam.dragging());
}

#[test]
fn zoom_clamps_at_max() {
    let mut cam = CameraState::new();
    for _ in 0..50 {
        cam.step(CameraEvent::Scroll { up: true });
        assert!(ZOOM_MIN <= cam.zoom() && cam.zoom() <= ZOOM_MAX);
    }
    assert_eq!(cam.zoom(), ZOOM_MAX);
}

#[test]
fn zoom_clamps_at_min() {
    let mut cam = CameraState::new();
    for _ in 0..50 {
        cam.step(CameraEvent::Scroll { up: false });
        assert!(ZOOM_MIN <= cam.zoom() && cam.zoom() <= ZOOM_MAX);
    }
    assert_eq!(cam.zoom(), ZOOM_MIN);
}

#[test]
fn zoom_exact_steps() {
    let mut cam = CameraState::new();
    cam.step(CameraEvent::Scroll { up: true });
    assert_eq!(cam.zoom(), 1250);
    let mut cam = CameraState::new();
    cam.step(CameraEvent::Scroll { up: false });
    assert_eq!(cam.zoom(), 800);
}

#[test]
fn drag_pans_by_delta_over_zoom() {
    let mut cam = CameraState::new();
    cam.step(CameraEvent::ButtonDown);
    cam.step(CameraEvent::PointerMove { dx: 100, dy: -50 });
    assert_eq!(cam.pan(), (100, -50));

    let mut cam = CameraState::new();
    cam.step(CameraEvent::Scroll { up: true });
    cam.step(CameraEvent::Scroll { up: true });
    // 1000 -> 1250 -> 1562
    assert_eq!(cam.zoom(), 1562);
    cam.step(CameraEvent::ButtonDown);
    cam.step(CameraEvent::PointerMove { dx: 100, dy: 50 });
    // 100 * 1000 / 1562 = 64, 50 * 1000 / 1562 = 32, both rounded toward zero
    assert_eq!(cam.pan(), (64, 32));
}

#[test]
fn movement_while_released_is_not_applied() {
    let mut cam = CameraState::new();
    cam.step(CameraEvent::ButtonDown);
    cam.step(CameraEvent::PointerMove { dx: 10, dy: 10 });
    assert_eq!(cam.pan(), (10, 10));
    cam.step(CameraEvent::ButtonUp);
    cam.step(CameraEvent::PointerMove { dx: 100, dy: 100 });
    cam.step(CameraEvent::ButtonDown);
    assert_eq!(cam.pan(), (10, 10));
    cam.step(CameraEvent::PointerMove { dx: -5, dy: 0 });
    assert_eq!(cam.pan(), (5, 10));
}

#[test]
fn pointer_move_without_drag_is_ignored() {
    let mut cam = CameraState::new();
    cam.step(CameraEvent::PointerMove { dx: 42, dy: 42 });
    assert_eq!(cam.pan(), (0, 0));
}

#[test]
fn batch_applies_events_in_order() {
    let mut cam = CameraState::new();
    cam.apply_batch(&vec![
        CameraEvent::Scroll { up: true },
        CameraEvent::Scroll { up: true },
        CameraEvent::ButtonDown,
        CameraEvent::PointerMove { dx: 240, dy: -120 },
        CameraEvent::ButtonUp,
    ]);
    // Zoom 1000 -> 1250 -> 1562; pan 240 * 1000 / 1562 = 153, -120 * 1000 / 1562 = -76.
    assert_eq!(cam.zoom(), 1562);
    assert_eq!(cam.pan(), (153, -76));
    assert!(!cam.dragging());
}

#[test]
fn try_step_applies_ordinary_events() {
    let mut cam = CameraState::new();
    assert!(cam.try_step(CameraEvent::ButtonDown));
    assert!(cam.try_step(CameraEvent::PointerMove { dx: 7, dy: 9 }));
    assert!(cam.try_step(CameraEvent::Scroll { up: true }));
    assert_eq!(cam.pan(), (7, 9));
    assert_eq!(cam.zoom(), 1250);
}
