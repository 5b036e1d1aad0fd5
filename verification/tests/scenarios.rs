use third_person_camera::{
    aim, toggle_x_offset, zoom_mouse, Fixed, Offset, ThirdPersonCamera, Zoom,
};

fn fixed(value: f64) -> Fixed {
    Fixed::from_micros((value * 1_000_000.0).round() as i64)
}

fn float(value: Fixed) -> f64 {
    value.micros as f64 / 1_000_000.0
}

fn zoom(min: f64, max: f64, radius: f64) -> Zoom {
    Zoom {
        min: fixed(min),
        max: fixed(max),
        radius: fixed(radius),
        true_radius: fixed(radius),
        saved_radius: None,
    }
}

#[test]
fn scenario_scroll_in_by_one() {
    let mut cam = ThirdPersonCamera::default();
    cam.zoom = zoom(1.5, 5.0, 3.0);
    cam.zoom_sensitivity = fixed(1.0);
    zoom_mouse(&mut cam, &[fixed(1.0)]);
    assert_eq!(cam.zoom.radius, fixed(2.7));
    assert_eq!(float(cam.zoom.radius), 2.7);
}

#[test]
fn scenario_first_tick_of_aiming() {
    let mut cam = ThirdPersonCamera::default();
    cam.zoom = zoom(1.5, 5.0, 3.0);
    cam.aim_zoom = fixed(0.7);
    cam.aim_speed = fixed(3.0);
    aim(&mut cam, true, true, fixed(0.1));
    let step = 3.0 - float(cam.zoom.radius);
    assert!((step - (3.0 / 0.7) * 3.0 * 0.1).abs() < 0.000_002);
    assert!((float(cam.zoom.radius) - 1.714).abs() < 0.001);
    assert!(float(cam.zoom.radius) > 1.05);
    assert_eq!(cam.zoom.saved_radius, Some(fixed(3.0)));
}

#[test]
fn scenario_aim_and_release() {
    let mut cam = ThirdPersonCamera::default();
    cam.zoom = zoom(1.5, 5.0, 3.0);
    for _ in 0..20 {
        aim(&mut cam, true, true, fixed(0.016));
    }
    assert_eq!(cam.zoom.radius, fixed(1.05));
    for _ in 0..20 {
        aim(&mut cam, false, true, fixed(0.016));
    }
    assert_eq!(cam.zoom.radius, fixed(3.0));
    assert_eq!(cam.zoom.saved_radius, None);
}

#[test]
fn scenario_offset_toggled_once() {
    let mut cam = ThirdPersonCamera::default();
    cam.offset_toggle_speed = fixed(5.0);
    cam.offset = Offset::new(fixed(0.5), fixed(0.4));
    toggle_x_offset(&mut cam, true, fixed(0.1));
    assert_eq!(cam.offset.offset, (fixed(0.0), fixed(0.4)));
}
