use third_person_camera::fixed::Fixed;
use third_person_camera::zoom::{zoom_mouse, Zoom};
use third_person_camera::ThirdPersonCamera;

fn fx(micros: i64) -> Fixed {
    Fixed::from_micros(micros)
}

fn zoom_at(min: i64, max: i64, radius: i64) -> Zoom {
    Zoom {
        min: fx(min),
        max: fx(max),
        radius: fx(radius),
        true_radius: fx(radius),
        saved_radius: None,
    }
}

#[test]
fn new_zoom_starts_halfway() {
    let zoom = Zoom::new(fx(1_500_000), fx(3_000_000));
    assert_eq!(zoom.min, fx(1_500_000));
    assert_eq!(zoom.max, fx(3_000_000));
    assert_eq!(zoom.radius, fx(2_250_000));
    assert_eq!(zoom.true_radius, fx(2_250_000));
    assert_eq!(zoom.saved_radius, None);
}

#[test]
fn scroll_of_one_takes_a_tenth_off() {
    // bounds (1.5, 5.0), scroll +1, sensitivity 1.0, radius 3.0: 2.7
    let mut zoom = zoom_at(1_500_000, 5_000_000, 3_000_000);
    zoom.apply_scroll(fx(1_000_000), fx(1_000_000));
    assert_eq!(zoom.radius, fx(2_700_000));
    assert_eq!(zoom.true_radius, fx(2_700_000));
    assert_eq!(zoom.saved_radius, None);
    assert_eq!(zoom.min, fx(1_500_000));
    assert_eq!(zoom.max, fx(5_000_000));
}

#[test]
fn scroll_back_adds_a_tenth() {
    let mut zoom = zoom_at(1_500_000, 5_000_000, 3_000_000);
    zoom.apply_scroll(fx(-1_000_000), fx(1_000_000));
    assert_eq!(zoom.radius, fx(3_300_000));
}

#[test]
fn scroll_is_proportional_to_the_radius() {
    let mut near = zoom_at(1_000_000, 100_000_000, 2_000_000);
    let mut far = zoom_at(1_000_000, 100_000_000, 20_000_000);
    near.apply_scroll(fx(1_000_000), fx(1_000_000));
    far.apply_scroll(fx(1_000_000), fx(1_000_000));
    assert_eq!(near.radius, fx(1_800_000));
    assert_eq!(far.radius, fx(18_000_000));
}

#[test]
fn scroll_scales_with_sensitivity() {
    let mut zoom = zoom_at(1_500_000, 5_000_000, 3_000_000);
    zoom.apply_scroll(fx(1_000_000), fx(2_500_000));
    assert_eq!(zoom.radius, fx(2_250_000));
}

#[test]
fn scroll_stops_at_the_bounds() {
    let mut zoom = zoom_at(1_500_000, 5_000_000, 3_000_000);
    zoom.apply_scroll(fx(1_000_000_000), fx(1_000_000));
    assert_eq!(zoom.radius, fx(1_500_000));
    zoom.apply_scroll(fx(-1_000_000_000), fx(1_000_000));
    assert_eq!(zoom.radius, fx(5_000_000));
}

#[test]
fn scroll_of_any_size_stays_within_bounds() {
    let deltas = [i64::MIN, -1_000_000_000_000, -1, 0, 1, 999_999_999_999, i64::MAX];
    let sensitivities = [0, 1, 1_000_000, 50_000_000, i64::MAX];
    for delta in deltas {
        for sensitivity in sensitivities {
            let mut zoom = zoom_at(1_500_000, 5_000_000, 3_000_000);
            zoom.apply_scroll(fx(delta), fx(sensitivity));
            assert!(zoom.radius.micros >= 1_500_000);
            assert!(zoom.radius.micros <= 5_000_000);
        }
    }
}

#[test]
fn scroll_brings_a_stray_radius_back_within_bounds() {
    let mut zoom = zoom_at(1_500_000, 5_000_000, 9_000_000);
    zoom.apply_scroll(fx(0), fx(1_000_000));
    assert_eq!(zoom.radius, fx(5_000_000));
}

#[test]
fn zoom_mouse_applies_the_sum_of_the_scrolls() {
    let mut cam = ThirdPersonCamera::default();
    cam.zoom = zoom_at(1_500_000, 5_000_000, 3_000_000);
    zoom_mouse(&mut cam, &[fx(500_000), fx(250_000), fx(250_000)]);
    assert_eq!(cam.zoom.radius, fx(2_700_000));
}

#[test]
fn zoom_mouse_uses_the_zoom_sensitivity() {
    let mut cam = ThirdPersonCamera::default();
    cam.zoom = zoom_at(1_500_000, 5_000_000, 3_000_000);
    cam.zoom_sensitivity = fx(2_000_000);
    zoom_mouse(&mut cam, &[fx(-1_000_000)]);
    assert_eq!(cam.zoom.radius, fx(3_600_000));
}

#[test]
fn zoom_mouse_without_scroll_changes_nothing() {
    let mut cam = ThirdPersonCamera::default();
    cam.zoom = zoom_at(1_500_000, 5_000_000, 9_000_000);
    let before = cam;
    zoom_mouse(&mut cam, &[]);
    assert_eq!(cam, before);
    zoom_mouse(&mut cam, &[fx(1_000_000), fx(-1_000_000)]);
    assert_eq!(cam, before);
}

#[test]
fn zoom_mouse_changes_only_the_radius_and_its_baseline() {
    let mut cam = ThirdPersonCamera::default();
    let before = cam;
    zoom_mouse(&mut cam, &[fx(1_000_000)]);
    // 2.25 - 0.225 = 2.025
    assert_eq!(cam.zoom.radius, fx(2_025_000));
    assert_eq!(cam.zoom.true_radius, fx(2_025_000));
    cam.zoom.radius = before.zoom.radius;
    cam.zoom.true_radius = before.zoom.true_radius;
    assert_eq!(cam, before);
}

#[test]
fn scroll_moves_the_baseline_with_the_radius() {
    let mut zoom = zoom_at(1_500_000, 5_000_000, 3_000_000);
    zoom.true_radius = fx(4_000_000);
    zoom.apply_scroll(fx(-1_000_000), fx(1_000_000));
    assert_eq!(zoom.radius, fx(3_300_000));
    assert_eq!(zoom.true_radius, fx(3_300_000));
    zoom.apply_scroll(fx(-1_000_000_000), fx(1_000_000));
    assert_eq!(zoom.radius, fx(5_000_000));
    assert_eq!(zoom.true_radius, fx(5_000_000));
}

#[test]
fn scroll_while_a_radius_is_saved_leaves_the_baseline() {
    let mut zoom = zoom_at(1_500_000, 5_000_000, 2_000_000);
    zoom.true_radius = fx(3_000_000);
    zoom.saved_radius = Some(fx(3_000_000));
    zoom.apply_scroll(fx(1_000_000), fx(1_000_000));
    assert_eq!(zoom.radius, fx(1_800_000));
    assert_eq!(zoom.true_radius, fx(3_000_000));
    assert_eq!(zoom.saved_radius, Some(fx(3_000_000)));
}

#[test]
fn scroll_with_bounds_out_of_order_still_answers() {
    let mut zoom = zoom_at(5_000_000, 1_500_000, 3_000_000);
    zoom.apply_scroll(fx(1_000_000), fx(1_000_000));
    assert_eq!(zoom.radius, fx(5_000_000));
    let mut zoom = zoom_at(5_000_000, 1_500_000, 6_000_000);
    zoom.apply_scroll(fx(0), fx(1_000_000));
    assert_eq!(zoom.radius, fx(1_500_000));
}
