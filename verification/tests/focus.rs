use third_person_camera::angle::{HALF_PI, PI};
use third_person_camera::fixed::Fixed;
use third_person_camera::focus::{displace_focus, modify_focus, CameraFocusModifier, FocusZone};
use third_person_camera::vector::{Vec2, Vec3};
use third_person_camera::zoom::zoom_mouse;
use third_person_camera::ThirdPersonCamera;

fn fx(micros: i64) -> Fixed {
    Fixed::from_micros(micros)
}

const THREE_QUARTER_PI: i64 = 2_356_194;
const QUARTER_PI: i64 = 785_398;

fn camera() -> ThirdPersonCamera {
    let mut cam = ThirdPersonCamera::default();
    cam.focus_modifier = CameraFocusModifier {
        max_forward_displacement: fx(2_000_000),
        max_backward_displacement: fx(1_000_000),
        upper_threshold: fx(THREE_QUARTER_PI),
        lower_threshold: fx(QUARTER_PI),
        behind_radius_displacement: None,
    };
    cam.true_focus = Vec3::new(fx(10_000_000), fx(810_000), fx(-5_000_000));
    cam.focus = Vec3::new(fx(1), fx(2), fx(3));
    cam
}

fn forward() -> Vec2 {
    Vec2::new(fx(600_000), fx(-800_000))
}

fn identity(t: Fixed) -> Fixed {
    t
}

fn nothing(_t: Fixed) -> Fixed {
    Fixed::from_micros(0)
}

#[test]
fn default_modifier_displaces_nothing() {
    let modifier = CameraFocusModifier::default();
    assert_eq!(modifier.max_forward_displacement, fx(0));
    assert_eq!(modifier.max_backward_displacement, fx(0));
    assert_eq!(modifier.upper_threshold, fx(PI));
    assert_eq!(modifier.lower_threshold, fx(0));
    assert_eq!(modifier.behind_radius_displacement, None);
    assert_eq!(CameraFocusModifier::new(), modifier);
}

#[test]
fn zones_are_split_by_the_thresholds() {
    let modifier = camera().focus_modifier;
    assert_eq!(modifier.zone(fx(THREE_QUARTER_PI + 1)), FocusZone::High);
    assert_eq!(modifier.zone(fx(THREE_QUARTER_PI)), FocusZone::Level);
    assert_eq!(modifier.zone(fx(HALF_PI)), FocusZone::Level);
    assert_eq!(modifier.zone(fx(QUARTER_PI)), FocusZone::Level);
    assert_eq!(modifier.zone(fx(QUARTER_PI - 1)), FocusZone::Low);
}

#[test]
fn ratio_runs_from_threshold_to_pole() {
    let modifier = camera().focus_modifier;
    assert_eq!(modifier.ratio(fx(THREE_QUARTER_PI + 1)), fx(1));
    assert_eq!(modifier.ratio(fx(2_748_894)), fx(500_000));
    assert_eq!(modifier.ratio(fx(PI)), fx(1_000_000));
    assert_eq!(modifier.ratio(fx(4_000_000)), fx(1_000_000));
    assert_eq!(modifier.ratio(fx(392_699)), fx(500_000));
    assert_eq!(modifier.ratio(fx(0)), fx(1_000_000));
    assert_eq!(modifier.ratio(fx(-1_000_000)), fx(1_000_000));
    assert_eq!(modifier.ratio(fx(HALF_PI)), fx(0));
}

#[test]
fn ratio_guards_a_span_of_zero() {
    let modifier = CameraFocusModifier::default();
    // upper threshold at the pole itself, lower threshold at zero
    assert_eq!(modifier.ratio(fx(PI + 1)), fx(1_000_000));
    assert_eq!(modifier.ratio(fx(-1)), fx(1_000_000));
    assert_eq!(modifier.ratio(fx(PI)), fx(0));
    assert_eq!(modifier.ratio(fx(0)), fx(0));
}

#[test]
fn ratio_with_thresholds_past_the_poles_is_zero() {
    let mut modifier = camera().focus_modifier;
    modifier.upper_threshold = fx(PI + 500_000);
    modifier.lower_threshold = fx(-500_000);
    assert_eq!(modifier.ratio(fx(PI + 700_000)), fx(0));
    assert_eq!(modifier.ratio(fx(-700_000)), fx(0));
}

#[test]
fn level_camera_looks_at_the_true_focus() {
    let mut cam = camera();
    modify_focus(&mut cam, fx(HALF_PI), forward(), identity, identity, identity);
    assert_eq!(cam.focus, cam.true_focus);
    let mut expected = camera();
    expected.focus = expected.true_focus;
    assert_eq!(cam, expected);
}

#[test]
fn high_camera_looks_ahead_of_the_target() {
    let mut cam = camera();
    modify_focus(&mut cam, fx(2_748_894), forward(), identity, nothing, nothing);
    // ratio 0.5, displacement 0.5 * 2.0 = 1.0 along (0.6, -0.8)
    assert_eq!(cam.focus, Vec3::new(fx(10_600_000), fx(810_000), fx(-5_800_000)));
    assert_eq!(cam.true_focus, camera().true_focus);
    assert_eq!(cam.zoom, camera().zoom);
}

#[test]
fn low_camera_looks_behind_the_target() {
    let mut cam = camera();
    modify_focus(&mut cam, fx(392_699), forward(), nothing, identity, nothing);
    // ratio 0.5, displacement 0.5 * 1.0 = 0.5 along (-0.6, 0.8)
    assert_eq!(cam.focus, Vec3::new(fx(9_700_000), fx(810_000), fx(-4_600_000)));
}

#[test]
fn each_zone_uses_its_own_curve() {
    let mut cam = camera();
    modify_focus(&mut cam, fx(2_748_894), forward(), nothing, identity, identity);
    assert_eq!(cam.focus, cam.true_focus);
    modify_focus(&mut cam, fx(392_699), forward(), identity, nothing, identity);
    assert_eq!(cam.focus, cam.true_focus);
}

#[test]
fn curve_is_evaluated_at_the_ratio() {
    let mut cam = camera();
    cam.true_focus = Vec3::new(fx(0), fx(810_000), fx(0));
    let square = |t: Fixed| t.times(t);
    modify_focus(&mut cam, fx(3_000_000), Vec2::new(fx(0), fx(1_000_000)), square, nothing, nothing);
    // ratio 0.819718, squared 0.671937, times 2.0
    assert_eq!(cam.focus, Vec3::new(fx(0), fx(810_000), fx(1_343_874)));
}

#[test]
fn response_is_kept_between_zero_and_one() {
    let mut cam = camera();
    displace_focus(&mut cam, fx(3_000_000), forward(), fx(7_000_000), fx(0));
    assert_eq!(cam.focus, Vec3::new(fx(11_200_000), fx(810_000), fx(-6_600_000)));
    displace_focus(&mut cam, fx(3_000_000), forward(), fx(-7_000_000), fx(0));
    assert_eq!(cam.focus, cam.true_focus);
    displace_focus(&mut cam, fx(100_000), forward(), fx(7_000_000), fx(0));
    assert_eq!(cam.focus, Vec3::new(fx(9_400_000), fx(810_000), fx(-4_200_000)));
}

#[test]
fn displacement_stays_within_reach() {
    let responses = [i64::MIN, -1, 0, 1, 250_000, 999_999, 1_000_000, 1_000_001, i64::MAX];
    let angles = [-1_000_000, 0, 100_000, QUARTER_PI, HALF_PI, THREE_QUARTER_PI, 3_000_000, PI, 9_000_000];
    for response in responses {
        for angle in angles {
            let mut cam = camera();
            displace_focus(&mut cam, fx(angle), forward(), fx(response), fx(0));
            let dx = cam.focus.x.micros - cam.true_focus.x.micros;
            let dz = cam.focus.z.micros - cam.true_focus.z.micros;
            assert!(dx.abs() <= 2_000_000);
            assert!(dz.abs() <= 2_000_000);
            assert_eq!(cam.focus.y, cam.true_focus.y);
        }
    }
}

#[test]
fn radius_pull_draws_a_low_camera_in() {
    let mut cam = camera();
    cam.focus_modifier.behind_radius_displacement = Some(fx(800_000));
    cam.zoom.true_radius = fx(2_500_000);
    cam.zoom.radius = fx(2_500_000);
    modify_focus(&mut cam, fx(392_699), forward(), nothing, nothing, identity);
    // 2.5 - 0.5 * 0.8
    assert_eq!(cam.zoom.radius, fx(2_100_000));
    assert_eq!(cam.zoom.true_radius, fx(2_500_000));
    modify_focus(&mut cam, fx(HALF_PI), forward(), nothing, nothing, identity);
    assert_eq!(cam.zoom.radius, fx(2_500_000));
}

#[test]
fn radius_pull_leaves_a_high_camera_alone() {
    let mut cam = camera();
    cam.focus_modifier.behind_radius_displacement = Some(fx(800_000));
    cam.zoom.true_radius = fx(2_500_000);
    cam.zoom.radius = fx(1_900_000);
    modify_focus(&mut cam, fx(3_000_000), forward(), nothing, nothing, identity);
    assert_eq!(cam.zoom.radius, fx(1_900_000));
}

#[test]
fn without_radius_pull_the_radius_is_left_alone() {
    let mut cam = camera();
    cam.zoom.true_radius = fx(2_500_000);
    cam.zoom.radius = fx(1_900_000);
    modify_focus(&mut cam, fx(392_699), forward(), nothing, identity, identity);
    assert_eq!(cam.zoom.radius, fx(1_900_000));
    modify_focus(&mut cam, fx(HALF_PI), forward(), nothing, identity, identity);
    assert_eq!(cam.zoom.radius, fx(1_900_000));
}

#[test]
fn default_camera_never_displaces() {
    let angles = [0, 1, HALF_PI, PI - 1, PI];
    for angle in angles {
        let mut cam = ThirdPersonCamera::default();
        cam.true_focus = Vec3::new(fx(1_000_000), fx(2_000_000), fx(3_000_000));
        modify_focus(&mut cam, fx(angle), forward(), identity, identity, identity);
        assert_eq!(cam.focus, cam.true_focus);
    }
}

#[test]
fn crossed_thresholds_displace_a_level_camera() {
    let mut cam = camera();
    cam.focus_modifier.upper_threshold = fx(QUARTER_PI);
    cam.focus_modifier.lower_threshold = fx(THREE_QUARTER_PI);
    assert_eq!(cam.focus_modifier.zone(fx(HALF_PI)), FocusZone::High);
    assert!(!cam.is_well_formed());
    displace_focus(&mut cam, fx(HALF_PI), forward(), fx(1_000_000), fx(0));
    assert_eq!(cam.focus, Vec3::new(fx(11_200_000), fx(810_000), fx(-6_600_000)));
}

#[test]
fn thresholds_on_the_level_angle_keep_a_level_camera_on_target() {
    let mut cam = camera();
    cam.focus_modifier.upper_threshold = fx(HALF_PI);
    cam.focus_modifier.lower_threshold = fx(HALF_PI);
    modify_focus(&mut cam, fx(HALF_PI), forward(), identity, identity, identity);
    assert_eq!(cam.focus, cam.true_focus);
}

#[test]
fn scroll_outlasts_a_level_tick_with_radius_pull() {
    let mut cam = ThirdPersonCamera::default();
    cam.focus_modifier.behind_radius_displacement = Some(fx(800_000));
    zoom_mouse(&mut cam, &[fx(1_000_000)]);
    assert_eq!(cam.zoom.radius, fx(2_025_000));
    modify_focus(&mut cam, fx(HALF_PI), forward(), nothing, nothing, identity);
    assert_eq!(cam.zoom.radius, fx(2_025_000));
    assert_eq!(cam.zoom.true_radius, fx(2_025_000));
}

#[test]
fn radius_pull_starts_from_the_scrolled_baseline() {
    let mut cam = camera();
    cam.focus_modifier.behind_radius_displacement = Some(fx(800_000));
    zoom_mouse(&mut cam, &[fx(1_000_000)]);
    assert_eq!(cam.zoom.true_radius, fx(2_025_000));
    modify_focus(&mut cam, fx(392_699), forward(), nothing, nothing, identity);
    // 2.025 - 0.5 * 0.8
    assert_eq!(cam.zoom.radius, fx(1_625_000));
    assert_eq!(cam.zoom.true_radius, fx(2_025_000));
}

#[test]
fn radius_pull_sets_the_radius_while_a_radius_is_saved() {
    let mut cam = ThirdPersonCamera::default();
    cam.focus_modifier.behind_radius_displacement = Some(fx(800_000));
    cam.zoom.radius = fx(1_200_000);
    cam.zoom.saved_radius = Some(fx(2_250_000));
    modify_focus(&mut cam, fx(HALF_PI), forward(), nothing, nothing, identity);
    assert_eq!(cam.zoom.radius, fx(2_250_000));
    assert_eq!(cam.zoom.saved_radius, Some(fx(2_250_000)));
}
