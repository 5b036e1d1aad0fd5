//! Focus displacement: the look-at point moves ahead of the target when the
//! camera looks down from high above, and behind it when the camera looks up
//! from below, so that the target stays in frame near the poles.

use vstd::prelude::*;
use crate::angle::{HALF_PI, PI};
use crate::camera::ThirdPersonCamera;
use crate::fixed::{lemma_times_within, Fixed, SCALE};
use crate::vector::{Vec2, Vec3};

verus! {

/// Where the camera stands relative to the two thresholds.
#[derive(Clone, Copy, Debug, PartialEq, Eq)]
pub enum FocusZone {
    /// Beyond the upper threshold: high above the target, looking down.
    High,
    /// Short of the lower threshold: below the target, looking up.
    Low,
    /// Between the thresholds.
    Level,
}

/// The thresholds and reach of the focus displacement.
///
/// Angles are polar angles in radians, measured from straight up between the
/// world's up axis and the line from the camera to the true focus: zero with
/// the camera right below the target, `PI` with the camera right above it.
/// `upper_threshold` is meant to be greater than `HALF_PI` and
/// `lower_threshold` less. `behind_radius_displacement`, where set, is the
/// greatest distance by which a camera in the low zone is pulled toward the
/// target.
#[derive(Clone, Copy, Debug, PartialEq, Eq)]
pub struct CameraFocusModifier {
    pub max_forward_displacement: Fixed,
    pub max_backward_displacement: Fixed,
    pub upper_threshold: Fixed,
    pub lower_threshold: Fixed,
    pub behind_radius_displacement: Option<Fixed>,
}

/// How far `past` has come through `span`, between zero and one. A span of
/// zero counts as passed.
pub open spec fn progress(past: Fixed, span: Fixed) -> Fixed {
    if span.micros == 0 {
        Fixed::one()
    } else {
        past.over(span).clamp(Fixed::zero(), Fixed::one())
    }
}

/// The point `distance` away from `origin` along the ground direction
/// `direction`. The height is kept.
pub open spec fn displaced(origin: Vec3, direction: Vec2, distance: Fixed) -> Vec3 {
    Vec3 {
        x: origin.x.plus(direction.x.times(distance)),
        y: origin.y,
        z: origin.z.plus(direction.y.times(distance)),
    }
}

impl CameraFocusModifier {
    /// The thresholds lie on their sides of the level angle.
    pub open spec fn thresholds_ordered(self) -> bool {
        self.lower_threshold.micros < HALF_PI < self.upper_threshold.micros
    }

    /// The level angle lies in neither the high zone nor the low one.
    pub open spec fn level_between(self) -> bool {
        self.lower_threshold.micros <= HALF_PI <= self.upper_threshold.micros
    }

    /// The zone of the polar angle `angle`.
    pub open spec fn spec_zone(self, angle: Fixed) -> FocusZone {
        if angle.micros > self.upper_threshold.micros {
            FocusZone::High
        } else if angle.micros < self.lower_threshold.micros {
            FocusZone::Low
        } else {
            FocusZone::Level
        }
    }

    /// How far `angle` has gone from its zone's threshold to the pole behind
    /// it: in the high zone from the upper threshold to `PI`, in the low zone
    /// from the lower threshold to zero.
    pub open spec fn spec_ratio(self, angle: Fixed) -> Fixed {
        match self.spec_zone(angle) {
            FocusZone::High => progress(
                angle.minus(self.upper_threshold),
                (Fixed { micros: PI }).minus(self.upper_threshold),
            ),
            FocusZone::Low => progress(
                self.lower_threshold.minus(angle),
                self.lower_threshold,
            ),
            FocusZone::Level => Fixed::zero(),
        }
    }

    /// The distance that the focus moves for the response `response` of the
    /// zone's curve: the response kept between zero and one, times the
    /// zone's reach.
    pub open spec fn displacement(self, zone: FocusZone, response: Fixed) -> Fixed {
        match zone {
            FocusZone::High => response.clamp(Fixed::zero(), Fixed::one()).times(
                self.max_forward_displacement,
            ),
            FocusZone::Low => response.clamp(Fixed::zero(), Fixed::one()).times(
                self.max_backward_displacement,
            ),
            FocusZone::Level => Fixed::zero(),
        }
    }

    /// No displacement, with the thresholds at the poles.
    pub fn new() -> (modifier: CameraFocusModifier)
        ensures
            modifier == (CameraFocusModifier {
                max_forward_displacement: Fixed::zero(),
                max_backward_displacement: Fixed::zero(),
                upper_threshold: Fixed { micros: PI },
                lower_threshold: Fixed::zero(),
                behind_radius_displacement: None,
            }),
            modifier.thresholds_ordered(),
    {
        CameraFocusModifier {
            max_forward_displacement: Fixed { micros: 0 },
            max_backward_displacement: Fixed { micros: 0 },
            upper_threshold: Fixed { micros: PI },
            lower_threshold: Fixed { micros: 0 },
            behind_radius_displacement: None,
        }
    }

    /// The zone of the polar angle `angle`.
    #[verifier::when_used_as_spec(spec_zone)]
    pub fn zone(self, angle: Fixed) -> (zone: FocusZone)
        ensures
            zone == self.spec_zone(angle),
    {
        if angle.micros > self.upper_threshold.micros {
            FocusZone::High
        } else if angle.micros < self.lower_threshold.micros {
            FocusZone::Low
        } else {
            FocusZone::Level
        }
    }

    /// How far `angle` has gone from its zone's threshold to the pole behind
    /// it, between zero and one: the argument of the zone's response curve.
    /// Zero between the thresholds.
    #[verifier::when_used_as_spec(spec_ratio)]
    pub fn ratio(self, angle: Fixed) -> (t: Fixed)
        ensures
            t == self.spec_ratio(angle),
            0 <= t.micros <= SCALE,
    {
        match self.zone(angle) {
            FocusZone::High => {
                let past: Fixed = angle.minus(self.upper_threshold);
                let span: Fixed = (Fixed { micros: PI }).minus(self.upper_threshold);
                fraction(past, span)
            },
            FocusZone::Low => {
                let past: Fixed = self.lower_threshold.minus(angle);
                fraction(past, self.lower_threshold)
            },
            FocusZone::Level => Fixed { micros: 0 },
        }
    }
}

impl Default for CameraFocusModifier {
    fn default() -> (modifier: CameraFocusModifier)
        ensures
            modifier == (CameraFocusModifier {
                max_forward_displacement: Fixed::zero(),
                max_backward_displacement: Fixed::zero(),
                upper_threshold: Fixed { micros: PI },
                lower_threshold: Fixed::zero(),
                behind_radius_displacement: None,
            }),
    {
        CameraFocusModifier::new()
    }
}

fn fraction(past: Fixed, span: Fixed) -> (t: Fixed)
    ensures
        t == progress(past, span),
        0 <= t.micros <= SCALE,
{
    if span.micros == 0 {
        Fixed { micros: SCALE }
    } else {
        past.over(span).clamp(Fixed { micros: 0 }, Fixed { micros: SCALE })
    }
}

/// The camera after focus displacement, given what the response curves
/// returned: `response` from the curve of the zone that `angle` lies in,
/// `pull` from the radius-pull curve.
///
/// In the high zone the focus lies ahead of the true focus along
/// `forward_xz`, in the low zone behind it, in between on it. Where a radius
/// pull is configured, the radius is the baseline less the pulled distance in
/// the low zone, and the baseline between the thresholds.
pub open spec fn focus_modified(
    cam: ThirdPersonCamera,
    angle: Fixed,
    forward_xz: Vec2,
    response: Fixed,
    pull: Fixed,
) -> ThirdPersonCamera {
    let modifier = cam.focus_modifier;
    let zone = modifier.zone(angle);
    let distance = modifier.displacement(zone, response);
    let focus = match zone {
        FocusZone::High => displaced(cam.true_focus, forward_xz, distance),
        FocusZone::Low => displaced(cam.true_focus, forward_xz.negated(), distance),
        FocusZone::Level => cam.true_focus,
    };
    let radius = match (zone, modifier.behind_radius_displacement) {
        (FocusZone::Low, Some(reach)) => cam.zoom.true_radius.minus(pull.times(reach)),
        (FocusZone::Level, Some(_)) => cam.zoom.true_radius,
        _ => cam.zoom.radius,
    };
    ThirdPersonCamera { focus, zoom: crate::zoom::Zoom { radius, ..cam.zoom }, ..cam }
}

impl CameraFocusModifier {
    /// The farthest that the focus moves from the true focus in `zone`.
    pub open spec fn reach(self, zone: FocusZone) -> Fixed {
        match zone {
            FocusZone::High => self.max_forward_displacement,
            FocusZone::Low => self.max_backward_displacement,
            FocusZone::Level => Fixed::zero(),
        }
    }
}

/// The focus is the true focus plus a bounded displacement: with reaches that
/// are not negative and a ground direction whose coordinates are at most one
/// in magnitude, the focus keeps the height of the true focus and lies, along
/// each ground axis, within the zone's reach of it, whatever the curves
/// return.
pub proof fn lemma_focus_within_reach(
    cam: ThirdPersonCamera,
    angle: Fixed,
    forward_xz: Vec2,
    response: Fixed,
    pull: Fixed,
)
    requires
        cam.focus_modifier.max_forward_displacement.micros >= 0,
        cam.focus_modifier.max_backward_displacement.micros >= 0,
        -SCALE <= forward_xz.x.micros <= SCALE,
        -SCALE <= forward_xz.y.micros <= SCALE,
    ensures
        ({
            let after = focus_modified(cam, angle, forward_xz, response, pull);
            let reach = cam.focus_modifier.reach(cam.focus_modifier.zone(angle));
            &&& after.focus.y == cam.true_focus.y
            &&& -reach.micros <= after.focus.x.micros - cam.true_focus.x.micros <= reach.micros
            &&& -reach.micros <= after.focus.z.micros - cam.true_focus.z.micros <= reach.micros
            &&& after.true_focus == cam.true_focus
        }),
{
    let modifier = cam.focus_modifier;
    let zone = modifier.zone(angle);
    let reach = modifier.reach(zone);
    let share = response.clamp(Fixed::zero(), Fixed::one());
    let distance = modifier.displacement(zone, response);
    if zone != FocusZone::Level {
        lemma_times_within(share, reach);
        assert(distance == share.times(reach));
        assert(0 <= distance.micros <= reach.micros);
        let direction = if zone == FocusZone::High {
            forward_xz
        } else {
            forward_xz.negated()
        };
        lemma_times_within(direction.x, distance);
        lemma_times_within(direction.y, distance);
    }
}

/// A camera level with its target looks at the true focus: unless a
/// threshold has crossed the level angle, the focus at the level angle is
/// exactly the true focus, whatever the curves return.
pub proof fn lemma_level_focus_is_true_focus(
    cam: ThirdPersonCamera,
    forward_xz: Vec2,
    response: Fixed,
    pull: Fixed,
)
    requires
        cam.focus_modifier.level_between(),
    ensures
        cam.focus_modifier.zone(Fixed { micros: HALF_PI }) == FocusZone::Level,
        focus_modified(cam, Fixed { micros: HALF_PI }, forward_xz, response, pull).focus
            == cam.true_focus,
{
}

/// Moves the focus for the polar angle `angle`, given what the response
/// curves returned at `cam.focus_modifier.ratio(angle)`.
///
/// `forward_xz` is the camera's forward direction on the ground plane, of
/// length one.
pub fn displace_focus(
    cam: &mut ThirdPersonCamera,
    angle: Fixed,
    forward_xz: Vec2,
    response: Fixed,
    pull: Fixed,
)
    ensures
        *final(cam) == focus_modified(*old(cam), angle, forward_xz, response, pull),
        old(cam).focus_modifier.zone(angle) == FocusZone::Level ==> final(cam).focus == old(
            cam,
        ).true_focus,
        angle.micros == HALF_PI && old(cam).focus_modifier.level_between()
            ==> final(cam).focus == old(cam).true_focus,
{
    let zone: FocusZone = cam.focus_modifier.zone(angle);
    let zero: Fixed = Fixed { micros: 0 };
    let one: Fixed = Fixed { micros: SCALE };
    match zone {
        FocusZone::High => {
            let distance: Fixed = response.clamp(zero, one).times(
                cam.focus_modifier.max_forward_displacement,
            );
            cam.focus = shifted(cam.true_focus, forward_xz, distance);
        },
        FocusZone::Low => {
            let distance: Fixed = response.clamp(zero, one).times(
                cam.focus_modifier.max_backward_displacement,
            );
            cam.focus = shifted(cam.true_focus, forward_xz.negated(), distance);
            if let Some(reach) = cam.focus_modifier.behind_radius_displacement {
                cam.zoom.radius = cam.zoom.true_radius.minus(pull.times(reach));
            }
        },
        FocusZone::Level => {
            cam.focus = cam.true_focus;
            if cam.focus_modifier.behind_radius_displacement.is_some() {
                cam.zoom.radius = cam.zoom.true_radius;
            }
        },
    }
}

fn shifted(origin: Vec3, direction: Vec2, distance: Fixed) -> (r: Vec3)
    ensures
        r == displaced(origin, direction, distance),
{
    Vec3 {
        x: origin.x.plus(direction.x.times(distance)),
        y: origin.y,
        z: origin.z.plus(direction.y.times(distance)),
    }
}

/// Moves the focus of the camera forward or backward, away from the true
/// focus, by the polar angle `angle` between the world's up axis and the line
/// from the camera to the true focus.
///
/// The curve of the zone that the angle lies in is evaluated at
/// `cam.focus_modifier.ratio(angle)`; in the low zone, with a radius pull
/// configured, so is `radius_pull_response`. Between the thresholds no curve
/// is evaluated and the focus is the true focus.
pub fn modify_focus<F, B, P>(
    cam: &mut ThirdPersonCamera,
    angle: Fixed,
    forward_xz: Vec2,
    forward_response: F,
    backward_response: B,
    radius_pull_response: P,
) where F: Fn(Fixed) -> Fixed, B: Fn(Fixed) -> Fixed, P: Fn(Fixed) -> Fixed
    requires
        forall|t: Fixed|
            0 <= t.micros <= SCALE ==> call_requires(forward_response, (t,)),
        forall|t: Fixed|
            0 <= t.micros <= SCALE ==> call_requires(backward_response, (t,)),
        forall|t: Fixed|
            0 <= t.micros <= SCALE ==> call_requires(radius_pull_response, (t,)),
    ensures
        match old(cam).focus_modifier.zone(angle) {
            FocusZone::High => exists|response: Fixed|
                call_ensures(
                    forward_response,
                    (old(cam).focus_modifier.ratio(angle),),
                    response,
                ) && *final(cam) == focus_modified(
                    *old(cam),
                    angle,
                    forward_xz,
                    response,
                    Fixed::zero(),
                ),
            FocusZone::Low => exists|response: Fixed, pull: Fixed|
                call_ensures(
                    backward_response,
                    (old(cam).focus_modifier.ratio(angle),),
                    response,
                ) && (old(cam).focus_modifier.behind_radius_displacement is Some ==> call_ensures(
                    radius_pull_response,
                    (old(cam).focus_modifier.ratio(angle),),
                    pull,
                )) && *final(cam) == focus_modified(*old(cam), angle, forward_xz, response, pull),
            FocusZone::Level => *final(cam) == focus_modified(
                *old(cam),
                angle,
                forward_xz,
                Fixed::zero(),
                Fixed::zero(),
            ) && final(cam).focus == old(cam).true_focus,
        },
        angle.micros == HALF_PI && old(cam).focus_modifier.level_between()
            ==> final(cam).focus == old(cam).true_focus,
{
    let t: Fixed = cam.focus_modifier.ratio(angle);
    let zero: Fixed = Fixed { micros: 0 };
    match cam.focus_modifier.zone(angle) {
        FocusZone::High => {
            let response: Fixed = forward_response(t);
            displace_focus(cam, angle, forward_xz, response, zero);
        },
        FocusZone::Low => {
            let response: Fixed = backward_response(t);
            let pull: Fixed = if cam.focus_modifier.behind_radius_displacement.is_some() {
                radius_pull_response(t)
            } else {
                zero
            };
            displace_focus(cam, angle, forward_xz, response, pull);
        },
        FocusZone::Level => {
            displace_focus(cam, angle, forward_xz, zero, zero);
        },
    }
}

} // verus!
