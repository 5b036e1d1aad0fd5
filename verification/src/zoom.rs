//! The zoom model: a radial distance kept between two bounds.

use vstd::prelude::*;
use crate::camera::ThirdPersonCamera;
use crate::fixed::Fixed;

verus! {

/// The share of the radius that one unit of scroll moves it by, at
/// sensitivity one: a tenth, in millionths.
pub const SCROLL_STEP: i64 = 100_000;

/// The zoom bounds and the camera's distance from its focus.
///
/// `radius` is the distance in use. `saved_radius` holds the radius that
/// aiming interrupted, from the first aimed tick until the radius is back at
/// it.
///
/// `true_radius` is the baseline that a pull-in toward the target starts
/// from. `new` sets it to the first radius, and a scroll moves it with the
/// radius unless a radius is saved; aiming never moves it. It is read only
/// where a radius pull is configured: focus displacement then sets the
/// radius from it on every tick that finds the camera in the low zone or
/// between the thresholds, whether a radius is saved or not.
#[derive(Clone, Copy, Debug, PartialEq, Eq)]
pub struct Zoom {
    pub min: Fixed,
    pub max: Fixed,
    pub radius: Fixed,
    pub true_radius: Fixed,
    pub saved_radius: Option<Fixed>,
}

impl Zoom {
    /// The bounds are in order.
    pub open spec fn bounds_ordered(self) -> bool {
        self.min.micros <= self.max.micros
    }

    /// The radius lies within the bounds.
    pub open spec fn in_bounds(self) -> bool {
        self.min.micros <= self.radius.micros <= self.max.micros
    }

    /// The radius that one scroll input leads to.
    pub open spec fn scrolled_radius(self, delta: Fixed, sensitivity: Fixed) -> Fixed {
        self.radius.minus(
            delta.times(self.radius).times(Fixed { micros: SCROLL_STEP }).times(sensitivity),
        ).clamp(self.min, self.max)
    }

    /// The zoom after one scroll input: the radius is the scrolled one, and
    /// so is the baseline unless a radius is saved.
    pub open spec fn scrolled(self, delta: Fixed, sensitivity: Fixed) -> Zoom {
        Zoom {
            radius: self.scrolled_radius(delta, sensitivity),
            true_radius: if self.saved_radius is None {
                self.scrolled_radius(delta, sensitivity)
            } else {
                self.true_radius
            },
            ..self
        }
    }

    /// Scroll keeps the radius within the bounds: with the bounds in order,
    /// the scrolled radius lies between them whatever the scroll, the
    /// sensitivity and the radius before.
    pub proof fn lemma_scroll_within_bounds(self, delta: Fixed, sensitivity: Fixed)
        requires
            self.bounds_ordered(),
        ensures
            self.min.micros <= self.scrolled_radius(delta, sensitivity).micros <= self.max.micros,
    {
    }

    /// A zoom at rest halfway between the bounds.
    pub fn new(min: Fixed, max: Fixed) -> (zoom: Zoom)
        ensures
            zoom == (Zoom {
                min,
                max,
                radius: min.midpoint(max),
                true_radius: min.midpoint(max),
                saved_radius: None,
            }),
            min.micros <= max.micros ==> zoom.in_bounds(),
    {
        let radius: Fixed = min.midpoint(max);
        Zoom { min, max, radius, true_radius: radius, saved_radius: None }
    }

    /// One scroll input: the radius moves against `delta` by a tenth of
    /// itself per unit of scroll and of sensitivity, and stays within the
    /// bounds. Unless a radius is saved, the new radius is the new baseline
    /// too.
    pub fn apply_scroll(&mut self, delta: Fixed, sensitivity: Fixed)
        ensures
            *final(self) == old(self).scrolled(delta, sensitivity),
            old(self).bounds_ordered() ==> final(self).in_bounds(),
            old(self).saved_radius is None ==> final(self).true_radius == final(self).radius,
    {
        let tenth: Fixed = Fixed { micros: SCROLL_STEP };
        let step: Fixed = delta.times(self.radius).times(tenth).times(sensitivity);
        self.radius = self.radius.minus(step).clamp(self.min, self.max);
        if self.saved_radius.is_none() {
            self.true_radius = self.radius;
        }
    }
}

/// The sum of the scroll inputs of one tick, taken in order and saturated at
/// each step.
pub open spec fn total_scroll(wheel: Seq<Fixed>) -> Fixed
    decreases wheel.len(),
{
    if wheel.len() == 0 {
        Fixed::zero()
    } else {
        total_scroll(wheel.drop_last()).plus(wheel.last())
    }
}

/// The camera after the scroll inputs `wheel` of one tick.
pub open spec fn zoomed(cam: ThirdPersonCamera, wheel: Seq<Fixed>) -> ThirdPersonCamera {
    if total_scroll(wheel).is_zero() {
        cam
    } else {
        ThirdPersonCamera {
            zoom: cam.zoom.scrolled(total_scroll(wheel), cam.zoom_sensitivity),
            ..cam
        }
    }
}

/// Zooms by the scroll inputs of one tick: their sum is applied as one
/// scroll, at the camera's zoom sensitivity. A sum of zero changes nothing.
pub fn zoom_mouse(cam: &mut ThirdPersonCamera, wheel: &[Fixed])
    ensures
        *final(cam) == zoomed(*old(cam), wheel@),
        old(cam).zoom.bounds_ordered() && !total_scroll(wheel@).is_zero()
            ==> final(cam).zoom.in_bounds(),
{
    let mut scroll: Fixed = Fixed { micros: 0 };
    let mut i: usize = 0;
    while i < wheel.len()
        invariant
            i <= wheel.len(),
            scroll == total_scroll(wheel@.take(i as int)),
        decreases wheel.len() - i,
    {
        proof {
            assert(wheel@.take(i + 1).drop_last() =~= wheel@.take(i as int));
        }
        scroll = scroll.plus(wheel[i]);
        i += 1;
    }
    proof {
        assert(wheel@.take(wheel.len() as int) =~= wheel@);
    }
    if !scroll.is_zero() {
        cam.zoom.apply_scroll(scroll, cam.zoom_sensitivity);
    }
}

} // verus!
