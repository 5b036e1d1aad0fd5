//! The shoulder offset: a lateral shift that slides between the right
//! shoulder and the left one.

use vstd::prelude::*;
use crate::camera::ThirdPersonCamera;
use crate::fixed::Fixed;

verus! {

/// The camera's offset from the line behind the target.
///
/// `offset` is the offset in use: `.0` sideways, `.1` upward. `original` is
/// the offset the camera was made with; its sideways part bounds the slide on
/// both sides. `transitioning` tells the direction of the slide: toward the
/// negative bound while set, toward the positive one while clear.
#[derive(Clone, Copy, Debug, PartialEq, Eq)]
pub struct Offset {
    pub offset: (Fixed, Fixed),
    pub original: (Fixed, Fixed),
    pub transitioning: bool,
}

impl Offset {
    /// The sideways offset lies between the original and its mirror image.
    pub open spec fn within_original(self) -> bool {
        -self.original.0.micros <= self.offset.0.micros <= self.original.0.micros
    }

    /// The state with the direction of the slide reversed.
    pub open spec fn toggled(self) -> Offset {
        Offset { transitioning: !self.transitioning, ..self }
    }

    /// The signed speed of the slide.
    pub open spec fn slide_speed(self, speed: Fixed) -> Fixed {
        if self.transitioning {
            speed.negated()
        } else {
            speed
        }
    }

    /// The state after sliding for `dt` at `speed`.
    pub open spec fn slid(self, speed: Fixed, dt: Fixed) -> Offset {
        Offset {
            offset: (
                self.offset.0.plus(self.slide_speed(speed).times(dt)).clamp(
                    self.original.0.negated(),
                    self.original.0,
                ),
                self.offset.1,
            ),
            ..self
        }
    }

    /// An offset of `x` sideways and `y` upward, at rest on the side it was
    /// given.
    pub fn new(x: Fixed, y: Fixed) -> (offset: Offset)
        ensures
            offset == (Offset { offset: (x, y), original: (x, y), transitioning: false }),
            x.micros >= 0 ==> offset.within_original(),
    {
        Offset { offset: (x, y), original: (x, y), transitioning: false }
    }

    /// Reverses the direction of the slide.
    pub fn toggle(&mut self)
        ensures
            *final(self) == old(self).toggled(),
    {
        self.transitioning = !self.transitioning;
    }

    /// Slides sideways for `dt` at `speed`, stopping at the bound.
    pub fn slide(&mut self, speed: Fixed, dt: Fixed)
        ensures
            *final(self) == old(self).slid(speed, dt),
            old(self).original.0.micros >= 0 ==> final(self).within_original(),
    {
        let signed_speed: Fixed = if self.transitioning {
            speed.negated()
        } else {
            speed
        };
        let low: Fixed = self.original.0.negated();
        let high: Fixed = self.original.0;
        let x: Fixed = self.offset.0.plus(signed_speed.times(dt)).clamp(low, high);
        self.offset = (x, self.offset.1);
    }
}

/// One tick of the offset toggle: whether the toggle was pressed, the speed
/// of the slide, and the time since the tick before.
#[derive(Clone, Copy, Debug, PartialEq, Eq)]
pub struct OffsetTick {
    pub toggle_pressed: bool,
    pub speed: Fixed,
    pub dt: Fixed,
}

impl Offset {
    /// The state after one tick.
    pub open spec fn ticked(self, tick: OffsetTick) -> Offset {
        if tick.toggle_pressed {
            self.toggled().slid(tick.speed, tick.dt)
        } else {
            self.slid(tick.speed, tick.dt)
        }
    }

    /// The state after the ticks `ticks`, in order.
    pub open spec fn run(self, ticks: Seq<OffsetTick>) -> Offset
        decreases ticks.len(),
    {
        if ticks.len() == 0 {
            self
        } else {
            self.run(ticks.drop_last()).ticked(ticks.last())
        }
    }

    /// The sideways offset never leaves the band between the original offset
    /// and its mirror image: whatever the toggles, speeds and time steps,
    /// after every tick it lies within, and the original and the upward
    /// offset are as they were.
    pub proof fn lemma_offset_stays_within(self, ticks: Seq<OffsetTick>)
        requires
            self.original.0.micros >= 0,
        ensures
            self.run(ticks).original == self.original,
            self.run(ticks).offset.1 == self.offset.1,
            ticks.len() > 0 || self.within_original() ==> self.run(ticks).within_original(),
        decreases ticks.len(),
    {
        if ticks.len() > 0 {
            self.lemma_offset_stays_within(ticks.drop_last());
        }
    }
}

/// The camera after one tick of the offset toggle.
pub open spec fn offset_toggled(
    cam: ThirdPersonCamera,
    toggle_pressed: bool,
    dt: Fixed,
) -> ThirdPersonCamera {
    let turned = if toggle_pressed {
        cam.offset.toggled()
    } else {
        cam.offset
    };
    ThirdPersonCamera { offset: turned.slid(cam.offset_toggle_speed, dt), ..cam }
}

/// One tick of the offset toggle, `dt` after the last: a press of the toggle
/// reverses the slide, and the offset slides on at the camera's toggle
/// speed.
pub fn toggle_x_offset(cam: &mut ThirdPersonCamera, toggle_pressed: bool, dt: Fixed)
    ensures
        *final(cam) == offset_toggled(*old(cam), toggle_pressed, dt),
        old(cam).offset.original.0.micros >= 0 ==> final(cam).offset.within_original(),
{
    if toggle_pressed {
        cam.offset.toggle();
    }
    cam.offset.slide(cam.offset_toggle_speed, dt);
}

} // verus!
