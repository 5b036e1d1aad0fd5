//! The orbit model: pointer and stick input turn the camera about its focus,
//! and the camera never passes over a pole.

use vstd::prelude::*;
use crate::angle::{wrapped, HALF_PI, PI};
use crate::camera::ThirdPersonCamera;
use crate::fixed::Fixed;
use crate::vector::{Vec2, Vec3};

verus! {

/// How far a stick axis must be pushed, in millionths of its travel, before
/// the stick turns the camera.
pub const STICK_DEAD_ZONE: i64 = 500_000;

/// The camera's rotation: `yaw` about the world's up axis, then `pitch` about
/// the camera's own sideways axis, both in radians.
///
/// The vertical component of the camera's up vector is the cosine of the
/// pitch.
#[derive(Clone, Copy, Debug, PartialEq, Eq)]
pub struct Orientation {
    pub yaw: Fixed,
    pub pitch: Fixed,
}

/// The size of the surface that pointer motion is measured on.
#[derive(Clone, Copy, Debug, PartialEq, Eq)]
pub struct Viewport {
    pub width: Fixed,
    pub height: Fixed,
}

/// Where the camera stands: at `focus`, moved by `arm` after turning `arm`
/// by `orientation`.
#[derive(Clone, Copy, Debug, PartialEq, Eq)]
pub struct CameraPose {
    pub orientation: Orientation,
    pub focus: Vec3,
    pub arm: Vec3,
}

/// The angle swept by `travel` across a surface `extent` wide, half a turn
/// for the whole extent, against the direction of travel.
pub open spec fn swept(travel: Fixed, extent: Fixed) -> Fixed {
    travel.mul_div(Fixed { micros: PI }, extent).negated()
}

/// The stick position that counts: the position itself once either axis is
/// pushed past the dead zone, else the centre.
pub open spec fn past_dead_zone(stick: Vec2) -> Vec2 {
    if stick.x.micros > STICK_DEAD_ZONE || stick.x.micros < -STICK_DEAD_ZONE || stick.y.micros
        > STICK_DEAD_ZONE || stick.y.micros < -STICK_DEAD_ZONE {
        stick
    } else {
        Vec2 { x: Fixed::zero(), y: Fixed::zero() }
    }
}

/// The sum of the pointer motions of one tick, taken in order and saturated
/// at each step. No motion where there is none.
pub open spec fn total_motion(motion: Seq<Vec2>) -> Vec2
    decreases motion.len(),
{
    if motion.len() == 0 {
        Vec2 { x: Fixed::zero(), y: Fixed::zero() }
    } else {
        total_motion(motion.drop_last()).plus(motion.last())
    }
}

impl Orientation {
    /// The camera's up vector points upward: the pitch lies strictly between
    /// the poles, where its cosine, the vertical component of the up vector,
    /// is positive.
    pub open spec fn upright(self) -> bool {
        -HALF_PI < self.pitch.micros < HALF_PI
    }

    /// The orientation after turning by `yaw_delta`, and by `pitch_delta`
    /// where that leaves the camera upright.
    pub open spec fn turned(self, yaw_delta: Fixed, pitch_delta: Fixed) -> Orientation {
        let candidate = Orientation {
            yaw: wrapped(self.yaw.plus(yaw_delta)),
            pitch: wrapped(self.pitch.plus(pitch_delta)),
        };
        if candidate.upright() {
            candidate
        } else {
            Orientation { pitch: self.pitch, ..candidate }
        }
    }

    /// The orientation after the rotation input `rotation`, measured on
    /// `viewport`. No input leaves it as it is.
    pub open spec fn orbited(self, rotation: Vec2, viewport: Viewport) -> Orientation {
        if rotation.is_zero() {
            self
        } else {
            self.turned(swept(rotation.x, viewport.width), swept(rotation.y, viewport.height))
        }
    }

    /// The orientation of the given yaw and pitch.
    pub fn new(yaw: Fixed, pitch: Fixed) -> (r: Orientation)
        ensures
            r == (Orientation { yaw, pitch }),
    {
        Orientation { yaw, pitch }
    }

    /// Turns by `yaw_delta` about the world's up axis, then by `pitch_delta`
    /// about the camera's sideways axis. The pitch is taken only where the
    /// camera's up vector still points upward after it.
    pub fn turn(&mut self, yaw_delta: Fixed, pitch_delta: Fixed)
        ensures
            *final(self) == old(self).turned(yaw_delta, pitch_delta),
            final(self).pitch != old(self).pitch ==> final(self).upright(),
            old(self).upright() ==> final(self).upright(),
    {
        self.yaw = wrapped(self.yaw.plus(yaw_delta));
        let pitch: Fixed = wrapped(self.pitch.plus(pitch_delta));
        if -HALF_PI < pitch.micros && pitch.micros < HALF_PI {
            self.pitch = pitch;
        }
    }

    /// Applies one rotation input, measured on `viewport`: the whole width
    /// turns the camera half a turn about the world's up axis, the whole
    /// height half a turn in pitch, both against the input.
    pub fn orbit(&mut self, rotation: Vec2, viewport: Viewport)
        ensures
            *final(self) == old(self).orbited(rotation, viewport),
            final(self).pitch != old(self).pitch ==> final(self).upright(),
            old(self).upright() ==> final(self).upright(),
    {
        if !rotation.is_zero() {
            let pi: Fixed = Fixed { micros: PI };
            let yaw_delta: Fixed = rotation.x.mul_div(pi, viewport.width).negated();
            let pitch_delta: Fixed = rotation.y.mul_div(pi, viewport.height).negated();
            self.turn(yaw_delta, pitch_delta);
        }
    }
}

/// One rotation input and the viewport it was measured on.
#[derive(Clone, Copy, Debug, PartialEq, Eq)]
pub struct OrbitInput {
    pub rotation: Vec2,
    pub viewport: Viewport,
}

impl Orientation {
    /// The orientation after the inputs `inputs`, in order.
    pub open spec fn orbit_run(self, inputs: Seq<OrbitInput>) -> Orientation
        decreases inputs.len(),
    {
        if inputs.len() == 0 {
            self
        } else {
            self.orbit_run(inputs.drop_last()).orbited(
                inputs.last().rotation,
                inputs.last().viewport,
            )
        }
    }

    /// Pole avoidance, one input: whatever the rotation input and the
    /// viewport, an upright camera stays upright, and a pitch that the input
    /// changed is an upright one.
    pub proof fn lemma_orbit_avoids_poles(self, rotation: Vec2, viewport: Viewport)
        ensures
            self.upright() ==> self.orbited(rotation, viewport).upright(),
            self.orbited(rotation, viewport).pitch != self.pitch ==> self.orbited(
                rotation,
                viewport,
            ).upright(),
    {
    }

    /// Pole avoidance, any inputs: an upright camera is upright after every
    /// sequence of rotation inputs.
    pub proof fn lemma_orbit_run_avoids_poles(self, inputs: Seq<OrbitInput>)
        requires
            self.upright(),
        ensures
            self.orbit_run(inputs).upright(),
        decreases inputs.len(),
    {
        if inputs.len() > 0 {
            self.lemma_orbit_run_avoids_poles(inputs.drop_last());
            self.orbit_run(inputs.drop_last()).lemma_orbit_avoids_poles(
                inputs.last().rotation,
                inputs.last().viewport,
            );
        }
    }
}

/// The pose of a camera with the given orientation: it looks at the focus
/// from the zoom radius behind it, moved by the shoulder offset while the
/// offset is enabled and the aim input is held.
pub open spec fn pose_of(
    cam: ThirdPersonCamera,
    orientation: Orientation,
    aim_held: bool,
) -> CameraPose {
    CameraPose {
        orientation,
        focus: cam.focus,
        arm: if cam.offset_enabled && aim_held {
            Vec3 { x: cam.offset.offset.0, y: cam.offset.offset.1, z: cam.zoom.radius }
        } else {
            Vec3 { x: Fixed::zero(), y: Fixed::zero(), z: cam.zoom.radius }
        },
    }
}

/// Whether an orbit input turns the camera this tick: not while an orbit
/// button is required and not held, nor while there is no viewport to
/// measure the rotation on.
pub open spec fn orbit_applies(
    cam: ThirdPersonCamera,
    viewport: Option<Viewport>,
    orbit_button_held: bool,
) -> bool {
    &&& !(cam.mouse_orbit_button_enabled && !orbit_button_held)
    &&& viewport is Some
}

/// The orientation after the rotation input `rotation` of one tick.
pub open spec fn orbit_result(
    cam: ThirdPersonCamera,
    orientation: Orientation,
    rotation: Vec2,
    viewport: Option<Viewport>,
    orbit_button_held: bool,
) -> Orientation {
    if orbit_applies(cam, viewport, orbit_button_held) {
        orientation.orbited(rotation, viewport->0)
    } else {
        orientation
    }
}

fn orbit_by(
    cam: &ThirdPersonCamera,
    orientation: &mut Orientation,
    rotation: Vec2,
    viewport: Option<Viewport>,
    orbit_button_held: bool,
)
    ensures
        *final(orientation) == orbit_result(
            *cam,
            *old(orientation),
            rotation,
            viewport,
            orbit_button_held,
        ),
        final(orientation).pitch != old(orientation).pitch ==> final(orientation).upright(),
        old(orientation).upright() ==> final(orientation).upright(),
{
    if cam.mouse_orbit_button_enabled && !orbit_button_held {
        return;
    }
    if let Some(viewport) = viewport {
        orientation.orbit(rotation, viewport);
    }
}

/// Orbits the camera by the pointer motion of one tick.
///
/// The motions of the tick add up, and their sum is scaled by the mouse
/// sensitivity.
/// Nothing turns while an orbit button is required and not held, nor without
/// a viewport.
pub fn orbit_mouse(
    cam: &ThirdPersonCamera,
    orientation: &mut Orientation,
    motion: &[Vec2],
    viewport: Option<Viewport>,
    orbit_button_held: bool,
)
    ensures
        *final(orientation) == orbit_result(
            *cam,
            *old(orientation),
            total_motion(motion@).scaled(cam.mouse_sensitivity),
            viewport,
            orbit_button_held,
        ),
        final(orientation).pitch != old(orientation).pitch ==> final(orientation).upright(),
        old(orientation).upright() ==> final(orientation).upright(),
{
    let mut total: Vec2 = Vec2 { x: Fixed { micros: 0 }, y: Fixed { micros: 0 } };
    let mut i: usize = 0;
    while i < motion.len()
        invariant
            i <= motion.len(),
            total == total_motion(motion@.take(i as int)),
        decreases motion.len() - i,
    {
        proof {
            assert(motion@.take(i + 1).drop_last() =~= motion@.take(i as int));
        }
        total = total.plus(motion[i]);
        i += 1;
    }
    proof {
        assert(motion@.take(motion.len() as int) =~= motion@);
    }
    let rotation: Vec2 = total.scaled(cam.mouse_sensitivity);
    orbit_by(cam, orientation, rotation, viewport, orbit_button_held);
}

/// The rotation input of a stick at `stick`: the position past the dead
/// zone, each axis scaled by its sensitivity.
pub open spec fn stick_rotation(cam: ThirdPersonCamera, stick: Vec2) -> Vec2 {
    Vec2 {
        x: past_dead_zone(stick).x.times(cam.gamepad_settings.x_sensitivity),
        y: past_dead_zone(stick).y.times(cam.gamepad_settings.y_sensitivity),
    }
}

/// Orbits the camera by the position of a gamepad stick.
///
/// The stick counts once either axis is past the dead zone, and then turns
/// the camera on every tick it is held there. Nothing turns while an orbit
/// button is required and not held, nor without a viewport.
pub fn orbit_gamepad(
    cam: &ThirdPersonCamera,
    orientation: &mut Orientation,
    stick: Vec2,
    viewport: Option<Viewport>,
    orbit_button_held: bool,
)
    ensures
        *final(orientation) == orbit_result(
            *cam,
            *old(orientation),
            stick_rotation(*cam, stick),
            viewport,
            orbit_button_held,
        ),
        final(orientation).pitch != old(orientation).pitch ==> final(orientation).upright(),
        old(orientation).upright() ==> final(orientation).upright(),
{
    let pushed: bool = stick.x.micros > STICK_DEAD_ZONE || stick.x.micros < -STICK_DEAD_ZONE
        || stick.y.micros > STICK_DEAD_ZONE || stick.y.micros < -STICK_DEAD_ZONE;
    let counted: Vec2 = if pushed {
        stick
    } else {
        Vec2 { x: Fixed { micros: 0 }, y: Fixed { micros: 0 } }
    };
    let rotation: Vec2 = Vec2 {
        x: counted.x.times(cam.gamepad_settings.x_sensitivity),
        y: counted.y.times(cam.gamepad_settings.y_sensitivity),
    };
    orbit_by(cam, orientation, rotation, viewport, orbit_button_held);
}

/// Where the camera stands at the end of a tick: it looks at the focus from
/// the zoom radius behind it, moved by the shoulder offset while the offset
/// is enabled and the aim input is held.
pub fn camera_pose(
    cam: &ThirdPersonCamera,
    orientation: Orientation,
    aim_held: bool,
) -> (pose: CameraPose)
    ensures
        pose == pose_of(*cam, orientation, aim_held),
{
    let arm: Vec3 = if cam.offset_enabled && aim_held {
        Vec3 { x: cam.offset.offset.0, y: cam.offset.offset.1, z: cam.zoom.radius }
    } else {
        Vec3 { x: Fixed { micros: 0 }, y: Fixed { micros: 0 }, z: cam.zoom.radius }
    };
    CameraPose { orientation, focus: cam.focus, arm }
}

} // verus!
