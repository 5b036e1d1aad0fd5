//! The camera's settings and state, and the per-tick rules that read only
//! its flags.

use vstd::prelude::*;
use crate::fixed::Fixed;
use crate::focus::CameraFocusModifier;
use crate::offset::Offset;
use crate::vector::Vec3;
use crate::zoom::Zoom;

verus! {

/// How strongly the two stick axes of a gamepad turn the camera.
#[derive(Clone, Copy, Debug, PartialEq, Eq)]
pub struct CustomGamepadSettings {
    pub x_sensitivity: Fixed,
    pub y_sensitivity: Fixed,
}

/// The settings and state of one third-person camera.
///
/// `true_focus` is the point tracked on the target. `focus` is the point the
/// camera looks at: the true focus, moved by the focus displacement.
#[derive(Clone, Copy, Debug, PartialEq, Eq)]
pub struct ThirdPersonCamera {
    pub aim_enabled: bool,
    pub aim_speed: Fixed,
    pub aim_zoom: Fixed,
    pub cursor_lock_toggle_enabled: bool,
    pub cursor_lock_active: bool,
    pub true_focus: Vec3,
    pub focus: Vec3,
    pub focus_modifier: CameraFocusModifier,
    pub gamepad_settings: CustomGamepadSettings,
    pub mouse_sensitivity: Fixed,
    pub mouse_orbit_button_enabled: bool,
    pub offset_enabled: bool,
    pub offset: Offset,
    pub offset_toggle_enabled: bool,
    pub offset_toggle_speed: Fixed,
    pub zoom_enabled: bool,
    pub zoom: Zoom,
    pub zoom_sensitivity: Fixed,
}

/// How far above the target's position the tracked point lies, in
/// millionths.
pub const FOCUS_HEIGHT: i64 = 810_000;

/// What is to become of the pointer.
#[derive(Clone, Copy, Debug, PartialEq, Eq)]
pub enum CursorMode {
    /// Held in the window and hidden.
    Locked,
    /// Released and visible.
    Free,
}

impl CustomGamepadSettings {
    /// Seven for the horizontal axis and four for the vertical one.
    pub fn new() -> (settings: CustomGamepadSettings)
        ensures
            settings == (CustomGamepadSettings {
                x_sensitivity: Fixed { micros: 7_000_000 },
                y_sensitivity: Fixed { micros: 4_000_000 },
            }),
    {
        CustomGamepadSettings {
            x_sensitivity: Fixed { micros: 7_000_000 },
            y_sensitivity: Fixed { micros: 4_000_000 },
        }
    }
}

impl Default for CustomGamepadSettings {
    fn default() -> (settings: CustomGamepadSettings)
        ensures
            settings == (CustomGamepadSettings {
                x_sensitivity: Fixed { micros: 7_000_000 },
                y_sensitivity: Fixed { micros: 4_000_000 },
            }),
    {
        CustomGamepadSettings::new()
    }
}

impl ThirdPersonCamera {
    /// The camera as it is made where nothing is said: zoom enabled between
    /// 1.5 and 3, the pointer locked, aim and offset disabled.
    pub open spec fn initial() -> ThirdPersonCamera {
        ThirdPersonCamera {
            aim_enabled: false,
            aim_speed: Fixed { micros: 3_000_000 },
            aim_zoom: Fixed { micros: 700_000 },
            cursor_lock_toggle_enabled: true,
            cursor_lock_active: true,
            true_focus: Vec3 { x: Fixed::zero(), y: Fixed::zero(), z: Fixed::zero() },
            focus: Vec3 { x: Fixed::zero(), y: Fixed::zero(), z: Fixed::zero() },
            focus_modifier: CameraFocusModifier {
                max_forward_displacement: Fixed::zero(),
                max_backward_displacement: Fixed::zero(),
                upper_threshold: Fixed { micros: crate::angle::PI },
                lower_threshold: Fixed::zero(),
                behind_radius_displacement: None,
            },
            gamepad_settings: CustomGamepadSettings {
                x_sensitivity: Fixed { micros: 7_000_000 },
                y_sensitivity: Fixed { micros: 4_000_000 },
            },
            mouse_sensitivity: Fixed { micros: 1_000_000 },
            mouse_orbit_button_enabled: false,
            offset_enabled: false,
            offset: Offset {
                offset: (Fixed { micros: 500_000 }, Fixed { micros: 400_000 }),
                original: (Fixed { micros: 500_000 }, Fixed { micros: 400_000 }),
                transitioning: false,
            },
            offset_toggle_enabled: false,
            offset_toggle_speed: Fixed { micros: 5_000_000 },
            zoom_enabled: true,
            zoom: Zoom {
                min: Fixed { micros: 1_500_000 },
                max: Fixed { micros: 3_000_000 },
                radius: Fixed { micros: 2_250_000 },
                true_radius: Fixed { micros: 2_250_000 },
                saved_radius: None,
            },
            zoom_sensitivity: Fixed { micros: 1_000_000 },
        }
    }

    /// The settings are in order: the zoom bounds, the thresholds of the
    /// focus displacement on their sides of the level angle, and a sideways
    /// offset that is not negative.
    pub open spec fn well_formed(self) -> bool {
        &&& self.zoom.bounds_ordered()
        &&& self.focus_modifier.thresholds_ordered()
        &&& self.offset.original.0.micros >= 0
    }

    /// The camera after its tracked point has followed the target: to
    /// `FOCUS_HEIGHT` above the target's position, or nowhere where there is
    /// no target.
    pub open spec fn synced(self, target: Option<Vec3>) -> ThirdPersonCamera {
        match target {
            Some(target) => ThirdPersonCamera {
                true_focus: Vec3 {
                    x: target.x,
                    y: target.y.plus(Fixed { micros: FOCUS_HEIGHT }),
                    z: target.z,
                },
                ..self
            },
            None => self,
        }
    }

    /// The camera after the cursor-lock key was pressed or not.
    pub open spec fn cursor_toggled(self, key_pressed: bool) -> ThirdPersonCamera {
        ThirdPersonCamera { cursor_lock_active: self.cursor_lock_active != key_pressed, ..self }
    }

    /// The pointer mode that goes with the camera's cursor lock.
    pub open spec fn cursor_mode(self) -> CursorMode {
        if self.cursor_lock_active {
            CursorMode::Locked
        } else {
            CursorMode::Free
        }
    }
}

impl ThirdPersonCamera {
    /// Whether the settings are in order.
    pub fn is_well_formed(&self) -> (r: bool)
        ensures
            r == self.well_formed(),
    {
        self.zoom.min.micros <= self.zoom.max.micros && self.focus_modifier.lower_threshold.micros
            < crate::angle::HALF_PI && crate::angle::HALF_PI
            < self.focus_modifier.upper_threshold.micros && self.offset.original.0.micros >= 0
    }
}

impl Default for ThirdPersonCamera {
    fn default() -> (cam: ThirdPersonCamera)
        ensures
            cam == ThirdPersonCamera::initial(),
            cam.well_formed(),
    {
        let zero: Fixed = Fixed { micros: 0 };
        ThirdPersonCamera {
            aim_enabled: false,
            aim_speed: Fixed { micros: 3_000_000 },
            aim_zoom: Fixed { micros: 700_000 },
            cursor_lock_toggle_enabled: true,
            cursor_lock_active: true,
            true_focus: Vec3 { x: zero, y: zero, z: zero },
            focus: Vec3 { x: zero, y: zero, z: zero },
            focus_modifier: CameraFocusModifier::new(),
            gamepad_settings: CustomGamepadSettings::new(),
            mouse_sensitivity: Fixed { micros: 1_000_000 },
            mouse_orbit_button_enabled: false,
            offset_enabled: false,
            offset: Offset::new(Fixed { micros: 500_000 }, Fixed { micros: 400_000 }),
            offset_toggle_enabled: false,
            offset_toggle_speed: Fixed { micros: 5_000_000 },
            zoom_enabled: true,
            zoom: Zoom::new(Fixed { micros: 1_500_000 }, Fixed { micros: 3_000_000 }),
            zoom_sensitivity: Fixed { micros: 1_000_000 },
        }
    }
}

/// Moves the camera's tracked point with the target: to `FOCUS_HEIGHT` above
/// the target's position. Without a target nothing changes. The focus
/// follows at the next focus displacement.
pub fn sync_true_focus(cam: &mut ThirdPersonCamera, target: Option<Vec3>)
    ensures
        *final(cam) == old(cam).synced(target),
{
    if let Some(target) = target {
        cam.true_focus = Vec3 {
            x: target.x,
            y: target.y.plus(Fixed { micros: FOCUS_HEIGHT }),
            z: target.z,
        };
    }
}

/// Whether aiming runs: with a camera whose aim is enabled.
pub fn aim_condition(cam: Option<&ThirdPersonCamera>) -> (run: bool)
    ensures
        run == (cam matches Some(cam) && cam.aim_enabled),
{
    match cam {
        Some(cam) => cam.aim_enabled,
        None => false,
    }
}

/// Whether scroll zooms: with a camera whose zoom is enabled and whose
/// cursor lock is active.
pub fn zoom_condition(cam: Option<&ThirdPersonCamera>) -> (run: bool)
    ensures
        run == (cam matches Some(cam) && cam.zoom_enabled && cam.cursor_lock_active),
{
    match cam {
        Some(cam) => cam.zoom_enabled && cam.cursor_lock_active,
        None => false,
    }
}

/// Whether the offset toggle runs: with a camera whose offset toggle is
/// enabled.
pub fn toggle_x_offset_condition(cam: Option<&ThirdPersonCamera>) -> (run: bool)
    ensures
        run == (cam matches Some(cam) && cam.offset_toggle_enabled),
{
    match cam {
        Some(cam) => cam.offset_toggle_enabled,
        None => false,
    }
}

/// Whether the cursor-lock toggle runs: without a camera, or with one whose
/// cursor-lock toggle is enabled.
pub fn toggle_cursor_condition(cam: Option<&ThirdPersonCamera>) -> (run: bool)
    ensures
        run == (cam matches Some(cam) ==> cam.cursor_lock_toggle_enabled),
{
    match cam {
        Some(cam) => cam.cursor_lock_toggle_enabled,
        None => true,
    }
}

/// Whether pointer motion orbits: without a camera, or with one whose cursor
/// lock is active.
pub fn orbit_condition(cam: Option<&ThirdPersonCamera>) -> (run: bool)
    ensures
        run == (cam matches Some(cam) ==> cam.cursor_lock_active),
{
    match cam {
        Some(cam) => cam.cursor_lock_active,
        None => true,
    }
}

/// Flips the cursor lock where its key was pressed, and tells what is to
/// become of the pointer. Without a window nothing changes and nothing is
/// told.
pub fn toggle_cursor(
    cam: &mut ThirdPersonCamera,
    key_pressed: bool,
    window_present: bool,
) -> (mode: Option<CursorMode>)
    ensures
        window_present ==> *final(cam) == old(cam).cursor_toggled(key_pressed) && mode == Some(
            final(cam).cursor_mode(),
        ),
        !window_present ==> *final(cam) == *old(cam) && mode is None,
{
    if !window_present {
        return None;
    }
    if key_pressed {
        cam.cursor_lock_active = !cam.cursor_lock_active;
    }
    if cam.cursor_lock_active {
        Some(CursorMode::Locked)
    } else {
        Some(CursorMode::Free)
    }
}

} // verus!
