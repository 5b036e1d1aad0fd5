//! A third-person camera rig: orbit, zoom, aim, shoulder offset and focus
//! displacement, computed on decimal fixed-point numbers.
//!
//! The rig holds one camera's settings and state in a [`ThirdPersonCamera`]
//! and its rotation in an [`Orientation`]. The host owns both and steps them
//! once per tick, in this order:
//!
//! 1. [`sync_true_focus`] moves the tracked point with the target;
//! 2. [`modify_focus`] moves the focus for the polar angle at which the
//!    camera stood after the tick before;
//! 3. [`orbit_mouse`] and [`orbit_gamepad`] turn the camera;
//! 4. [`zoom_mouse`] and [`aim`] set the radius;
//! 5. [`toggle_x_offset`] slides the shoulder offset;
//! 6. [`camera_pose`] tells where the camera stands.
//!
//! Each step runs only where its condition holds ([`orbit_condition`],
//! [`zoom_condition`], [`aim_condition`], [`toggle_x_offset_condition`]);
//! [`toggle_cursor`] may run at any point of the tick where
//! [`toggle_cursor_condition`] holds.
//!
//! Every number is a [`Fixed`]. What takes a square root, a sine or an
//! arccosine is left to the host: it measures the polar angle and the ground
//! direction that [`modify_focus`] takes, and turns the arm of the
//! [`CameraPose`] by its orientation.

pub mod fixed;
pub mod angle;
pub mod vector;
pub mod zoom;
pub mod offset;
pub mod focus;
pub mod camera;
pub mod aim;
pub mod orbit;

pub use crate::aim::{aim, AimPhase, AimTick};
pub use crate::camera::{
    aim_condition, orbit_condition, sync_true_focus, toggle_cursor, toggle_cursor_condition,
    toggle_x_offset_condition, zoom_condition, CursorMode, CustomGamepadSettings,
    ThirdPersonCamera,
};
pub use crate::fixed::Fixed;
pub use crate::focus::{displace_focus, modify_focus, CameraFocusModifier, FocusZone};
pub use crate::offset::{toggle_x_offset, Offset, OffsetTick};
pub use crate::orbit::{
    camera_pose, orbit_gamepad, orbit_mouse, CameraPose, OrbitInput, Orientation, Viewport,
};
pub use crate::vector::{Vec2, Vec3};
pub use crate::zoom::{zoom_mouse, Zoom};
