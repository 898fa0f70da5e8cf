//! Input-to-motion core for a small 3D interactive scene.
//!
//! The crate covers the orientation and motion integration subsystem of a
//! first-person/orbit controller: a cursor-capture gate, a mouse-look
//! integrator that accumulates pointer motion into a clamped, gimbal-safe
//! orientation, and planar movement controllers that turn held keys into
//! world-space displacement.
//!
//! All state is kept in fixed-point integers so that every update is exact
//! and provable:
//! - angles are signed microradians (`1_000_000` per radian);
//! - vector components and quaternion components carry a `1_000_000` scale
//!   (`fixed::FX_ONE`), so a unit vector has length about `FX_ONE`;
//! - half-angle cosine/sine pairs fed to [`quat::orientation_quat`] carry a
//!   `1_000` scale (`fixed::TRIG_ONE`), whose square is `FX_ONE`.
//!
//! The host environment (window, input devices, clock, renderer) is a
//! collaborator: each tick it hands the library plain values (pointer deltas,
//! held key codes, a time slice, trigonometric pairs for the current angles)
//! and applies the updated poses. The intended order of the update calls
//! within one tick is: capture gate, then the orientation integrator, then
//! each planar motion controller, since the controllers read the rotation the
//! integrator wrote.

pub mod fixed;
pub mod gate;
pub mod look;
pub mod motion;
pub mod quat;
pub mod scene;
pub mod vec3;
