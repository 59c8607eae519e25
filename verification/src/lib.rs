//! A character controller for rigid bodies, verified.
//!
//! Once per tick the controller turns what is asked of it (a direction to move in, a jump)
//! into a force and a torque on a dynamic rigid body: it finds the ground under the body,
//! decides whether the body stands on it, holds the body above it with a spring, moves it,
//! lets it jump, keeps it upright, and hands the reaction on to the ground.
//! [`controller::resolve`] runs one such tick; the physics engine answers through
//! [`query::PhysicsBackend`].
//!
//! Every quantity is a fixed-point number ([`fixed::Fixed`], millionths) whose arithmetic
//! saturates and rounds toward zero, so that every function is total and its result is
//! stated exactly.

pub mod controller;
pub mod fixed;
pub mod physics;
pub mod query;
pub mod spring;
pub mod tweaks;
pub mod vec3;

pub use crate::controller::casting::{GroundCastParams, ShapeOutcome};
pub use crate::controller::gravity::{gravity_force, Gravity, GravityForce};
pub use crate::controller::ground::{
    determine_groundedness, find_ground, settle_ground, CastResult, Ground, GroundCache,
    GroundCast, GroundCaster, GroundForce, Grounded, ViableGroundCast, FUDGE,
};
pub use crate::controller::input::ControllerInput;
pub use crate::controller::jump::{jump_force, DecayCurve, Jump, JumpForce};
pub use crate::controller::movement::{movement_force, ForceScale, Movement, MovementForce};
pub use crate::controller::orientation::{
    float_force, upright_force, Float, FloatForce, Upright, UprightForce,
};
pub use crate::controller::parts::Parts;
pub use crate::controller::{
    accumulate_forces, apply_ground_forces, resolve, Controller, ForceOutput, ForceSettings,
};
pub use crate::fixed::Fixed;
pub use crate::physics::{
    apply_forces, BodyState, ControllerForce, ControllerMass, ControllerPhysicsBundle,
    ControllerVelocity, ExternalImpulse, PhysicsDeltaTime,
};
pub use crate::query::{
    Entity, ExcludedSet, PhysicsBackend, QueryFilter, RayCastResult, ShapeCastResult,
};
pub use crate::spring::{Spring, SpringStrength, Strength};
pub use crate::tweaks::WanderlustPhysicsTweaks;
pub use crate::vec3::Vec3;
