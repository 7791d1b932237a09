//! Gameplay logic of a small 3D prototype: a player capsule moving on a
//! ground plane among randomly scattered trees, driven by a host engine that
//! polls input, integrates physics and renders. The engine-facing glue lives
//! outside this crate; here stand the decisions each system makes every
//! frame, over a millimetre-resolution fixed-point model of the world.

pub mod camera;
pub mod player;
pub mod scene;
pub mod spawner;
pub mod timer;
