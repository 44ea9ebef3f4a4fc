//! A single controllable entity moving inside a bounded two-dimensional arena.
//!
//! Key presses are translated into an [`action::ActionCode`], held in a
//! single-slot mailbox on the [`game::Game`], and applied to the
//! [`entity::Player`] once per tick. Coordinates are fixed-point integers.

pub mod action;
pub mod entity;
pub mod game;
pub mod render;
