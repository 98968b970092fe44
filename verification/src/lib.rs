//! Helpers for building tick-driven games.
//!
//! The heart of the crate is a small phase-lifecycle controller: an
//! application declares a closed set of phases (small integer identifiers),
//! registers ordered enter/update/exit actions for each phase in a
//! [`hooks::HookTable`], and lets a [`controller::PhaseController`] decide,
//! once per frame, whether to run a phase transition or the current phase's
//! update actions. Scene objects carry lifecycle tags so that everything a
//! phase created can be swept away when the phase is left.
//!
//! Around that core the crate offers a reusable menu overlay bound to two
//! phases at once ([`framework::GameStatePlugin`]), an asset list builder
//! ([`assets::AssetManager`]), a seedable random number generator
//! ([`random::RandomNumberGenerator`]), and the pure decision rules of the
//! two demonstration games ([`dice`] and [`wall`]).

pub mod assets;
pub mod controller;
pub mod dice;
pub mod framework;
pub mod hooks;
pub mod laws;
pub mod model;
pub mod random;
pub mod scene;
pub mod wall;
