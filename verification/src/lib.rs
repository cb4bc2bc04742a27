//! The discrete core of an n-body orbital sandbox: the kinds of bodies and
//! placement modes, which bodies each placement adds, the control panel's
//! state machine and key bindings, the bounded position trail each body
//! leaves, the pairing of touching bodies into collisions, and the order
//! of contact tests in the merge-only pass. The continuous physics
//! (positions, forces, energies) is floating point and lives with the
//! renderer.

pub mod kinds;
pub mod controls;
pub mod collisions;
pub mod trail;
pub mod placement;
pub mod merging;
