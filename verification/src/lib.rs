//! A sandboxed, script-driven data-sampling engine.
//!
//! A puzzle is a small guest script that is loaded once into a restricted
//! scripting context and then stepped repeatedly.  During each step the guest
//! declares typed, bounds-checked values on named channels through an injected
//! callback; the host validates every declaration and collects the accepted
//! channels into one [`domain::Sample`] per step.

pub mod domain;
pub mod marshal;
pub mod registry;
pub mod puzzle;
