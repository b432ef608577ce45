//! A work/break timer whose phase changes can be signalled on networked lights.
//!
//! The library holds the decisions: the colour arithmetic of the light
//! commands, the validation of the settings, the step function of the
//! work/break cycle and the order in which lights are addressed. Sleeping,
//! printing and talking to the bridge are left to the caller.

pub mod color;
pub mod cycle;
pub mod lights;
pub mod settings;
