//! The App Handler of a host process launcher: the single authority that owns
//! the registry of managed applications and the lists of observers, and that
//! turns each command into a new state and a list of effects for the loop
//! around it to carry out.

pub mod errors;
pub mod events;
pub mod handler;
pub mod identity;
pub mod naming;
pub mod observer;
pub mod registry;
