//! A minimal, generic driver for structuring an application's top-level control
//! flow as a sequence of mutually-exclusive states sharing one long-lived
//! context.
//!
//! A [`GameManager`] owns the shared context and exactly one active state.  An
//! external loop repeatedly asks the manager to perform one [`GameManager::pass`];
//! the manager delegates to the active state, interprets the returned
//! [`GameStateUpdateResult`], and replaces or retires the active state
//! accordingly.  The transition protocol itself — how the next state is
//! constructed, and how cleanup is sequenced across a transition — is specified
//! and verified in [`protocol`].

pub mod manager;
pub mod protocol;
pub mod state;

pub use manager::GameManager;
pub use state::GameState;
pub use state::GameStateUpdateResult;
