//! The state capability contract: what a manager requires of a state.

use vstd::prelude::*;

verus! {

/// A result of a manager's active state's pass.
///
/// The type parameter is the state type's constructor vocabulary: the value
/// carried by `ChangeState` names which state to build next.
pub enum GameStateUpdateResult<T> {
    /// Instructs the calling manager to continue using the active state in the
    /// next pass.
    Continue,
    /// Instructs the calling manager to terminate the active state and
    /// construct a new state to be set as active.
    ChangeState(T),
    /// Instructs the calling manager to terminate the active state and
    /// deactivate.
    Quit,
}

/// Methods for an active game state to be called by a game state manager.
///
/// `C` is the caller-supplied context shared across all states.  Implementors
/// choose a closed vocabulary of constructors, `StateConstructor`, and make
/// `construct` the only way a state is produced: the manager never clones,
/// copies, or rehydrates a state from elsewhere.
pub trait GameState<C>: Sized {
    /// A stateless description of how to build a state: a tag that
    /// `construct` turns into a freshly built state.
    type StateConstructor;

    /// Builds a new state from the given constructor and the current context,
    /// or reports a human-readable error message.
    fn construct(constructor: Self::StateConstructor, context: &mut C) -> Result<Self, String>;

    /// Updates the game world and renders the game.  Called in a main loop
    /// pass; yields exactly one transition decision.
    fn update_and_draw(&mut self, context: &mut C) -> GameStateUpdateResult<Self::StateConstructor>;

    /// Called when the state is going to be deactivated (and possibly
    /// disposed).  Here, resources outside ordinary ownership release (e.g.
    /// handles into an external system) should be freed, as this is the
    /// state's last chance to do so.
    fn terminate(&mut self, context: &mut C);
}

} // verus!
