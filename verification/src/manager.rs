//! The game state manager: construction and the per-iteration pass.

use vstd::prelude::*;
use vstd::string::StringExecFns;

use crate::protocol::ManagerView;
use crate::protocol::StateLifecycleEvent;
use crate::protocol::cleanup_precedes_construction;
use crate::protocol::initial_failure_message;
use crate::protocol::pass_transition;
use crate::protocol::transition_failure_message;
use crate::state::GameState;
use crate::state::GameStateUpdateResult;

verus! {

/// A game state manager.
///
/// A game state manager holds the game's context (for use across states) and
/// the active game state.  It does not run the main loop itself; instead the
/// main loop is expected to invoke the manager's `pass` method whenever
/// considered appropriate (it is also up to the manager's user to handle any
/// timing duties like capping the frame rate).
pub struct GameManager<C, S: GameState<C>> {
    /// The game's context.
    context: C,
    /// The active state.
    active_state: S,
    /// Whether the manager is still active.
    is_active: bool,
    /// The lifecycle operations performed so far, for specification purposes.
    history: Ghost<Seq<StateLifecycleEvent>>,
}

impl<C, S: GameState<C>> View for GameManager<C, S> {
    type V = ManagerView<C, S>;

    closed spec fn view(&self) -> ManagerView<C, S> {
        ManagerView {
            context: self.context,
            active_state: self.active_state,
            is_active: self.is_active,
            history: self.history@,
        }
    }
}

/// Builds the message reporting a failed initial construction.
fn initial_failure(msg: String) -> (r: String)
    ensures
        r@ == initial_failure_message(msg@),
{
    String::from_str("Failed to create initial state: ").concat(msg.as_str())
}

/// Builds the message reporting a failed transition construction.
fn transition_failure(msg: String) -> (r: String)
    ensures
        r@ == transition_failure_message(msg@),
{
    String::from_str("Failed to create next state: ").concat(msg.as_str())
}

impl<C, S: GameState<C>> GameManager<C, S> {
    /// Creates a new game state manager.  Its active state will be created
    /// using the given state constructor.  If that constructor fails, its
    /// message is propagated, wrapped to indicate that it occurred during
    /// initial construction, and no manager is produced.
    pub fn new(context: C, state_constructor: S::StateConstructor) -> (r: Result<
        GameManager<C, S>,
        String,
    >)
        ensures
            r matches Ok(m) ==> {
                &&& m@.is_active
                &&& m@.history == seq![StateLifecycleEvent::ConstructorInvoked]
                &&& cleanup_precedes_construction(m@.history)
            },
            r matches Err(e) ==> exists|msg: Seq<char>| e@ == initial_failure_message(msg),
    {
        let mut context = context;
        let built = S::construct(state_constructor, &mut context);
        let ghost b = built;
        let r = Self::assemble(context, built);
        proof {
            if b is Err {
                let msg: Seq<char> = b->Err_0@;
                assert(r matches Err(e) && e@ == initial_failure_message(msg));
            }
        }
        r
    }

    /// Wraps the outcome of the initial constructor: a built state becomes an
    /// active manager whose history holds that one constructor invocation, a
    /// constructor error is reported as an initial-construction failure.
    fn assemble(context: C, built: Result<S, String>) -> (r: Result<GameManager<C, S>, String>)
        ensures
            built matches Ok(s) ==> {
                &&& r matches Ok(m)
                &&& m@.is_active
                &&& m@.context == context
                &&& m@.active_state == s
                &&& m@.history == seq![StateLifecycleEvent::ConstructorInvoked]
            },
            built matches Err(msg) ==> (r matches Err(e) && e@ == initial_failure_message(msg@)),
    {
        let ghost born: Seq<StateLifecycleEvent> = seq![StateLifecycleEvent::ConstructorInvoked];
        match built {
            Ok(state) => Ok(
                GameManager { context, active_state: state, is_active: true, history: Ghost(born) },
            ),
            Err(msg) => Err(initial_failure(msg)),
        }
    }

    /// Calls the active state's update method and handles its decision.
    /// Returns `Ok(false)` if the manager is (or has just become) deactivated,
    /// `Ok(true)` if the manager remains active, and `Err` if a transition's
    /// constructor failed, which deactivates the manager permanently.
    pub fn pass(&mut self) -> (r: Result<bool, String>)
        ensures
            pass_transition(old(self)@, final(self)@, r),
    {
        if !self.is_active {
            return Ok(false);
        }
        let outcome = self.active_state.update_and_draw(&mut self.context);
        self.history = Ghost(self.history@.push(StateLifecycleEvent::Advanced));
        let ghost o = outcome;
        let ghost mid = self@;
        let r = self.handle_update_result(outcome);
        proof {
            assert(mid.history =~= old(self)@.history + seq![StateLifecycleEvent::Advanced]);
            if o matches GameStateUpdateResult::ChangeState(_) {
                assert(self@.history =~= old(self)@.history + seq![
                    StateLifecycleEvent::Advanced,
                    StateLifecycleEvent::Terminated,
                    StateLifecycleEvent::ConstructorInvoked,
                ]);
            }
            if o is Quit {
                assert(self@.history =~= old(self)@.history + seq![
                    StateLifecycleEvent::Advanced,
                    StateLifecycleEvent::Terminated,
                ]);
            }
        }
        r
    }

    /// Handles one transition decision yielded by the active state, exactly as
    /// the protocol prescribes: `Continue` leaves the manager untouched;
    /// `ChangeState` terminates the outgoing state and only then invokes the
    /// given constructor; `Quit` terminates the outgoing state and deactivates
    /// the manager.
    fn handle_update_result(&mut self, outcome: GameStateUpdateResult<S::StateConstructor>) -> (r:
        Result<bool, String>)
        requires
            old(self)@.is_active,
        ensures
            outcome is Continue ==> (r == Ok::<bool, String>(true) && *final(self) == *old(self)),
            outcome matches GameStateUpdateResult::ChangeState(_) ==> {
                &&& final(self)@.history == old(self)@.history + seq![
                    StateLifecycleEvent::Terminated,
                    StateLifecycleEvent::ConstructorInvoked,
                ]
                &&& {
                    ||| (r == Ok::<bool, String>(true) && final(self)@.is_active)
                    ||| {
                        &&& r matches Err(e) && (exists|msg: Seq<char>|
                            e@ == transition_failure_message(msg))
                        &&& !final(self)@.is_active
                    }
                }
            },
            outcome is Quit ==> {
                &&& r == Ok::<bool, String>(false)
                &&& !final(self)@.is_active
                &&& final(self)@.history == old(self)@.history + seq![StateLifecycleEvent::Terminated]
            },
    {
        match outcome {
            GameStateUpdateResult::Continue => Ok(true),
            GameStateUpdateResult::ChangeState(constructor) => {
                self.active_state.terminate(&mut self.context);
                self.history = Ghost(self.history@.push(StateLifecycleEvent::Terminated));
                self.history = Ghost(self.history@.push(StateLifecycleEvent::ConstructorInvoked));
                let built = S::construct(constructor, &mut self.context);
                let ghost b = built;
                let r = self.install_constructed(built);
                proof {
                    assert(self@.history =~= old(self)@.history + seq![
                        StateLifecycleEvent::Terminated,
                        StateLifecycleEvent::ConstructorInvoked,
                    ]);
                    if b is Err {
                        let msg: Seq<char> = b->Err_0@;
                        assert(r matches Err(e) && e@ == transition_failure_message(msg));
                    }
                }
                r
            },
            GameStateUpdateResult::Quit => {
                self.active_state.terminate(&mut self.context);
                self.history = Ghost(self.history@.push(StateLifecycleEvent::Terminated));
                self.is_active = false;
                proof {
                    assert(self@.history =~= old(self)@.history + seq![
                        StateLifecycleEvent::Terminated,
                    ]);
                }
                Ok(false)
            },
        }
    }

    /// Installs the state built by a transition's constructor: a built state
    /// becomes the new active state (the outgoing one has already been
    /// terminated and is discarded), a constructor error deactivates the
    /// manager permanently and is reported as a transition-construction
    /// failure.
    fn install_constructed(&mut self, built: Result<S, String>) -> (r: Result<bool, String>)
        requires
            old(self)@.is_active,
        ensures
            built matches Ok(s) ==> {
                &&& r == Ok::<bool, String>(true)
                &&& final(self)@.is_active
                &&& final(self)@.active_state == s
                &&& final(self)@.context == old(self)@.context
                &&& final(self)@.history == old(self)@.history
            },
            built matches Err(msg) ==> {
                &&& r matches Err(e) && e@ == transition_failure_message(msg@)
                &&& !final(self)@.is_active
                &&& final(self)@.context == old(self)@.context
                &&& final(self)@.active_state == old(self)@.active_state
                &&& final(self)@.history == old(self)@.history
            },
    {
        match built {
            Ok(state) => {
                self.active_state = state;
                Ok(true)
            },
            Err(msg) => {
                self.is_active = false;
                Err(transition_failure(msg))
            },
        }
    }

    /// Read access to the shared context owned by the manager.
    pub fn context(&self) -> (r: &C)
        ensures
            *r == self@.context,
    {
        &self.context
    }
}

} // verus!
