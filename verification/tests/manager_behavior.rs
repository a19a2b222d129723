//! Behavioral tests driving the manager through scripted states.

use tobager::{GameManager, GameState, GameStateUpdateResult};

/// Shared context: a switch counter, a scripted input tape, and a log that
/// records every state-lifecycle call in order.
struct Ctx {
    switches: usize,
    script: Vec<&'static str>,
    cursor: usize,
    log: Vec<String>,
}

impl Ctx {
    fn with_script(script: Vec<&'static str>) -> Ctx {
        Ctx { switches: 0, script, cursor: 0, log: Vec::new() }
    }
}

#[derive(Clone, Copy)]
enum Ctor {
    MakeA,
    MakeB,
    Fail(&'static str),
}

enum ABState {
    A { inputs: usize },
    B { inputs: usize },
}

impl GameState<Ctx> for ABState {
    type StateConstructor = Ctor;

    fn construct(constructor: Ctor, context: &mut Ctx) -> Result<ABState, String> {
        match constructor {
            Ctor::MakeA => {
                context.log.push("construct A".to_string());
                Ok(ABState::A { inputs: 0 })
            }
            Ctor::MakeB => {
                context.log.push("construct B".to_string());
                Ok(ABState::B { inputs: 0 })
            }
            Ctor::Fail(msg) => {
                context.log.push("construct failing".to_string());
                Err(msg.to_string())
            }
        }
    }

    fn update_and_draw(&mut self, context: &mut Ctx) -> GameStateUpdateResult<Ctor> {
        let (name, inputs, next) = match self {
            ABState::A { inputs } => {
                *inputs += 1;
                ("A", *inputs, Ctor::MakeB)
            }
            ABState::B { inputs } => {
                *inputs += 1;
                ("B", *inputs, Ctor::MakeA)
            }
        };
        context.log.push(format!("update {} {}", name, inputs));
        let input = context.script[context.cursor];
        context.cursor += 1;
        match input {
            "s" => GameStateUpdateResult::ChangeState(next),
            "q" => GameStateUpdateResult::Quit,
            "x" => GameStateUpdateResult::ChangeState(Ctor::Fail("boom")),
            _ => GameStateUpdateResult::Continue,
        }
    }

    fn terminate(&mut self, context: &mut Ctx) {
        context.switches += 1;
        let name = match self {
            ABState::A { .. } => "A",
            ABState::B { .. } => "B",
        };
        context.log.push(format!("terminate {}", name));
    }
}

fn strings(v: Vec<&str>) -> Vec<String> {
    v.into_iter().map(|s| s.to_string()).collect()
}

#[test]
fn alternating_states_scenario() {
    let ctx = Ctx::with_script(vec!["s", "s", "q"]);
    let mut manager = GameManager::<Ctx, ABState>::new(ctx, Ctor::MakeA).unwrap();
    let mut results = Vec::new();
    loop {
        let r = manager.pass().unwrap();
        results.push(r);
        if !r {
            break;
        }
    }
    assert_eq!(results, vec![true, true, false]);
    assert_eq!(manager.context().switches, 3);
    // Each activation counts its own inputs from zero: every update logs 1.
    assert_eq!(
        manager.context().log,
        strings(vec![
            "construct A",
            "update A 1",
            "terminate A",
            "construct B",
            "update B 1",
            "terminate B",
            "construct A",
            "update A 1",
            "terminate A",
        ])
    );
}

#[test]
fn continue_keeps_the_same_state_instance() {
    let ctx = Ctx::with_script(vec!["", "", ""]);
    let mut manager = GameManager::<Ctx, ABState>::new(ctx, Ctor::MakeA).unwrap();
    assert_eq!(manager.pass(), Ok(true));
    assert_eq!(manager.pass(), Ok(true));
    assert_eq!(manager.pass(), Ok(true));
    // The per-instance input counter kept growing: the same state stayed
    // active, and nothing was terminated or constructed along the way.
    assert_eq!(
        manager.context().log,
        strings(vec!["construct A", "update A 1", "update A 2", "update A 3"])
    );
    assert_eq!(manager.context().switches, 0);
}

#[test]
fn terminate_runs_before_next_constructor() {
    let ctx = Ctx::with_script(vec!["s"]);
    let mut manager = GameManager::<Ctx, ABState>::new(ctx, Ctor::MakeA).unwrap();
    assert_eq!(manager.pass(), Ok(true));
    // The outgoing state's terminate is logged strictly before the next
    // state's constructor.
    assert_eq!(
        manager.context().log,
        strings(vec!["construct A", "update A 1", "terminate A", "construct B"])
    );
}

#[test]
fn terminate_runs_before_failing_constructor() {
    let ctx = Ctx::with_script(vec!["x"]);
    let mut manager = GameManager::<Ctx, ABState>::new(ctx, Ctor::MakeA).unwrap();
    let r = manager.pass();
    assert_eq!(r, Err("Failed to create next state: boom".to_string()));
    // Cleanup was unconditional: terminate preceded the failing constructor.
    assert_eq!(
        manager.context().log,
        strings(vec!["construct A", "update A 1", "terminate A", "construct failing"])
    );
}

#[test]
fn quit_is_terminal_and_idempotent() {
    let ctx = Ctx::with_script(vec!["q"]);
    let mut manager = GameManager::<Ctx, ABState>::new(ctx, Ctor::MakeA).unwrap();
    assert_eq!(manager.pass(), Ok(false));
    assert_eq!(manager.context().switches, 1);
    let log_after_quit = manager.context().log.clone();
    // Every subsequent pass returns Ok(false) without invoking any state
    // method: the log does not grow.
    for _ in 0..5 {
        assert_eq!(manager.pass(), Ok(false));
    }
    assert_eq!(manager.context().log, log_after_quit);
    assert_eq!(manager.context().switches, 1);
}

#[test]
fn transition_failure_is_terminal() {
    let ctx = Ctx::with_script(vec!["x"]);
    let mut manager = GameManager::<Ctx, ABState>::new(ctx, Ctor::MakeA).unwrap();
    let r = manager.pass();
    assert_eq!(r, Err("Failed to create next state: boom".to_string()));
    let log_after_failure = manager.context().log.clone();
    // The error is surfaced once; afterwards the manager is permanently
    // terminal and never re-attempts construction or touches a state again.
    for _ in 0..5 {
        assert_eq!(manager.pass(), Ok(false));
    }
    assert_eq!(manager.context().log, log_after_failure);
}

#[test]
fn failing_initial_constructor_yields_wrapped_error() {
    let ctx = Ctx::with_script(vec![]);
    let r = GameManager::<Ctx, ABState>::new(ctx, Ctor::Fail("bad init"));
    match r {
        Ok(_) => panic!("expected initial construction to fail"),
        Err(msg) => assert_eq!(msg, "Failed to create initial state: bad init".to_string()),
    }
}

#[test]
fn successful_creation_starts_active() {
    let ctx = Ctx::with_script(vec!["q"]);
    let mut manager = GameManager::<Ctx, ABState>::new(ctx, Ctor::MakeB).unwrap();
    assert_eq!(manager.context().log, strings(vec!["construct B"]));
    // The manager accepts a pass, so it was created active.
    assert_eq!(manager.pass(), Ok(false));
    assert_eq!(manager.context().log, strings(vec!["construct B", "update B 1", "terminate B"]));
}
