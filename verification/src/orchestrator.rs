//! The phase orchestrator: a state machine that walks the phases in their
//! order, stops at the configured last phase and halts at the first phase
//! that reports diagnostics.
//!
//! The phases themselves are run by the driver. The orchestrator tells it
//! what to do next and takes back what the phase reported.

use vstd::prelude::*;
use crate::circuit::CircuitBuf;
use crate::config::{Config, Phase};
use crate::diag::ErrorBuf;

verus! {

/// Where one compile call stands.
#[derive(Debug, PartialEq, Eq)]
pub enum PipelineState {
    /// Nothing has run yet.
    Pending,
    /// The phase is due or under way; every phase before it has completed
    /// without diagnostics.
    Running(Phase),
    /// The configured last phase has completed, short of code generation.
    StoppedEarly(Phase),
    /// Code generation has completed.
    Succeeded,
    /// A phase reported the diagnostics held here; nothing ran after it.
    Failed(ErrorBuf),
}

/// What the driver tells the orchestrator.
#[derive(Debug, PartialEq, Eq)]
pub enum Event {
    /// The compile call begins.
    Begin,
    /// The phase that was due has run and reported these diagnostics; none
    /// means that it completed.
    Done(ErrorBuf),
}

/// The intermediate form that a phase leaves behind.
#[derive(Clone, Copy, Debug, PartialEq, Eq, Structural)]
pub enum Artifact {
    /// The lexical tokens.
    Tokens,
    /// The syntax tree.
    SyntaxTree,
    /// The lowered intermediate form. Lowering belongs to `Typecheck`; the
    /// phases between it and code generation work on this same form.
    Lowered,
}

/// What the driver is to do next.
#[derive(Clone, Copy, Debug, PartialEq, Eq, Structural)]
pub enum Action {
    /// Run this phase and report back.
    Run(Phase),
    /// Dump this artifact for inspection; the call then ends without a
    /// result.
    Dump(Artifact),
    /// Nothing.
    Halt,
}

/// The artifact in hand once a phase has completed.
pub open spec fn artifact_of(p: Phase) -> Artifact {
    match p {
        Phase::Tokenize => Artifact::Tokens,
        Phase::Parse => Artifact::SyntaxTree,
        _ => Artifact::Lowered,
    }
}

/// Whether a state ends the compile call.
pub open spec fn is_terminal(state: PipelineState) -> bool {
    state is StoppedEarly || state is Succeeded || state is Failed
}

/// How far a state is into the compile call.
pub open spec fn progress(state: PipelineState) -> nat {
    match state {
        PipelineState::Pending => 0,
        PipelineState::Running(p) => p.rank() + 1,
        _ => 8,
    }
}

/// Where the pipeline goes once phase `p` has completed without
/// diagnostics.
pub open spec fn after_phase(last: Phase, debug: bool, p: Phase) -> (PipelineState, Action) {
    if p == Phase::CodeGen {
        (PipelineState::Succeeded, Action::Halt)
    } else if p == last {
        (
            PipelineState::StoppedEarly(p),
            if debug {
                Action::Dump(artifact_of(p))
            } else {
                Action::Halt
            },
        )
    } else {
        (PipelineState::Running(p.spec_next()->0), Action::Run(p.spec_next()->0))
    }
}

/// The transition relation. An event that the state does not await
/// changes nothing and asks for nothing.
pub open spec fn transition(last: Phase, debug: bool, state: PipelineState, event: Event) -> (
    PipelineState,
    Action,
) {
    match (state, event) {
        (PipelineState::Pending, Event::Begin) => (
            PipelineState::Running(Phase::Tokenize),
            Action::Run(Phase::Tokenize),
        ),
        (PipelineState::Running(p), Event::Done(errors)) => if errors@.len() > 0 {
            (PipelineState::Failed(errors), Action::Halt)
        } else {
            after_phase(last, debug, p)
        },
        _ => (state, Action::Halt),
    }
}

/// The state after a sequence of events, from `Pending`.
pub open spec fn run(last: Phase, debug: bool, events: Seq<Event>) -> PipelineState
    decreases events.len(),
{
    if events.len() == 0 {
        PipelineState::Pending
    } else {
        transition(last, debug, run(last, debug, events.drop_last()), events.last()).0
    }
}

/// What the driver was last told to do in a sequence of events.
pub open spec fn last_action(last: Phase, debug: bool, events: Seq<Event>) -> Action
    decreases events.len(),
{
    if events.len() == 0 {
        Action::Halt
    } else {
        transition(last, debug, run(last, debug, events.drop_last()), events.last()).1
    }
}

/// What holds of every state that a compile call can be in.
pub open spec fn well_formed(last: Phase, state: PipelineState) -> bool {
    match state {
        PipelineState::Pending => true,
        PipelineState::Running(p) => p.rank() <= last.rank(),
        PipelineState::StoppedEarly(p) => p == last && p != Phase::CodeGen,
        PipelineState::Succeeded => last == Phase::CodeGen,
        PipelineState::Failed(errors) => errors@.len() > 0,
    }
}

/// What the pipeline hands back: the circuit where code generation
/// completed, the diagnostics where a phase failed, nothing otherwise.
pub open spec fn outcome_of(state: PipelineState, circuit: CircuitBuf) -> Result<
    Option<CircuitBuf>,
    ErrorBuf,
> {
    match state {
        PipelineState::Succeeded => Ok(Some(circuit)),
        PipelineState::Failed(errors) => Err(errors),
        _ => Ok(None),
    }
}

/// One compile call's walk through the phases.
#[derive(Debug)]
pub struct Pipeline {
    last_phase: Phase,
    debug: bool,
    state: PipelineState,
}

impl Pipeline {
    #[verifier::type_invariant]
    spec fn inv(self) -> bool {
        well_formed(self.last_phase, self.state)
    }

    /// The phase after which the pipeline stops.
    pub closed spec fn spec_last_phase(self) -> Phase {
        self.last_phase
    }

    /// Whether the pipeline dumps its artifact where it stops early.
    pub closed spec fn spec_debug(self) -> bool {
        self.debug
    }

    /// Where the pipeline stands.
    pub closed spec fn spec_state(self) -> PipelineState {
        self.state
    }

    /// A pipeline under `conf`, with nothing run yet.
    pub fn new(conf: &Config) -> (r: Self)
        ensures
            r.spec_last_phase() == conf.phase_config.last_phase,
            r.spec_debug() == conf.debug,
            r.spec_state() == PipelineState::Pending,
    {
        Pipeline {
            last_phase: conf.phase_config.last_phase,
            debug: conf.debug,
            state: PipelineState::Pending,
        }
    }

    /// Takes an event and says what to do next.
    pub fn step(self, event: Event) -> (r: (Pipeline, Action))
        ensures
            r.0.spec_last_phase() == self.spec_last_phase(),
            r.0.spec_debug() == self.spec_debug(),
            (r.0.spec_state(), r.1) == transition(
                self.spec_last_phase(),
                self.spec_debug(),
                self.spec_state(),
                event,
            ),
            well_formed(self.spec_last_phase(), self.spec_state()),
            well_formed(r.0.spec_last_phase(), r.0.spec_state()),
            r.1 matches Action::Run(q) ==> q.rank() <= self.spec_last_phase().rank(),
    {
        proof {
            use_type_invariant(&self);
        }
        let Pipeline { last_phase, debug, state } = self;
        let (state, action) = match (state, event) {
            (PipelineState::Pending, Event::Begin) => (
                PipelineState::Running(Phase::Tokenize),
                Action::Run(Phase::Tokenize),
            ),
            (PipelineState::Running(p), Event::Done(errors)) => {
                if !errors.is_empty() {
                    (PipelineState::Failed(errors), Action::Halt)
                } else {
                    match p.next() {
                        None => (PipelineState::Succeeded, Action::Halt),
                        Some(q) => {
                            if p == last_phase {
                                let action = if debug {
                                    Action::Dump(Pipeline::artifact(p))
                                } else {
                                    Action::Halt
                                };
                                (PipelineState::StoppedEarly(p), action)
                            } else {
                                (PipelineState::Running(q), Action::Run(q))
                            }
                        },
                    }
                }
            },
            (state, _) => (state, Action::Halt),
        };
        (Pipeline { last_phase, debug, state }, action)
    }

    /// Whether the configuration lets phase `p` run.
    pub fn allows(&self, p: Phase) -> (r: bool)
        ensures
            r == (p.rank() <= self.spec_last_phase().rank()),
    {
        p <= self.last_phase
    }

    /// The artifact in hand once a phase has completed.
    pub fn artifact(p: Phase) -> (r: Artifact)
        ensures
            r == artifact_of(p),
    {
        match p {
            Phase::Tokenize => Artifact::Tokens,
            Phase::Parse => Artifact::SyntaxTree,
            _ => Artifact::Lowered,
        }
    }

    /// Where the pipeline stands.
    pub fn state(&self) -> (r: &PipelineState)
        ensures
            *r == self.spec_state(),
            well_formed(self.spec_last_phase(), self.spec_state()),
    {
        proof {
            use_type_invariant(self);
        }
        &self.state
    }

    /// Whether the compile call has ended.
    pub fn is_terminal(&self) -> (r: bool)
        ensures
            r == is_terminal(self.spec_state()),
    {
        match &self.state {
            PipelineState::StoppedEarly(_) => true,
            PipelineState::Succeeded => true,
            PipelineState::Failed(_) => true,
            _ => false,
        }
    }

    /// Ends the call: hands back `circuit`, the buffer that code generation
    /// filled, where the pipeline succeeded, and the diagnostics where it
    /// failed. A pipeline that stopped early, or has not ended, has no
    /// result.
    pub fn finish(self, circuit: CircuitBuf) -> (r: Result<Option<CircuitBuf>, ErrorBuf>)
        ensures
            r == outcome_of(self.spec_state(), circuit),
            r matches Err(errors) ==> errors@.len() > 0,
    {
        proof {
            use_type_invariant(&self);
        }
        match self.state {
            PipelineState::Succeeded => Ok(Some(circuit)),
            PipelineState::Failed(errors) => Err(errors),
            _ => Ok(None),
        }
    }
}

/// Every state that a compile call reaches is well formed.
pub proof fn lemma_run_well_formed(last: Phase, debug: bool, events: Seq<Event>)
    ensures
        well_formed(last, run(last, debug, events)),
    decreases events.len(),
{
    if events.len() > 0 {
        lemma_run_well_formed(last, debug, events.drop_last());
    }
}

/// No phase beyond the configured last phase is ever due, and the driver is
/// never told to run one.
pub proof fn lemma_never_beyond_last_phase(last: Phase, debug: bool, events: Seq<Event>)
    ensures
        run(last, debug, events) matches PipelineState::Running(p) ==> p.rank() <= last.rank(),
        last_action(last, debug, events) matches Action::Run(p) ==> p.rank() <= last.rank(),
{
    lemma_run_well_formed(last, debug, events);
    if events.len() > 0 {
        lemma_run_well_formed(last, debug, events.drop_last());
    }
}

/// Transitions go forward only: no state falls back, a report always moves
/// the pipeline past the phase that made it, and a phase that the driver is
/// told to run is one that the pipeline has just entered. So no phase runs
/// twice.
pub proof fn lemma_forward_only(last: Phase, debug: bool, state: PipelineState, event: Event)
    ensures
        progress(transition(last, debug, state, event).0) >= progress(state),
        state is Running && event is Done ==> progress(transition(last, debug, state, event).0)
            > progress(state),
        transition(last, debug, state, event).1 matches Action::Run(q) ==> {
            &&& transition(last, debug, state, event).0 == PipelineState::Running(q)
            &&& progress(PipelineState::Running(q)) == progress(state) + 1
        },
{
}

/// A state that ends the call is final: whatever comes after changes
/// nothing and asks for nothing.
pub proof fn lemma_terminal_is_final(last: Phase, debug: bool, state: PipelineState, event: Event)
    requires
        is_terminal(state),
    ensures
        transition(last, debug, state, event) == (state, Action::Halt),
{
}

/// A phase that reports diagnostics ends the call at once. All of its
/// diagnostics are handed back together, with no circuit beside them.
pub proof fn lemma_failure_halts(
    last: Phase,
    debug: bool,
    p: Phase,
    errors: ErrorBuf,
    circuit: CircuitBuf,
)
    requires
        errors@.len() > 0,
    ensures
        transition(last, debug, PipelineState::Running(p), Event::Done(errors)) == (
            PipelineState::Failed(errors),
            Action::Halt,
        ),
        outcome_of(PipelineState::Failed(errors), circuit) == Err::<Option<CircuitBuf>, ErrorBuf>(
            errors,
        ),
{
}

/// The phase at a place in the order.
pub open spec fn phase_at(rank: nat) -> Phase {
    if rank == 0 {
        Phase::Tokenize
    } else if rank == 1 {
        Phase::Parse
    } else if rank == 2 {
        Phase::Typecheck
    } else if rank == 3 {
        Phase::Analysis
    } else if rank == 4 {
        Phase::Optimization
    } else if rank == 5 {
        Phase::Translation
    } else {
        Phase::CodeGen
    }
}

/// Whether `events` begin a call and then report only completed phases.
pub open spec fn is_clean_run(events: Seq<Event>) -> bool {
    &&& events.len() >= 1
    &&& events[0] is Begin
    &&& forall|i: int|
        1 <= i < events.len() ==> (#[trigger] events[i] matches Event::Done(errors)
            && errors@.len() == 0)
}

/// While the phases complete, they become due one after the other, in
/// their order, up to the configured last phase.
pub proof fn lemma_clean_run_walks_in_order(last: Phase, debug: bool, events: Seq<Event>)
    requires
        is_clean_run(events),
        events.len() <= last.rank() + 1,
    ensures
        run(last, debug, events) == PipelineState::Running(phase_at((events.len() - 1) as nat)),
        last_action(last, debug, events) == Action::Run(phase_at((events.len() - 1) as nat)),
    decreases events.len(),
{
    if events.len() > 1 {
        assert(is_clean_run(events.drop_last()));
        lemma_clean_run_walks_in_order(last, debug, events.drop_last());
    }
}

/// Once the configured last phase completes, the call ends: with success
/// after code generation, early otherwise, and with a dump of the artifact in
/// hand where the session is in debug mode.
pub proof fn lemma_clean_run_stops_at_last_phase(last: Phase, debug: bool, events: Seq<Event>)
    requires
        is_clean_run(events),
        events.len() == last.rank() + 2,
    ensures
        run(last, debug, events) == if last == Phase::CodeGen {
            PipelineState::Succeeded
        } else {
            PipelineState::StoppedEarly(last)
        },
        last_action(last, debug, events) == if last != Phase::CodeGen && debug {
            Action::Dump(artifact_of(last))
        } else {
            Action::Halt
        },
{
    assert(is_clean_run(events.drop_last()));
    lemma_clean_run_walks_in_order(last, debug, events.drop_last());
}

/// In debug mode with `Parse` as the last phase, a source that tokenizes and
/// parses without diagnostics yields no result: the syntax tree is dumped,
/// and neither a circuit nor a diagnostic is handed back.
pub proof fn lemma_debug_parse_yields_no_result(
    conf: Config,
    tokenized: ErrorBuf,
    parsed: ErrorBuf,
    circuit: CircuitBuf,
)
    requires
        conf.debug,
        conf.phase_config.last_phase == Phase::Parse,
        tokenized@.len() == 0,
        parsed@.len() == 0,
    ensures
        ({
            let events = seq![Event::Begin, Event::Done(tokenized), Event::Done(parsed)];
            let end = run(conf.phase_config.last_phase, conf.debug, events);
            &&& end == PipelineState::StoppedEarly(Phase::Parse)
            &&& last_action(conf.phase_config.last_phase, conf.debug, events) == Action::Dump(
                Artifact::SyntaxTree,
            )
            &&& outcome_of(end, circuit) == Ok::<Option<CircuitBuf>, ErrorBuf>(None)
        }),
{
    let events = seq![Event::Begin, Event::Done(tokenized), Event::Done(parsed)];
    lemma_clean_run_stops_at_last_phase(Phase::Parse, true, events);
}

} // verus!
