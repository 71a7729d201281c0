use vstd::prelude::*;

verus! {

/// The point of the orbit at which a circularization burn is made.
#[derive(Clone, Copy, Debug, PartialEq, Eq, Structural)]
pub enum Apsis {
    Apoapsis,
    Periapsis,
}

/// What a circularization maneuver aims at.
#[derive(Clone, Copy, Debug, PartialEq, Eq, Structural)]
pub enum ManeuverTarget {
    /// Circularize at the given apsis.
    Apsis(Apsis),
    /// Execute the node at this position of the vehicle's maneuver queue.
    QueueIndex(u64),
}

/// One bounded unit of a flight pipeline.
#[derive(Clone, Copy, Debug, PartialEq, Eq, Structural)]
pub enum Phase {
    Liftoff,
    GravityTurn,
    CircularizationManeuver(ManeuverTarget),
    HoverHold,
    LandingSequence,
}

/// An operator command that starts a session.
#[derive(Clone, Copy, Debug, PartialEq, Eq, Structural)]
pub enum Command {
    Launch,
    Circularize(Apsis),
    ExecuteNextManeuver,
    Hover,
    Land,
}

/// Why a session or a phase failed.
#[derive(Clone, Copy, Debug, PartialEq, Eq, Structural)]
pub enum Failure {
    /// The remote endpoint could not be reached when the session started.
    Unreachable,
    /// A remote operation of a phase failed.
    RemoteCall,
}

/// How a phase, or a whole session, ended.
#[derive(Clone, Copy, Debug, PartialEq, Eq, Structural)]
pub enum PhaseOutcome {
    Completed,
    Failed(Failure),
    Cancelled,
}

/// The phases that `command` runs, in order.
pub open spec fn pipeline_of(command: Command, circularize_in_apoapsis: bool) -> Seq<Phase> {
    match command {
        Command::Launch => if circularize_in_apoapsis {
            seq![
                Phase::Liftoff,
                Phase::GravityTurn,
                Phase::CircularizationManeuver(ManeuverTarget::Apsis(Apsis::Apoapsis)),
            ]
        } else {
            seq![Phase::Liftoff, Phase::GravityTurn]
        },
        Command::Circularize(a) => seq![Phase::CircularizationManeuver(ManeuverTarget::Apsis(a))],
        Command::ExecuteNextManeuver => seq![
            Phase::CircularizationManeuver(ManeuverTarget::QueueIndex(0)),
        ],
        Command::Hover => seq![Phase::HoverHold],
        Command::Land => seq![Phase::LandingSequence],
    }
}

/// Builds the pipeline of `command`.
pub fn pipeline_for(command: Command, circularize_in_apoapsis: bool) -> (r: Vec<Phase>)
    ensures
        r@ == pipeline_of(command, circularize_in_apoapsis),
{
    let r = match command {
        Command::Launch => if circularize_in_apoapsis {
            vec![
                Phase::Liftoff,
                Phase::GravityTurn,
                Phase::CircularizationManeuver(ManeuverTarget::Apsis(Apsis::Apoapsis)),
            ]
        } else {
            vec![Phase::Liftoff, Phase::GravityTurn]
        },
        Command::Circularize(a) => vec![Phase::CircularizationManeuver(ManeuverTarget::Apsis(a))],
        Command::ExecuteNextManeuver => vec![
            Phase::CircularizationManeuver(ManeuverTarget::QueueIndex(0)),
        ],
        Command::Hover => vec![Phase::HoverHold],
        Command::Land => vec![Phase::LandingSequence],
    };
    proof {
        assert(r@ =~= pipeline_of(command, circularize_in_apoapsis));
    }
    r
}

/// What the driver of a session does next.
#[derive(Clone, Copy, Debug, PartialEq, Eq, Structural)]
pub enum Step {
    /// Run this phase on the session's connection, then report its outcome.
    Run(Phase),
    /// The session is over with this outcome: close the connection.
    Finish(PhaseOutcome),
}

/// The state of a session, as plain values.
pub struct SessionView {
    /// The phases to run, in order.
    pub pipeline: Seq<Phase>,
    /// Whether the connection has been opened.
    pub connected: bool,
    /// How many phases have been started.
    pub invoked: nat,
    /// Whether the last started phase has not reported yet.
    pub running: bool,
    /// The final outcome, once the session is over.
    pub result: Option<PhaseOutcome>,
}

impl SessionView {
    /// The phases started so far, in the order they were started.
    pub open spec fn invocations(self) -> Seq<Phase> {
        self.pipeline.take(self.invoked as int)
    }

    /// A phase runs only on an open connection and before any result; a
    /// connected session with no running phase is over.
    pub open spec fn wf(self) -> bool {
        &&& self.invoked <= self.pipeline.len()
        &&& self.running ==> self.connected && self.invoked >= 1 && self.result is None
        &&& !self.connected ==> self.invoked == 0 && !self.running
        &&& self.connected && !self.running ==> self.result is Some
    }

    /// Whether a connection has yet to be reported.
    pub open spec fn fresh(self) -> bool {
        !self.connected && self.result is None
    }

    /// What the driver is told to do in this state.
    pub open spec fn step(self) -> Step {
        match self.result {
            Some(o) => Step::Finish(o),
            None => Step::Run(self.pipeline[self.invoked - 1]),
        }
    }
}

/// A session that has not connected yet.
pub open spec fn fresh_session(pipeline: Seq<Phase>) -> SessionView {
    SessionView { pipeline, connected: false, invoked: 0, running: false, result: None }
}

/// At a safe point between phases: finish once every phase has completed,
/// stop if cancellation is requested, or start the next phase.
pub open spec fn advance(s: SessionView, cancel_requested: bool) -> SessionView {
    if s.invoked >= s.pipeline.len() {
        SessionView { result: Some(PhaseOutcome::Completed), ..s }
    } else if cancel_requested {
        SessionView { result: Some(PhaseOutcome::Cancelled), ..s }
    } else {
        SessionView { invoked: s.invoked + 1, running: true, ..s }
    }
}

/// The connection attempt has returned.
pub open spec fn after_connect(s: SessionView, connected: bool, cancel_requested: bool) -> SessionView {
    if !connected {
        SessionView { result: Some(PhaseOutcome::Failed(Failure::Unreachable)), ..s }
    } else {
        advance(SessionView { connected: true, ..s }, cancel_requested)
    }
}

/// The running phase has reported `outcome`: only `Completed` lets the
/// pipeline go on.
pub open spec fn after_phase(s: SessionView, outcome: PhaseOutcome, cancel_requested: bool) -> SessionView {
    let s1 = SessionView { running: false, ..s };
    match outcome {
        PhaseOutcome::Completed => advance(s1, cancel_requested),
        _ => SessionView { result: Some(outcome), ..s1 },
    }
}

/// The state after the running phases report `outcomes` one after another,
/// with `cancels[i]` the stop request read at the safe point after the
/// `i`-th of them. Reports that come when no phase is running are ignored.
pub open spec fn drive(s: SessionView, outcomes: Seq<PhaseOutcome>, cancels: Seq<bool>) -> SessionView
    decreases outcomes.len(),
{
    if outcomes.len() == 0 || cancels.len() == 0 || !s.running {
        s
    } else {
        drive(after_phase(s, outcomes[0], cancels[0]), outcomes.drop_first(), cancels.drop_first())
    }
}

/// One run of a pipeline over one connection.
///
/// The session makes every decision of the run and performs no remote work
/// itself: its driver opens the connection, runs each phase it is handed,
/// reads the cancellation token at each safe point, and reports back.
pub struct FlightSession {
    pipeline: Vec<Phase>,
    connected: bool,
    invoked: usize,
    running: bool,
    result: Option<PhaseOutcome>,
}

impl View for FlightSession {
    type V = SessionView;

    closed spec fn view(&self) -> SessionView {
        SessionView {
            pipeline: self.pipeline@,
            connected: self.connected,
            invoked: self.invoked as nat,
            running: self.running,
            result: self.result,
        }
    }
}

impl FlightSession {
    /// A session for `command`, not yet connected.
    pub fn new(command: Command, circularize_in_apoapsis: bool) -> (r: FlightSession)
        ensures
            r@ == fresh_session(pipeline_of(command, circularize_in_apoapsis)),
            r@.wf(),
    {
        FlightSession {
            pipeline: pipeline_for(command, circularize_in_apoapsis),
            connected: false,
            invoked: 0,
            running: false,
            result: None,
        }
    }

    fn advance(&mut self, cancel_requested: bool) -> (r: Step)
        requires
            old(self)@.invoked <= old(self)@.pipeline.len(),
            old(self)@.connected,
            !old(self)@.running,
            old(self)@.result is None,
        ensures
            final(self)@ == advance(old(self)@, cancel_requested),
            final(self)@.wf(),
            r == final(self)@.step(),
    {
        if self.invoked >= self.pipeline.len() {
            self.result = Some(PhaseOutcome::Completed);
            Step::Finish(PhaseOutcome::Completed)
        } else if cancel_requested {
            self.result = Some(PhaseOutcome::Cancelled);
            Step::Finish(PhaseOutcome::Cancelled)
        } else {
            let phase = self.pipeline[self.invoked];
            self.invoked = self.invoked + 1;
            self.running = true;
            Step::Run(phase)
        }
    }

    /// Reports whether the connection could be opened, with the stop request
    /// read just after; returns what to do next.
    pub fn on_connect(&mut self, connected: bool, cancel_requested: bool) -> (r: Step)
        requires
            old(self)@.wf(),
            old(self)@.fresh(),
        ensures
            final(self)@ == after_connect(old(self)@, connected, cancel_requested),
            final(self)@.wf(),
            r == final(self)@.step(),
    {
        if !connected {
            self.result = Some(PhaseOutcome::Failed(Failure::Unreachable));
            Step::Finish(PhaseOutcome::Failed(Failure::Unreachable))
        } else {
            self.connected = true;
            self.advance(cancel_requested)
        }
    }

    /// Reports how the running phase ended, with the stop request read at the
    /// safe point after it; returns what to do next.
    pub fn on_phase_end(&mut self, outcome: PhaseOutcome, cancel_requested: bool) -> (r: Step)
        requires
            old(self)@.wf(),
            old(self)@.running,
        ensures
            final(self)@ == after_phase(old(self)@, outcome, cancel_requested),
            final(self)@.wf(),
            r == final(self)@.step(),
    {
        self.running = false;
        match outcome {
            PhaseOutcome::Completed => self.advance(cancel_requested),
            _ => {
                self.result = Some(outcome);
                Step::Finish(outcome)
            },
        }
    }

    /// Whether a phase is running and awaits its report.
    pub fn is_running(&self) -> (r: bool)
        ensures
            r == self@.running,
    {
        self.running
    }

    /// The final outcome, once the session is over.
    pub fn outcome(&self) -> (r: Option<PhaseOutcome>)
        ensures
            r == self@.result,
    {
        self.result
    }

    /// How many phases have been started.
    pub fn invoked_count(&self) -> (r: usize)
        ensures
            r == self@.invoked,
    {
        self.invoked
    }
}

/// Once a session is over, or no phase is running, reports change nothing.
pub proof fn lemma_idle_session_is_stable(s: SessionView, outcomes: Seq<PhaseOutcome>, cancels: Seq<bool>)
    requires
        !s.running,
    ensures
        drive(s, outcomes, cancels) == s,
{
}

/// With every phase completing and no stop requested, a running session
/// starts every remaining phase of its pipeline in order and ends `Completed`.
pub proof fn lemma_all_completed(s: SessionView, outcomes: Seq<PhaseOutcome>, cancels: Seq<bool>)
    requires
        s.wf(),
        s.running,
        outcomes.len() == cancels.len(),
        outcomes.len() > s.pipeline.len() - s.invoked,
        forall|i: int| 0 <= i < outcomes.len() ==> outcomes[i] == PhaseOutcome::Completed,
        forall|i: int| 0 <= i < cancels.len() ==> !cancels[i],
    ensures
        drive(s, outcomes, cancels).invocations() == s.pipeline,
        drive(s, outcomes, cancels).result == Some(PhaseOutcome::Completed),
    decreases outcomes.len(),
{
    let s1 = after_phase(s, outcomes[0], cancels[0]);
    let rest = outcomes.drop_first();
    let rest_cancels = cancels.drop_first();
    assert(drive(s, outcomes, cancels) == drive(s1, rest, rest_cancels));
    if s.invoked < s.pipeline.len() {
        assert forall|i: int| 0 <= i < rest.len() implies rest[i] == PhaseOutcome::Completed by {
            assert(rest[i] == outcomes[i + 1]);
        }
        assert forall|i: int| 0 <= i < rest_cancels.len() implies !rest_cancels[i] by {
            assert(rest_cancels[i] == cancels[i + 1]);
        }
        lemma_all_completed(s1, rest, rest_cancels);
    } else {
        lemma_idle_session_is_stable(s1, rest, rest_cancels);
        assert(s1.invocations() =~= s.pipeline);
    }
}

/// Sequencing of a launch: with every phase completing and no stop requested,
/// a launch that circularizes runs exactly Liftoff, GravityTurn and a
/// circularization at apoapsis, and one that does not runs exactly Liftoff
/// and GravityTurn.
pub proof fn lemma_launch_sequence(circularize_in_apoapsis: bool)
    ensures
        ({
            let pipeline = pipeline_of(Command::Launch, circularize_in_apoapsis);
            let n = pipeline.len() as nat;
            let s = drive(
                after_connect(fresh_session(pipeline), true, false),
                Seq::new(n, |i: int| PhaseOutcome::Completed),
                Seq::new(n, |i: int| false),
            );
            &&& s.result == Some(PhaseOutcome::Completed)
            &&& circularize_in_apoapsis ==> s.invocations() == seq![
                Phase::Liftoff,
                Phase::GravityTurn,
                Phase::CircularizationManeuver(ManeuverTarget::Apsis(Apsis::Apoapsis)),
            ]
            &&& !circularize_in_apoapsis ==> s.invocations() == seq![
                Phase::Liftoff,
                Phase::GravityTurn,
            ]
        }),
{
    let pipeline = pipeline_of(Command::Launch, circularize_in_apoapsis);
    let n = pipeline.len() as nat;
    let s0 = after_connect(fresh_session(pipeline), true, false);
    lemma_all_completed(
        s0,
        Seq::new(n, |i: int| PhaseOutcome::Completed),
        Seq::new(n, |i: int| false),
    );
}

/// A phase that fails ends its session with that failure, and no later
/// phase is started, whatever is reported afterwards.
pub proof fn lemma_failure_halts(s: SessionView, outcomes: Seq<PhaseOutcome>, cancels: Seq<bool>)
    requires
        s.wf(),
        s.running,
        outcomes.len() > 0,
        cancels.len() > 0,
        outcomes[0] is Failed,
    ensures
        drive(s, outcomes, cancels).invocations() == s.invocations(),
        drive(s, outcomes, cancels).result == Some(outcomes[0]),
{
    lemma_idle_session_is_stable(after_phase(s, outcomes[0], cancels[0]), outcomes.drop_first(), cancels.drop_first());
}

/// When Liftoff fails, neither GravityTurn nor the circularization of a
/// launch is ever started.
pub proof fn lemma_liftoff_failure(
    circularize_in_apoapsis: bool,
    outcomes: Seq<PhaseOutcome>,
    cancels: Seq<bool>,
)
    requires
        outcomes.len() > 0,
        cancels.len() > 0,
        outcomes[0] is Failed,
    ensures
        ({
            let s = drive(
                after_connect(fresh_session(pipeline_of(Command::Launch, circularize_in_apoapsis)), true, false),
                outcomes,
                cancels,
            );
            &&& s.invocations() == seq![Phase::Liftoff]
            &&& s.result == Some(outcomes[0])
            &&& !s.invocations().contains(Phase::GravityTurn)
            &&& !s.invocations().contains(Phase::CircularizationManeuver(ManeuverTarget::Apsis(Apsis::Apoapsis)))
        }),
{
    let s0 = after_connect(fresh_session(pipeline_of(Command::Launch, circularize_in_apoapsis)), true, false);
    lemma_failure_halts(s0, outcomes, cancels);
    assert(s0.invocations() =~= seq![Phase::Liftoff]);
    assert(seq![Phase::Liftoff][0] != Phase::GravityTurn);
}

/// A stop request seen at the safe point after the running phase halts the
/// pipeline: no phase after the running one is ever started.
pub proof fn lemma_cancel_halts(s: SessionView, outcomes: Seq<PhaseOutcome>, cancels: Seq<bool>)
    requires
        s.wf(),
        s.running,
        outcomes.len() > 0,
        cancels.len() > 0,
        cancels[0],
    ensures
        drive(s, outcomes, cancels).invocations() == s.invocations(),
        !(drive(s, outcomes, cancels).result is None),
{
    lemma_idle_session_is_stable(after_phase(s, outcomes[0], cancels[0]), outcomes.drop_first(), cancels.drop_first());
}

/// A stop requested before a session starts means that no phase of it ever
/// runs: it ends `Cancelled`, or `Failed` if the endpoint was unreachable
/// (or `Completed` if its pipeline has no phase at all).
pub proof fn lemma_cancel_before_start(
    pipeline: Seq<Phase>,
    connected: bool,
    outcomes: Seq<PhaseOutcome>,
    cancels: Seq<bool>,
)
    ensures
        drive(after_connect(fresh_session(pipeline), connected, true), outcomes, cancels).invocations().len() == 0,
        drive(after_connect(fresh_session(pipeline), connected, true), outcomes, cancels).result == Some(
            if !connected {
                PhaseOutcome::Failed(Failure::Unreachable)
            } else if pipeline.len() == 0 {
                PhaseOutcome::Completed
            } else {
                PhaseOutcome::Cancelled
            },
        ),
{
    lemma_idle_session_is_stable(after_connect(fresh_session(pipeline), connected, true), outcomes, cancels);
}

} // verus!
