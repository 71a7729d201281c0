use orbiter_core::session::{
    pipeline_for, Apsis, Command, Failure, FlightSession, ManeuverTarget, Phase, PhaseOutcome, Step,
};

/// Runs `session` to its end: each phase started reports the next outcome of
/// `outcomes`, and the stop request read after it is the next of `cancels`.
fn drive(
    session: &mut FlightSession,
    connected: bool,
    cancel_at_start: bool,
    outcomes: &[PhaseOutcome],
    cancels: &[bool],
) -> (Vec<Phase>, PhaseOutcome) {
    let mut invoked = Vec::new();
    let mut step = session.on_connect(connected, cancel_at_start);
    let mut i = 0;
    loop {
        match step {
            Step::Run(phase) => {
                invoked.push(phase);
                step = session.on_phase_end(outcomes[i], cancels[i]);
                i += 1;
            }
            Step::Finish(outcome) => return (invoked, outcome),
        }
    }
}

const CIRC_APO: Phase = Phase::CircularizationManeuver(ManeuverTarget::Apsis(Apsis::Apoapsis));

#[test]
fn launch_with_circularization_runs_three_phases_in_order() {
    let mut s = FlightSession::new(Command::Launch, true);
    let done = [PhaseOutcome::Completed; 3];
    let (invoked, outcome) = drive(&mut s, true, false, &done, &[false; 3]);
    assert_eq!(invoked, vec![Phase::Liftoff, Phase::GravityTurn, CIRC_APO]);
    assert_eq!(outcome, PhaseOutcome::Completed);
    assert_eq!(s.outcome(), Some(PhaseOutcome::Completed));
    assert!(!s.is_running());
}

#[test]
fn launch_without_circularization_runs_two_phases() {
    let mut s = FlightSession::new(Command::Launch, false);
    let done = [PhaseOutcome::Completed; 2];
    let (invoked, outcome) = drive(&mut s, true, false, &done, &[false; 2]);
    assert_eq!(invoked, vec![Phase::Liftoff, Phase::GravityTurn]);
    assert_eq!(outcome, PhaseOutcome::Completed);
    assert_eq!(s.invoked_count(), 2);
}

#[test]
fn liftoff_failure_stops_the_launch() {
    let mut s = FlightSession::new(Command::Launch, true);
    let outcomes = [PhaseOutcome::Failed(Failure::RemoteCall), PhaseOutcome::Completed, PhaseOutcome::Completed];
    let (invoked, outcome) = drive(&mut s, true, false, &outcomes, &[false; 3]);
    assert_eq!(invoked, vec![Phase::Liftoff]);
    assert_eq!(outcome, PhaseOutcome::Failed(Failure::RemoteCall));
}

#[test]
fn cancel_before_start_runs_no_phase() {
    let mut s = FlightSession::new(Command::Launch, true);
    let (invoked, outcome) = drive(&mut s, true, true, &[], &[]);
    assert!(invoked.is_empty());
    assert_eq!(outcome, PhaseOutcome::Cancelled);
}

#[test]
fn cancel_mid_pipeline_halts_after_the_running_phase() {
    let mut s = FlightSession::new(Command::Launch, true);
    let done = [PhaseOutcome::Completed; 3];
    let (invoked, outcome) = drive(&mut s, true, false, &done, &[false, true, true]);
    assert_eq!(invoked, vec![Phase::Liftoff, Phase::GravityTurn]);
    assert_eq!(outcome, PhaseOutcome::Cancelled);
}

#[test]
fn phase_observing_cancellation_ends_the_session_cancelled() {
    let mut s = FlightSession::new(Command::Launch, false);
    let outcomes = [PhaseOutcome::Cancelled, PhaseOutcome::Completed];
    let (invoked, outcome) = drive(&mut s, true, false, &outcomes, &[true, true]);
    assert_eq!(invoked, vec![Phase::Liftoff]);
    assert_eq!(outcome, PhaseOutcome::Cancelled);
}

#[test]
fn unreachable_endpoint_fails_before_any_phase() {
    let mut s = FlightSession::new(Command::Launch, true);
    let (invoked, outcome) = drive(&mut s, false, false, &[], &[]);
    assert!(invoked.is_empty());
    assert_eq!(outcome, PhaseOutcome::Failed(Failure::Unreachable));
}

#[test]
fn unreachable_endpoint_wins_over_cancellation() {
    let mut s = FlightSession::new(Command::Hover, false);
    let (_, outcome) = drive(&mut s, false, true, &[], &[]);
    assert_eq!(outcome, PhaseOutcome::Failed(Failure::Unreachable));
}

#[test]
fn single_phase_commands() {
    assert_eq!(
        pipeline_for(Command::Circularize(Apsis::Periapsis), true),
        vec![Phase::CircularizationManeuver(ManeuverTarget::Apsis(Apsis::Periapsis))]
    );
    assert_eq!(
        pipeline_for(Command::ExecuteNextManeuver, true),
        vec![Phase::CircularizationManeuver(ManeuverTarget::QueueIndex(0))]
    );
    assert_eq!(pipeline_for(Command::Hover, true), vec![Phase::HoverHold]);
    assert_eq!(pipeline_for(Command::Land, false), vec![Phase::LandingSequence]);
}

#[test]
fn execute_next_maneuver_session() {
    let mut s = FlightSession::new(Command::ExecuteNextManeuver, false);
    let (invoked, outcome) = drive(&mut s, true, false, &[PhaseOutcome::Completed], &[false]);
    assert_eq!(invoked, vec![Phase::CircularizationManeuver(ManeuverTarget::QueueIndex(0))]);
    assert_eq!(outcome, PhaseOutcome::Completed);
}

#[test]
fn fresh_session_state() {
    let s = FlightSession::new(Command::Land, false);
    assert!(!s.is_running());
    assert_eq!(s.outcome(), None);
    assert_eq!(s.invoked_count(), 0);
}

#[test]
fn stop_read_after_the_last_phase_keeps_completed() {
    let mut s = FlightSession::new(Command::Launch, false);
    let done = [PhaseOutcome::Completed; 2];
    let (invoked, outcome) = drive(&mut s, true, false, &done, &[false, true]);
    assert_eq!(invoked, vec![Phase::Liftoff, Phase::GravityTurn]);
    assert_eq!(outcome, PhaseOutcome::Completed);
}
