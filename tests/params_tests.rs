use orbiter_core::launcher::SessionLauncher;
use orbiter_core::params::{FlightParameters, RawParameters, ValidationError, FULL_TURN, MAX_APOAPSIS};
use orbiter_core::session::{Command, PhaseOutcome, Step};
use orbiter_core::token::CancellationToken;

#[test]
fn default_parameters() {
    let raw = RawParameters::default();
    assert_eq!(raw.ip_address, "192.168.0.56");
    assert_eq!(raw.initial_altitude, 200_000);
    assert_eq!(raw.direction, 90_000);
    assert_eq!(raw.apoapsis_altitude, 80_000_000);
    assert!(raw.circularize_in_apoapsis);
    assert_eq!(raw.hover_altitude, 100_000);
    assert_eq!(raw.validate(), Ok(()));
}

#[test]
fn negative_altitude_is_refused() {
    let raw = RawParameters { initial_altitude: -1, ..RawParameters::default() };
    assert_eq!(raw.validate(), Err(ValidationError::NegativeAltitude));
}

#[test]
fn direction_bounds() {
    let ok = RawParameters { direction: FULL_TURN - 1, ..RawParameters::default() };
    assert_eq!(ok.validate(), Ok(()));
    let zero = RawParameters { direction: 0, ..RawParameters::default() };
    assert_eq!(zero.validate(), Ok(()));
    let full = RawParameters { direction: FULL_TURN, ..RawParameters::default() };
    assert_eq!(full.validate(), Err(ValidationError::DirectionOutOfRange));
    let neg = RawParameters { direction: -1, ..RawParameters::default() };
    assert_eq!(neg.validate(), Err(ValidationError::DirectionOutOfRange));
}

#[test]
fn apoapsis_bounds() {
    let ok = RawParameters { apoapsis_altitude: MAX_APOAPSIS, ..RawParameters::default() };
    assert_eq!(ok.validate(), Ok(()));
    let high = RawParameters { apoapsis_altitude: MAX_APOAPSIS + 1, ..RawParameters::default() };
    assert_eq!(high.validate(), Err(ValidationError::ApoapsisOutOfRange));
    let neg = RawParameters { apoapsis_altitude: -5, ..RawParameters::default() };
    assert_eq!(neg.validate(), Err(ValidationError::ApoapsisOutOfRange));
}

#[test]
fn negative_hover_altitude_is_refused() {
    let raw = RawParameters { hover_altitude: -100, ..RawParameters::default() };
    assert_eq!(raw.validate(), Err(ValidationError::NegativeHoverAltitude));
}

#[test]
fn first_broken_rule_is_reported() {
    let raw = RawParameters { initial_altitude: -1, direction: 400_000, ..RawParameters::default() };
    assert_eq!(raw.validate(), Err(ValidationError::NegativeAltitude));
}

#[test]
fn snapshot_ignores_later_edits() {
    let mut raw = RawParameters::default();
    let snap = match FlightParameters::from_raw(&raw) {
        Ok(p) => p,
        Err(e) => panic!("refused: {:?}", e),
    };
    raw.ip_address.push_str("9");
    raw.initial_altitude = 1;
    raw.direction = 2;
    raw.apoapsis_altitude = 3;
    raw.circularize_in_apoapsis = false;
    raw.hover_altitude = 4;
    assert_eq!(snap.ip_address(), "192.168.0.56");
    assert_eq!(snap.initial_altitude(), 200_000);
    assert_eq!(snap.direction(), 90_000);
    assert_eq!(snap.apoapsis_altitude(), 80_000_000);
    assert!(snap.circularize_in_apoapsis());
    assert_eq!(snap.hover_altitude(), 100_000);
}

#[test]
fn launch_refuses_invalid_parameters() {
    let launcher = SessionLauncher::new(&CancellationToken::new());
    let raw = RawParameters { direction: 360_000, ..RawParameters::default() };
    assert!(matches!(launcher.launch(&raw, Command::Launch), Err(ValidationError::DirectionOutOfRange)));
    let raw = RawParameters { initial_altitude: -10, ..RawParameters::default() };
    assert!(matches!(launcher.launch(&raw, Command::Launch), Err(ValidationError::NegativeAltitude)));
}

#[test]
fn launch_prepares_a_fresh_session() {
    let token = CancellationToken::new();
    let launcher = SessionLauncher::new(&token);
    let raw = RawParameters { circularize_in_apoapsis: false, ..RawParameters::default() };
    let mut launch = match launcher.launch(&raw, Command::Launch) {
        Ok(l) => l,
        Err(e) => panic!("refused: {:?}", e),
    };
    assert_eq!(launch.params.direction(), 90_000);
    assert!(!launch.params.circularize_in_apoapsis());
    assert_eq!(launch.session.invoked_count(), 0);
    assert!(!launch.token.get());
    token.set(true);
    assert!(launch.token.get());
    assert_eq!(
        launch.session.on_connect(true, launch.token.get()),
        Step::Finish(PhaseOutcome::Cancelled)
    );
}
