use vstd::prelude::*;

verus! {

/// One full turn, in thousandths of a degree: a heading lies in `[0, FULL_TURN)`.
pub const FULL_TURN: i64 = 360_000;

/// The highest target apoapsis accepted, in millimetres (200 km).
pub const MAX_APOAPSIS: i64 = 200_000_000;

/// Parameters as the operator has entered them, not yet checked.
///
/// Altitudes are in millimetres and the heading in thousandths of a degree.
pub struct RawParameters {
    pub ip_address: String,
    pub initial_altitude: i64,
    pub direction: i64,
    pub apoapsis_altitude: i64,
    pub circularize_in_apoapsis: bool,
    pub hover_altitude: i64,
}

/// The values of a parameter set, as plain numbers and text.
pub struct ParamsView {
    pub ip_address: Seq<char>,
    pub initial_altitude: int,
    pub direction: int,
    pub apoapsis_altitude: int,
    pub circularize_in_apoapsis: bool,
    pub hover_altitude: int,
}

impl View for RawParameters {
    type V = ParamsView;

    open spec fn view(&self) -> ParamsView {
        ParamsView {
            ip_address: self.ip_address@,
            initial_altitude: self.initial_altitude as int,
            direction: self.direction as int,
            apoapsis_altitude: self.apoapsis_altitude as int,
            circularize_in_apoapsis: self.circularize_in_apoapsis,
            hover_altitude: self.hover_altitude as int,
        }
    }
}

/// Why a set of raw parameters was refused.
#[derive(Clone, Copy, Debug, PartialEq, Eq, Structural)]
pub enum ValidationError {
    NegativeAltitude,
    DirectionOutOfRange,
    ApoapsisOutOfRange,
    NegativeHoverAltitude,
}

/// The first rule that `raw` breaks, if any, in the order in which they are checked.
pub open spec fn validation_error(raw: ParamsView) -> Option<ValidationError> {
    if raw.initial_altitude < 0 {
        Some(ValidationError::NegativeAltitude)
    } else if raw.direction < 0 || raw.direction >= FULL_TURN {
        Some(ValidationError::DirectionOutOfRange)
    } else if raw.apoapsis_altitude < 0 || raw.apoapsis_altitude > MAX_APOAPSIS {
        Some(ValidationError::ApoapsisOutOfRange)
    } else if raw.hover_altitude < 0 {
        Some(ValidationError::NegativeHoverAltitude)
    } else {
        None
    }
}

impl Default for RawParameters {
    fn default() -> (r: RawParameters)
        ensures
            r.ip_address@ == "192.168.0.56"@,
            r.initial_altitude == 200_000,
            r.direction == 90_000,
            r.apoapsis_altitude == 80_000_000,
            r.circularize_in_apoapsis,
            r.hover_altitude == 100_000,
    {
        RawParameters {
            ip_address: "192.168.0.56".to_owned(),
            initial_altitude: 200_000,
            direction: 90_000,
            apoapsis_altitude: 80_000_000,
            circularize_in_apoapsis: true,
            hover_altitude: 100_000,
        }
    }
}

impl RawParameters {
    /// Checks every rule; `Err` names the first one broken.
    pub fn validate(&self) -> (r: Result<(), ValidationError>)
        ensures
            r is Ok <==> validation_error(self@) is None,
            r matches Err(e) ==> validation_error(self@) == Some(e),
    {
        if self.initial_altitude < 0 {
            Err(ValidationError::NegativeAltitude)
        } else if self.direction < 0 || self.direction >= FULL_TURN {
            Err(ValidationError::DirectionOutOfRange)
        } else if self.apoapsis_altitude < 0 || self.apoapsis_altitude > MAX_APOAPSIS {
            Err(ValidationError::ApoapsisOutOfRange)
        } else if self.hover_altitude < 0 {
            Err(ValidationError::NegativeHoverAltitude)
        } else {
            Ok(())
        }
    }
}

/// An immutable snapshot of checked parameters, taken when a session is
/// launched: later edits of the operator's fields do not reach it.
pub struct FlightParameters {
    ip_address: String,
    initial_altitude: i64,
    direction: i64,
    apoapsis_altitude: i64,
    circularize_in_apoapsis: bool,
    hover_altitude: i64,
}

impl View for FlightParameters {
    type V = ParamsView;

    closed spec fn view(&self) -> ParamsView {
        ParamsView {
            ip_address: self.ip_address@,
            initial_altitude: self.initial_altitude as int,
            direction: self.direction as int,
            apoapsis_altitude: self.apoapsis_altitude as int,
            circularize_in_apoapsis: self.circularize_in_apoapsis,
            hover_altitude: self.hover_altitude as int,
        }
    }
}

impl FlightParameters {
    /// Validates `raw` and copies it into a snapshot.
    pub fn from_raw(raw: &RawParameters) -> (r: Result<FlightParameters, ValidationError>)
        ensures
            r is Ok <==> validation_error(raw@) is None,
            r matches Err(e) ==> validation_error(raw@) == Some(e),
            r matches Ok(p) ==> p@ == raw@,
    {
        match raw.validate() {
            Err(e) => Err(e),
            Ok(()) => Ok(FlightParameters {
                ip_address: raw.ip_address.clone(),
                initial_altitude: raw.initial_altitude,
                direction: raw.direction,
                apoapsis_altitude: raw.apoapsis_altitude,
                circularize_in_apoapsis: raw.circularize_in_apoapsis,
                hover_altitude: raw.hover_altitude,
            }),
        }
    }

    /// The remote endpoint's address.
    pub fn ip_address(&self) -> (r: &String)
        ensures
            r@ == self@.ip_address,
    {
        &self.ip_address
    }

    /// The altitude at which the gravity turn starts, in millimetres.
    pub fn initial_altitude(&self) -> (r: i64)
        ensures
            r == self@.initial_altitude,
    {
        self.initial_altitude
    }

    /// The heading, in thousandths of a degree.
    pub fn direction(&self) -> (r: i64)
        ensures
            r == self@.direction,
    {
        self.direction
    }

    /// The target apoapsis, in millimetres.
    pub fn apoapsis_altitude(&self) -> (r: i64)
        ensures
            r == self@.apoapsis_altitude,
    {
        self.apoapsis_altitude
    }

    /// Whether a launch ends with a circularization at apoapsis.
    pub fn circularize_in_apoapsis(&self) -> (r: bool)
        ensures
            r == self@.circularize_in_apoapsis,
    {
        self.circularize_in_apoapsis
    }

    /// The altitude to hold while hovering, in millimetres.
    pub fn hover_altitude(&self) -> (r: i64)
        ensures
            r == self@.hover_altitude,
    {
        self.hover_altitude
    }
}

} // verus!
