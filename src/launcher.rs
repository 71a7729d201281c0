use crate::params::{validation_error, FlightParameters, RawParameters, ValidationError};
use crate::session::{fresh_session, pipeline_of, Command, FlightSession};
use crate::token::CancellationToken;
use vstd::prelude::*;

verus! {

/// Everything that one launched session owns: its parameter snapshot, its
/// handle on the shared cancellation token, and its state machine.
pub struct Launch {
    pub params: FlightParameters,
    pub token: CancellationToken,
    pub session: FlightSession,
}

/// Starts sessions for operator commands, all of them sharing one
/// cancellation token.
pub struct SessionLauncher {
    token: CancellationToken,
}

impl SessionLauncher {
    /// Whether this launcher's sessions observe the flag of `token`.
    pub closed spec fn shares(&self, token: &CancellationToken) -> bool {
        self.token.same_flag(token)
    }

    /// A launcher whose sessions observe `token`.
    pub fn new(token: &CancellationToken) -> (r: SessionLauncher)
        ensures
            r.shares(token),
    {
        SessionLauncher { token: token.share() }
    }

    /// Validates `raw` and, if it holds, prepares a session for `command` on
    /// a snapshot of it. Nothing is prepared, and so no connection can be
    /// opened, for parameters that fail validation.
    pub fn launch(&self, raw: &RawParameters, command: Command) -> (r: Result<Launch, ValidationError>)
        ensures
            r is Ok <==> validation_error(raw@) is None,
            r matches Err(e) ==> validation_error(raw@) == Some(e),
            r matches Ok(l) ==> {
                &&& l.params@ == raw@
                &&& self.shares(&l.token)
                &&& l.session@ == fresh_session(pipeline_of(command, raw.circularize_in_apoapsis))
                &&& l.session@.wf()
            },
    {
        match FlightParameters::from_raw(raw) {
            Err(e) => Err(e),
            Ok(params) => {
                let session = FlightSession::new(command, raw.circularize_in_apoapsis);
                Ok(Launch { params, token: self.token.share(), session })
            },
        }
    }
}

} // verus!
