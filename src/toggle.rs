use crate::token::CancellationToken;
use vstd::prelude::*;

verus! {

/// The operator's abort control, as a function of the token's value.
#[derive(Clone, Copy, Debug, PartialEq, Eq, Structural)]
pub enum ToggleState {
    /// No stop requested; the control offers to abort.
    Armed,
    /// A stop is requested; the control offers to restore.
    Tripped,
}

/// The state that a token holding `requested` shows.
pub open spec fn state_of(requested: bool) -> ToggleState {
    if requested {
        ToggleState::Tripped
    } else {
        ToggleState::Armed
    }
}

/// The token value that a state stands for.
pub open spec fn requested_of(s: ToggleState) -> bool {
    s == ToggleState::Tripped
}

/// The other state.
pub open spec fn toggle_of(s: ToggleState) -> ToggleState {
    match s {
        ToggleState::Armed => ToggleState::Tripped,
        ToggleState::Tripped => ToggleState::Armed,
    }
}

/// The text on the control in state `s`.
pub open spec fn label_of(s: ToggleState) -> Seq<char> {
    match s {
        ToggleState::Armed => "Abort"@,
        ToggleState::Tripped => "Restore"@,
    }
}

impl ToggleState {
    /// The state that a token holding `requested` shows.
    pub fn from_token(requested: bool) -> (r: ToggleState)
        ensures
            r == state_of(requested),
    {
        if requested {
            ToggleState::Tripped
        } else {
            ToggleState::Armed
        }
    }

    /// The token value that this state stands for.
    pub fn requested(self) -> (r: bool)
        ensures
            r == requested_of(self),
    {
        match self {
            ToggleState::Armed => false,
            ToggleState::Tripped => true,
        }
    }

    /// The state after the control is pressed.
    pub fn toggled(self) -> (r: ToggleState)
        ensures
            r == toggle_of(self),
    {
        match self {
            ToggleState::Armed => ToggleState::Tripped,
            ToggleState::Tripped => ToggleState::Armed,
        }
    }

    /// The text on the control.
    pub fn label(self) -> (r: &'static str)
        ensures
            r@ == label_of(self),
    {
        match self {
            ToggleState::Armed => "Abort",
            ToggleState::Tripped => "Restore",
        }
    }
}

/// The label is a function of the token's value alone: "Abort" while no stop
/// is requested, "Restore" while one is; pressing flips the token's value,
/// and pressing twice brings back the original state and label.
pub proof fn lemma_label_round_trip(requested: bool)
    ensures
        label_of(state_of(false)) == "Abort"@,
        label_of(state_of(true)) == "Restore"@,
        requested_of(state_of(requested)) == requested,
        requested_of(toggle_of(state_of(requested))) == !requested,
        toggle_of(toggle_of(state_of(requested))) == state_of(requested),
        label_of(toggle_of(toggle_of(state_of(requested)))) == label_of(state_of(requested)),
{
}

/// The operator-facing control over a shared cancellation token. It keeps
/// no state of its own: its state is read from the token each time.
pub struct AbortToggle {
    token: CancellationToken,
}

impl AbortToggle {
    /// Whether this control reads and writes the flag of `token`.
    pub closed spec fn shares(&self, token: &CancellationToken) -> bool {
        self.token.same_flag(token)
    }

    /// A control over `token`, sharing its flag.
    pub fn new(token: &CancellationToken) -> (r: AbortToggle)
        ensures
            r.shares(token),
    {
        AbortToggle { token: token.share() }
    }

    /// The state shown by the token's current value.
    pub fn state(&self) -> (r: ToggleState) {
        ToggleState::from_token(self.token.get())
    }

    /// The current label, read from the token.
    pub fn label(&self) -> (r: &'static str)
        ensures
            r@ == "Abort"@ || r@ == "Restore"@,
    {
        self.state().label()
    }

    /// Presses the control: reads the token and stores the opposite value.
    /// Returns the state read and the state stored.
    pub fn press(&self) -> (r: (ToggleState, ToggleState))
        ensures
            r.1 == toggle_of(r.0),
    {
        let before = self.state();
        let after = before.toggled();
        self.token.set(after.requested());
        (before, after)
    }
}

} // verus!
