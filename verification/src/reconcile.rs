use vstd::prelude::*;

use crate::fetch::{FetchOutcome, FetchOutcomeModel};
use crate::response::{Response, Verified};

verus! {

/// Why a reconciliation run failed.
///
/// Status classification is best effort, but payment identity and
/// gateway-reported errors are hard failures, so each of these ends the run
/// at once.
#[derive(Clone, Debug, PartialEq)]
pub enum ReconcileError {
    /// The baseline status fetch reported no status at all.
    NotFound,
    /// The gateway reported an explicit error, at the baseline fetch or at
    /// any later one; the message is the gateway's own.
    GatewayError(String),
    /// The status moved away from the baseline without reaching the target.
    StatusMismatch { observed: String, expected: String },
    /// A reply was not a JSON document, lacked the members a status lookup
    /// is owed, or typed one of them wrongly.
    MalformedResponse,
    /// A round trip itself failed: the request could not be sent, or its
    /// reply could not be read.  Such failures end the run at once; no
    /// transport retry is attempted.
    TransportError(String),
    /// The response under reconciliation has no payment identity (a
    /// checkout link), so there is nothing to poll for.
    UnsupportedVariant,
}

/// Mathematical shape of a [`ReconcileError`].
pub enum ReconcileErrorModel {
    NotFound,
    GatewayError(Seq<char>),
    StatusMismatch { observed: Seq<char>, expected: Seq<char> },
    MalformedResponse,
    TransportError(Seq<char>),
    UnsupportedVariant,
}

impl View for ReconcileError {
    type V = ReconcileErrorModel;

    open spec fn view(&self) -> ReconcileErrorModel {
        match self {
            ReconcileError::NotFound => ReconcileErrorModel::NotFound,
            ReconcileError::GatewayError(message) => ReconcileErrorModel::GatewayError(message@),
            ReconcileError::StatusMismatch { observed, expected } =>
                ReconcileErrorModel::StatusMismatch {
                observed: observed@,
                expected: expected@,
            },
            ReconcileError::MalformedResponse => ReconcileErrorModel::MalformedResponse,
            ReconcileError::TransportError(message) => ReconcileErrorModel::TransportError(
                message@,
            ),
            ReconcileError::UnsupportedVariant => ReconcileErrorModel::UnsupportedVariant,
        }
    }
}

/// The human-readable line that [`ReconcileError::message`] renders.
pub open spec fn message_model(error: ReconcileErrorModel) -> Seq<char> {
    match error {
        ReconcileErrorModel::NotFound => "Payment not found"@,
        ReconcileErrorModel::GatewayError(message) => message,
        ReconcileErrorModel::StatusMismatch { observed, expected } => "Received status '"@
            + observed + "', but expected '"@ + expected + "'"@,
        ReconcileErrorModel::MalformedResponse => "Malformed gateway response"@,
        ReconcileErrorModel::TransportError(message) => "Transport error: "@ + message,
        ReconcileErrorModel::UnsupportedVariant => "Payment response carries no payment id"@,
    }
}

impl ReconcileError {
    /// The failure as one human-readable line.  A gateway-reported error
    /// passes the gateway's message through verbatim.
    pub fn message(&self) -> (message: String)
        ensures
            message@ == message_model(self@),
    {
        match self {
            ReconcileError::NotFound => String::from_str("Payment not found"),
            ReconcileError::GatewayError(text) => text.clone(),
            ReconcileError::StatusMismatch { observed, expected } => String::from_str(
                "Received status '",
            ).concat(observed.as_str()).concat("', but expected '").concat(
                expected.as_str(),
            ).concat("'"),
            ReconcileError::MalformedResponse => String::from_str("Malformed gateway response"),
            ReconcileError::TransportError(text) => String::from_str("Transport error: ").concat(
                text.as_str(),
            ),
            ReconcileError::UnsupportedVariant => String::from_str(
                "Payment response carries no payment id",
            ),
        }
    }
}

/// Where a reconciliation run stands between two fetches.
#[derive(Clone, Debug, PartialEq)]
pub enum ReconcileState {
    /// No fetch interpreted yet; the next one establishes the baseline.
    Baseline,
    /// The baseline is on record and fetches are being compared to it.
    /// `polled` says whether a polling fetch has already answered
    /// inconclusively: the first polling fetch goes out right after the
    /// baseline, each later one waits out the interval first.
    Polling { baseline: String, polled: bool },
    /// Absorbing: the run has its outcome and no further fetch occurs.
    Finished { outcome: Verified<ReconcileError> },
}

/// Mathematical shape of a [`ReconcileState`].
pub enum ReconcileStateModel {
    Baseline,
    Polling { baseline: Seq<char>, polled: bool },
    Finished { outcome: Verified<ReconcileErrorModel> },
}

impl View for ReconcileState {
    type V = ReconcileStateModel;

    open spec fn view(&self) -> ReconcileStateModel {
        match self {
            ReconcileState::Baseline => ReconcileStateModel::Baseline,
            ReconcileState::Polling { baseline, polled } => ReconcileStateModel::Polling {
                baseline: baseline@,
                polled: *polled,
            },
            ReconcileState::Finished { outcome } => ReconcileStateModel::Finished {
                outcome: match outcome {
                    Verified::Success => Verified::Success,
                    Verified::Fail(error) => Verified::Fail(error@),
                },
            },
        }
    }
}

/// What the engine asks its driver to do next: issue a fetch right away,
/// pause for the polling interval and then fetch, pause once more and then
/// stop (the demand of a run that just succeeded), or stop at once.
#[derive(Clone, Copy, Debug, PartialEq, Eq, Structural)]
pub enum ReconcileAction {
    Fetch,
    WaitThenFetch,
    WaitThenStop,
    Stop,
}

/// The transition relation of the engine, one interpreted fetch at a time.
///
/// A failed round trip, a malformed reply or a gateway-reported error ends
/// the run wherever it stands.  The first reported status becomes the
/// baseline — or, missing, ends the run as not found.  After that, the
/// target ends the run successfully, any other departure from the baseline
/// is a definitive mismatch, and an unchanged status (or a reply with no
/// status at all) keeps the poll going.  Entering the poll leaves `polled`
/// clear and every inconclusive poll sets it, which is what paces the
/// driver (see [`action_model`]).  A finished run absorbs every further
/// event.
pub open spec fn next_model(
    state: ReconcileStateModel,
    target: Seq<char>,
    event: FetchOutcomeModel,
) -> ReconcileStateModel {
    match state {
        ReconcileStateModel::Finished { .. } => state,
        ReconcileStateModel::Baseline => match event {
            FetchOutcomeModel::Transport(message) => failed_model(
                ReconcileErrorModel::TransportError(message),
            ),
            FetchOutcomeModel::Malformed => failed_model(ReconcileErrorModel::MalformedResponse),
            FetchOutcomeModel::GatewayError(message) => failed_model(
                ReconcileErrorModel::GatewayError(message),
            ),
            FetchOutcomeModel::NoStatus => failed_model(ReconcileErrorModel::NotFound),
            FetchOutcomeModel::Observed { status, .. } => ReconcileStateModel::Polling {
                baseline: status,
                polled: false,
            },
        },
        ReconcileStateModel::Polling { baseline, .. } => match event {
            FetchOutcomeModel::Transport(message) => failed_model(
                ReconcileErrorModel::TransportError(message),
            ),
            FetchOutcomeModel::Malformed => failed_model(ReconcileErrorModel::MalformedResponse),
            FetchOutcomeModel::GatewayError(message) => failed_model(
                ReconcileErrorModel::GatewayError(message),
            ),
            FetchOutcomeModel::NoStatus => ReconcileStateModel::Polling {
                baseline,
                polled: true,
            },
            FetchOutcomeModel::Observed { status, .. } => if status == target {
                ReconcileStateModel::Finished { outcome: Verified::Success }
            } else if status != baseline {
                failed_model(
                    ReconcileErrorModel::StatusMismatch { observed: status, expected: target },
                )
            } else {
                ReconcileStateModel::Polling { baseline, polled: true }
            },
        },
    }
}

/// A run that just failed with `error`.
pub open spec fn failed_model(error: ReconcileErrorModel) -> ReconcileStateModel {
    ReconcileStateModel::Finished { outcome: Verified::Fail(error) }
}

/// The action each state asks of the driver: the baseline fetch and the
/// first polling fetch go out at once; after an inconclusive poll the next
/// fetch waits out the polling interval; a failed run stops with no pause,
/// and a successful one observes the interval once more before stopping.
/// That is the cadence of a driver that pauses after each inconclusive or
/// successful poll and never before a deciding one.
pub open spec fn action_model(state: ReconcileStateModel) -> ReconcileAction {
    match state {
        ReconcileStateModel::Baseline => ReconcileAction::Fetch,
        ReconcileStateModel::Polling { polled, .. } => if polled {
            ReconcileAction::WaitThenFetch
        } else {
            ReconcileAction::Fetch
        },
        ReconcileStateModel::Finished { outcome } => match outcome {
            Verified::Success => ReconcileAction::WaitThenStop,
            Verified::Fail(_) => ReconcileAction::Stop,
        },
    }
}

/// The shapes of a recorded sequence of interpreted fetches.
pub open spec fn events_model(events: Seq<FetchOutcome>) -> Seq<FetchOutcomeModel> {
    events.map_values(|event: FetchOutcome| event@)
}

/// Where a run that starts in `state` stands after interpreting `events`
/// in order: the fold of [`next_model`] over the sequence.
pub open spec fn run_model(
    state: ReconcileStateModel,
    target: Seq<char>,
    events: Seq<FetchOutcomeModel>,
) -> ReconcileStateModel
    decreases events.len(),
{
    if events.len() == 0 {
        state
    } else {
        run_model(next_model(state, target, events[0]), target, events.skip(1))
    }
}

/// A finished run absorbs every event: no fetch changes it, and it demands
/// no further fetch of the driver — a failed run stops at once, a
/// successful one after observing the interval once more.
pub proof fn lemma_finished_absorbing(
    state: ReconcileStateModel,
    target: Seq<char>,
    event: FetchOutcomeModel,
)
    requires
        state is Finished,
    ensures
        next_model(state, target, event) == state,
        action_model(state) == ReconcileAction::Stop || action_model(state)
            == ReconcileAction::WaitThenStop,
{
}

/// The polling engine of one reconciliation run: it holds the payment
/// under watch, the status the caller awaits, and where the run stands.
/// Its driver performs the round trips and hands each interpreted fetch to
/// [`Reconciler::step`]; the engine decides everything else.
///
/// The gateway never promises to reach the target, so a run may poll
/// without bound; a driver that must not is free to stop fetching and
/// abandon the engine, which holds no resource beyond its own state.
#[derive(Clone, Debug, PartialEq)]
pub struct Reconciler {
    pub payment_id: String,
    pub target: String,
    pub state: ReconcileState,
}

/// Mathematical shape of a [`Reconciler`].
pub struct ReconcilerModel {
    pub payment_id: Seq<char>,
    pub target: Seq<char>,
    pub state: ReconcileStateModel,
}

impl View for Reconciler {
    type V = ReconcilerModel;

    open spec fn view(&self) -> ReconcilerModel {
        ReconcilerModel {
            payment_id: self.payment_id@,
            target: self.target@,
            state: self.state@,
        }
    }
}

impl Reconciler {
    /// Begin a reconciliation run for `response`, awaiting `target`.
    /// Succeeds exactly when the response has a payment identity; a
    /// checkout link is refused before any fetch goes out.
    pub fn new(response: &Response, target: String) -> (engine: Result<Reconciler, ReconcileError>)
        ensures
            (engine is Ok) == (response.spec_payment_id() is Some),
            engine matches Ok(started) ==> {
                &&& started@.state is Baseline
                &&& started@.target == target@
                &&& Some(started@.payment_id) == response.spec_payment_id()
            },
            engine matches Err(error) ==> error is UnsupportedVariant,
    {
        match response {
            Response::Checkout(_) => Err(ReconcileError::UnsupportedVariant),
            Response::Card(payment) => Ok(
                Reconciler {
                    payment_id: payment.payment_id.clone(),
                    target,
                    state: ReconcileState::Baseline,
                },
            ),
            Response::Pix(payment) => Ok(
                Reconciler {
                    payment_id: payment.payment_id.clone(),
                    target,
                    state: ReconcileState::Baseline,
                },
            ),
        }
    }

    /// The action the engine asks of its driver in its present state.
    pub fn next_action(&self) -> (action: ReconcileAction)
        ensures
            action == action_model(self@.state),
    {
        match &self.state {
            ReconcileState::Baseline => ReconcileAction::Fetch,
            ReconcileState::Polling { polled, .. } => if *polled {
                ReconcileAction::WaitThenFetch
            } else {
                ReconcileAction::Fetch
            },
            ReconcileState::Finished { outcome } => match outcome {
                Verified::Success => ReconcileAction::WaitThenStop,
                Verified::Fail(_) => ReconcileAction::Stop,
            },
        }
    }

    /// Feed one interpreted fetch to the engine.  The run advances by
    /// exactly [`next_model`], nothing else changes, and the returned
    /// action is the new state's.
    pub fn step(&mut self, event: FetchOutcome) -> (action: ReconcileAction)
        ensures
            final(self)@.payment_id == old(self)@.payment_id,
            final(self)@.target == old(self)@.target,
            final(self)@.state == next_model(old(self)@.state, old(self)@.target, event@),
            action == action_model(final(self)@.state),
    {
        let baseline: Option<String> = match &self.state {
            ReconcileState::Finished { .. } => {
                return self.next_action();
            },
            ReconcileState::Baseline => None,
            ReconcileState::Polling { baseline, .. } => Some(baseline.clone()),
        };
        let next: ReconcileState = match event {
            FetchOutcome::Transport(message) => Self::failed(
                ReconcileError::TransportError(message),
            ),
            FetchOutcome::Malformed => Self::failed(ReconcileError::MalformedResponse),
            FetchOutcome::GatewayError(message) => Self::failed(
                ReconcileError::GatewayError(message),
            ),
            FetchOutcome::NoStatus => match baseline {
                None => Self::failed(ReconcileError::NotFound),
                Some(seen) => ReconcileState::Polling { baseline: seen, polled: true },
            },
            FetchOutcome::Observed { status, cause: _ } => match baseline {
                None => ReconcileState::Polling { baseline: status, polled: false },
                Some(seen) => {
                    if status == self.target {
                        ReconcileState::Finished { outcome: Verified::Success }
                    } else if !(status == seen) {
                        Self::failed(
                            ReconcileError::StatusMismatch {
                                observed: status,
                                expected: self.target.clone(),
                            },
                        )
                    } else {
                        ReconcileState::Polling { baseline: seen, polled: true }
                    }
                },
            },
        };
        self.state = next;
        self.next_action()
    }

    /// Feed a recorded sequence of interpreted fetches to the engine, in
    /// order.  The run ends up exactly where [`run_model`] folds it; a run
    /// that finishes partway absorbs the rest of the sequence unchanged.
    pub fn replay(&mut self, events: Vec<FetchOutcome>)
        ensures
            final(self)@.payment_id == old(self)@.payment_id,
            final(self)@.target == old(self)@.target,
            final(self)@.state == run_model(
                old(self)@.state,
                old(self)@.target,
                events_model(events@),
            ),
    {
        let mut remaining = events;
        while remaining.len() > 0
            invariant
                self@.payment_id == old(self)@.payment_id,
                self@.target == old(self)@.target,
                run_model(self@.state, self@.target, events_model(remaining@)) == run_model(
                    old(self)@.state,
                    old(self)@.target,
                    events_model(events@),
                ),
            decreases remaining@.len(),
        {
            let ghost before = remaining@;
            let event = remaining.remove(0);
            proof {
                assert(events_model(remaining@) =~= events_model(before).skip(1));
            }
            self.step(event);
        }
    }

    /// The run's outcome once it is finished, with each failure rendered
    /// as its message line; `None` while the run still polls.
    pub fn outcome(&self) -> (outcome: Option<Verified<String>>)
        ensures
            (outcome is Some) == (self@.state is Finished),
            self@.state matches ReconcileStateModel::Finished { outcome: Verified::Success }
                ==> outcome == Some(Verified::<String>::Success),
            self@.state matches ReconcileStateModel::Finished { outcome: Verified::Fail(error) }
                ==> (outcome matches Some(Verified::Fail(message)) && message@ == message_model(
                error,
            )),
    {
        match &self.state {
            ReconcileState::Finished { outcome } => match outcome {
                Verified::Success => Some(Verified::Success),
                Verified::Fail(error) => Some(Verified::Fail(error.message())),
            },
            _ => None,
        }
    }

    fn failed(error: ReconcileError) -> (state: ReconcileState)
        ensures
            state@ == failed_model(error@),
    {
        ReconcileState::Finished { outcome: Verified::Fail(error) }
    }
}

} // verus!
