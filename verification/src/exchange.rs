//! Whole uploads: what the protocol does from its first action to its last,
//! for every way in which the signer, the transport and the service may
//! answer.

use crate::error::{BodyError, Phase, StructuredError, TransportError, WriteError};
use crate::protocol::{accepts, ActionView, Event, Stage, State, Upload};
use vstd::prelude::*;

verus! {

/// The answers that one phase gets: each is the outcome of one action, should
/// the protocol come to issue it.
pub struct Answers {
    /// The outcome of signing the request.
    pub signed: Result<(), TransportError>,
    /// The outcome of sending it: the status of the response.
    pub response: Result<u16, TransportError>,
    /// The outcome of draining the body of an accepted response.
    pub consumed: Result<(), BodyError>,
    /// The outcome of parsing the body of a refused response.
    pub parsed: Result<StructuredError, BodyError>,
}

/// The answers that one upload gets, phase by phase.
pub struct Exchange {
    pub create: Answers,
    pub update: Answers,
}

impl Answers {
    /// The event that reports the outcome of what is awaited at `stage`.
    pub open spec fn at(self, stage: Stage) -> Event {
        match stage {
            Stage::Sign => Event::Signed(self.signed),
            Stage::Send => Event::Response(self.response),
            Stage::Consume => Event::Consumed(self.consumed),
            Stage::Parse => Event::Parsed(self.parsed),
        }
    }

    /// The request of `phase` was signed and sent, and the service answered
    /// it with a status that the phase accepts.
    pub open spec fn accepted(self, phase: Phase) -> bool {
        &&& self.signed is Ok
        &&& self.response matches Ok(status)
        &&& accepts(phase, status)
    }

    /// The request of `phase` was signed and sent, and the service answered
    /// it with a status that the phase does not accept.
    pub open spec fn refused(self, phase: Phase) -> bool {
        &&& self.signed is Ok
        &&& self.response matches Ok(status)
        &&& !accepts(phase, status)
    }

    /// The result of `phase` alone, read off its answers in the order in
    /// which they are asked for.
    pub open spec fn result(self, phase: Phase) -> Result<(), WriteError> {
        match self.signed {
            Err(e) => Err(WriteError::Transport(e)),
            Ok(_) => match self.response {
                Err(e) => Err(WriteError::Transport(e)),
                Ok(status) => if accepts(phase, status) {
                    match self.consumed {
                        Err(e) => Err(WriteError::Body(e)),
                        Ok(_) => Ok(()),
                    }
                } else {
                    match self.parsed {
                        Err(e) => Err(WriteError::Body(e)),
                        Ok(error) => Err(WriteError::UnexpectedStatus { phase, error }),
                    }
                },
            },
        }
    }
}

impl Exchange {
    /// The event that reports the outcome of what `state` waits for.
    pub open spec fn answer(self, state: State) -> Event {
        match state {
            State::Creating(stage) => self.create.at(stage),
            State::Created(stage) => self.update.at(stage),
            _ => Event::Start,
        }
    }

    /// The result of the upload: that of the create phase if it fails, else
    /// that of the update phase.
    pub open spec fn result(self) -> Result<(), WriteError> {
        match self.create.result(Phase::Create) {
            Err(e) => Err(e),
            Ok(_) => self.update.result(Phase::Update),
        }
    }
}

/// The greatest number of actions that can still follow in `state`.
pub open spec fn distance(state: State) -> nat {
    match state {
        State::Init => 7,
        State::Creating(Stage::Sign) => 6,
        State::Creating(Stage::Send) => 5,
        State::Creating(Stage::Consume) => 4,
        State::Created(Stage::Sign) => 3,
        State::Created(Stage::Send) => 2,
        State::Creating(Stage::Parse) => 1,
        State::Created(Stage::Consume) => 1,
        State::Created(Stage::Parse) => 1,
        State::Written => 0,
        State::Failed(_) => 0,
    }
}

impl Upload {
    /// The actions that the protocol issues from `state` on, when `event`
    /// comes first and every later event is the answer that `exchange` holds
    /// for the action before it.
    pub open spec fn actions_from(self, exchange: Exchange, state: State, event: Event) -> Seq<
        ActionView,
    >
        decreases distance(state),
    {
        let (next, action) = self.transition(state, event);
        if action is Unexpected || action is Return {
            seq![action]
        } else {
            seq![action] + self.actions_from(exchange, next, exchange.answer(next))
        }
    }

    /// All the actions of one upload, in the order in which they are issued.
    pub open spec fn transcript(self, exchange: Exchange) -> Seq<ActionView> {
        self.actions_from(exchange, State::Init, Event::Start)
    }

    /// The result that the upload hands to its caller: that of the last
    /// action, where this is to return.
    pub open spec fn outcome(self, exchange: Exchange) -> Option<Result<(), WriteError>> {
        match self.transcript(exchange).last() {
            ActionView::Return(result) => Some(result),
            _ => None,
        }
    }
}

/// Every step either changes nothing, or brings the upload nearer to its end:
/// there is no way back. An upload is over exactly when the action is to
/// return, and nothing follows an upload that is over.
pub proof fn law_progress(upload: Upload, state: State, event: Event)
    ensures
        ({
            let (next, action) = upload.transition(state, event);
            &&& action is Unexpected ==> next == state
            &&& !(action is Unexpected) ==> distance(next) < distance(state)
            &&& action is Return <==> next.terminal() && !state.terminal()
            &&& state.terminal() ==> action is Unexpected
        }),
{
}

/// Every upload comes to an end, and exactly once: its last action is to
/// return, and no action before it is. The result is that of the create
/// phase if this fails, else that of the update phase.
pub proof fn law_outcome(upload: Upload, exchange: Exchange)
    ensures
        upload.outcome(exchange) == Some(exchange.result()),
        1 <= upload.transcript(exchange).len() <= 7,
        forall|i: int|
            0 <= i < upload.transcript(exchange).len() - 1 ==> {
                &&& !(#[trigger] upload.transcript(exchange)[i] is Return)
                &&& !(upload.transcript(exchange)[i] is Unexpected)
            },
{
    reveal_with_fuel(Upload::actions_from, 8);
}

/// An upload succeeds if and only if the service answers both requests with
/// an accepted status, as long as the bodies of accepted responses can be
/// drained. When it succeeds, exactly two requests were made, in this
/// order: the create request without a body, and one request that carries
/// the whole content, in its order, with its length declared.
pub proof fn law_success(upload: Upload, exchange: Exchange)
    requires
        !({
            &&& exchange.create.accepted(Phase::Create)
            &&& exchange.update.accepted(Phase::Update)
            &&& (exchange.create.consumed is Err || exchange.update.consumed is Err)
        }),
    ensures
        upload.outcome(exchange) == Some(Ok::<(), WriteError>(())) <==> {
            &&& exchange.create.accepted(Phase::Create)
            &&& exchange.update.accepted(Phase::Update)
        },
        upload.outcome(exchange) == Some(Ok::<(), WriteError>(())) ==> upload.transcript(exchange)
            == seq![
            ActionView::SignCreate(upload.create_request()),
            ActionView::Send,
            ActionView::Consume,
            ActionView::SignUpdate(upload.update_request()),
            ActionView::Send,
            ActionView::Consume,
            ActionView::Return(Ok(())),
        ],
{
    reveal_with_fuel(Upload::actions_from, 8);
}

/// An upload succeeds exactly when, in both phases, the request is signed,
/// the service accepts it, and the body of the response is drained.
pub proof fn law_success_exactly(upload: Upload, exchange: Exchange)
    ensures
        upload.outcome(exchange) == Some(Ok::<(), WriteError>(())) <==> {
            &&& exchange.create.accepted(Phase::Create)
            &&& exchange.create.consumed is Ok
            &&& exchange.update.accepted(Phase::Update)
            &&& exchange.update.consumed is Ok
        },
{
    reveal_with_fuel(Upload::actions_from, 8);
}

/// When the service refuses the create request, the upload fails, and the
/// request that writes the content is never built, signed or sent: the
/// upload ends after the body of the refusal was parsed. The failure carries
/// the error that the service reported, under the phase `Create`, where the
/// body could be parsed.
pub proof fn law_create_refused(upload: Upload, exchange: Exchange)
    requires
        exchange.create.refused(Phase::Create),
    ensures
        upload.transcript(exchange) == seq![
            ActionView::SignCreate(upload.create_request()),
            ActionView::Send,
            ActionView::ParseError,
            ActionView::Return(exchange.result()),
        ],
        forall|i: int|
            0 <= i < upload.transcript(exchange).len() ==> !(
            #[trigger] upload.transcript(exchange)[i] is SignUpdate),
        exchange.result() is Err,
        exchange.create.parsed matches Ok(error) ==> exchange.result() == Err::<(), WriteError>(
            WriteError::UnexpectedStatus { phase: Phase::Create, error },
        ),
        exchange.create.parsed matches Err(e) ==> exchange.result() == Err::<(), WriteError>(
            WriteError::Body(e),
        ),
{
    reveal_with_fuel(Upload::actions_from, 8);
}

/// When the service accepts the create request and refuses the request that
/// writes the content, the upload fails. The failure carries the error that
/// the service reported, under the phase `Update`, where the body could be
/// parsed.
pub proof fn law_update_refused(upload: Upload, exchange: Exchange)
    requires
        exchange.create.accepted(Phase::Create),
        exchange.create.consumed is Ok,
        exchange.update.refused(Phase::Update),
    ensures
        upload.transcript(exchange) == seq![
            ActionView::SignCreate(upload.create_request()),
            ActionView::Send,
            ActionView::Consume,
            ActionView::SignUpdate(upload.update_request()),
            ActionView::Send,
            ActionView::ParseError,
            ActionView::Return(exchange.result()),
        ],
        exchange.result() is Err,
        exchange.update.parsed matches Ok(error) ==> exchange.result() == Err::<(), WriteError>(
            WriteError::UnexpectedStatus { phase: Phase::Update, error },
        ),
        exchange.update.parsed matches Err(e) ==> exchange.result() == Err::<(), WriteError>(
            WriteError::Body(e),
        ),
{
    reveal_with_fuel(Upload::actions_from, 8);
}

/// No phase is begun before the one before it was seen to succeed. The
/// request that writes the content is issued at most once, as the fourth
/// action, after the service accepted the create request and the body of
/// its response was drained. It targets the file that the create request
/// targets, and carries the whole content.
pub proof fn law_update_follows_create(upload: Upload, exchange: Exchange, i: int)
    requires
        0 <= i < upload.transcript(exchange).len(),
        upload.transcript(exchange)[i] is SignUpdate,
    ensures
        i == 3,
        exchange.create.accepted(Phase::Create),
        exchange.create.consumed is Ok,
        upload.transcript(exchange)[0] == ActionView::SignCreate(upload.create_request()),
        upload.transcript(exchange)[1] == ActionView::Send,
        upload.transcript(exchange)[2] == ActionView::Consume,
        upload.transcript(exchange)[3] == ActionView::SignUpdate(upload.update_request()),
        upload.update_request().path == upload.create_request().path,
{
    reveal_with_fuel(Upload::actions_from, 8);
}

/// The request that writes the content declares exactly the length of its
/// body, and its body is the content.
pub proof fn law_declared_length(upload: Upload)
    requires
        upload.content.len() <= usize::MAX,
    ensures
        upload.update_request().body == crate::request::BodyView::ChunkedBytes(upload.content),
        upload.update_request().size matches Some(n) && n == upload.content.len(),
{
}

} // verus!
