//! The rules of the exchange: which request is due when, and what each
//! answer of the service leads to.
//!
//! The upload is a machine that takes one event at a time. Each event is the
//! outcome of the action that the machine issued last; the machine answers
//! with its next state and the next action. It performs no action itself.

use crate::error::{BodyError, Phase, StructuredError, TransportError, WriteError};
use crate::request::{
    BodyView, CreateRequest, CreateRequestView, OpWriteView, UpdateRequest, UpdateRequestView,
};
use crate::status::{create_accepted, create_accepts, update_accepted, update_accepts};
use vstd::prelude::*;

verus! {

/// What a phase is waiting for.
#[derive(Clone, Copy, Debug, PartialEq, Eq, Structural)]
pub enum Stage {
    /// The request is built; its signature is awaited.
    Sign,
    /// The request is signed and sent; its response is awaited.
    Send,
    /// The status was accepted; the response body is being drained.
    Consume,
    /// The status was refused; the response body is being parsed for the
    /// error that the service reports.
    Parse,
}

/// How far an upload has come.
#[derive(Clone, Copy, Debug, PartialEq, Eq, Structural)]
pub enum State {
    /// Nothing has been asked of the service.
    Init,
    /// The create phase is under way.
    Creating(Stage),
    /// The service accepted the create request; the update phase is under
    /// way.
    Created(Stage),
    /// The service accepted the content. The upload succeeded.
    Written,
    /// The upload failed in the given phase.
    Failed(Phase),
}

/// The outcome of an action, as the driver reports it.
#[derive(Debug, PartialEq, Eq)]
pub enum Event {
    /// The caller asks for the upload to begin.
    Start,
    /// The signer has answered.
    Signed(Result<(), TransportError>),
    /// The transport has answered, with the status of the response.
    Response(Result<u16, TransportError>),
    /// The body of an accepted response was drained, or could not be.
    Consumed(Result<(), BodyError>),
    /// The body of a refused response was parsed, or could not be.
    Parsed(Result<StructuredError, BodyError>),
}

/// What the driver is to do next.
#[derive(Debug, PartialEq, Eq)]
pub enum Action {
    /// Build the create request from this description and sign it.
    SignCreate(CreateRequest),
    /// Build the request that writes the content from this description and
    /// sign it.
    SignUpdate(UpdateRequest),
    /// Send the request that was signed last.
    Send,
    /// Drain the body of the response that was received last.
    Consume,
    /// Parse the body of the response that was received last into the error
    /// that the service reports.
    ParseError,
    /// Hand this result to the caller: the upload is over.
    Return(Result<(), WriteError>),
    /// The event does not answer what the upload is waiting for. Nothing
    /// has changed.
    Unexpected,
}

/// The model of [`Action`].
pub enum ActionView {
    SignCreate(CreateRequestView),
    SignUpdate(UpdateRequestView),
    Send,
    Consume,
    ParseError,
    Return(Result<(), WriteError>),
    Unexpected,
}

impl View for Action {
    type V = ActionView;

    open spec fn view(&self) -> ActionView {
        match self {
            Action::SignCreate(request) => ActionView::SignCreate(request@),
            Action::SignUpdate(request) => ActionView::SignUpdate(request@),
            Action::Send => ActionView::Send,
            Action::Consume => ActionView::Consume,
            Action::ParseError => ActionView::ParseError,
            Action::Return(result) => ActionView::Return(*result),
            Action::Unexpected => ActionView::Unexpected,
        }
    }
}

/// Whether `phase` accepts `status`: the create phase accepts 201 and 200,
/// the update phase 200 and 202.
pub open spec fn accepts(phase: Phase, status: u16) -> bool {
    match phase {
        Phase::Create => create_accepts(status),
        Phase::Update => update_accepts(status),
    }
}

/// Whether `phase` accepts `status`.
pub fn accepted(phase: Phase, status: u16) -> (accepted: bool)
    ensures
        accepted == accepts(phase, status),
{
    match phase {
        Phase::Create => create_accepted(status),
        Phase::Update => update_accepted(status),
    }
}

/// The state of an upload that is in `phase`, waiting at `stage`.
pub open spec fn in_flight(phase: Phase, stage: Stage) -> State {
    match phase {
        Phase::Create => State::Creating(stage),
        Phase::Update => State::Created(stage),
    }
}

/// The state of an upload that is in `phase`, waiting at `stage`.
pub fn waiting(phase: Phase, stage: Stage) -> (state: State)
    ensures
        state == in_flight(phase, stage),
{
    match phase {
        Phase::Create => State::Creating(stage),
        Phase::Update => State::Created(stage),
    }
}

/// The model of one upload: the file it targets, the options of the write,
/// and the bytes to be written.
pub struct Upload {
    pub path: Seq<char>,
    pub op: OpWriteView,
    pub content: Seq<u8>,
}

impl Upload {
    /// The create request: for a resource of kind `file` at the upload's
    /// path, with the upload's options and no body.
    pub open spec fn create_request(self) -> CreateRequestView {
        CreateRequestView {
            path: self.path,
            resource: "file"@,
            op: self.op,
            body: BodyView::Empty,
        }
    }

    /// The request that writes the content: for the same path, with the
    /// whole content as its body and the content's length declared.
    pub open spec fn update_request(self) -> UpdateRequestView {
        UpdateRequestView {
            path: self.path,
            size: Some(self.content.len() as usize),
            body: BodyView::ChunkedBytes(self.content),
        }
    }

    /// What `event` leads to while `phase` waits at `stage`: the next state
    /// and the action that is due then.
    pub open spec fn respond(self, phase: Phase, stage: Stage, event: Event) -> (
        State,
        ActionView,
    ) {
        match (stage, event) {
            (Stage::Sign, Event::Signed(Ok(_))) => (in_flight(phase, Stage::Send), ActionView::Send),
            (Stage::Sign, Event::Signed(Err(e))) => (
                State::Failed(phase),
                ActionView::Return(Err(WriteError::Transport(e))),
            ),
            (Stage::Send, Event::Response(Ok(status))) => if accepts(phase, status) {
                (in_flight(phase, Stage::Consume), ActionView::Consume)
            } else {
                (in_flight(phase, Stage::Parse), ActionView::ParseError)
            },
            (Stage::Send, Event::Response(Err(e))) => (
                State::Failed(phase),
                ActionView::Return(Err(WriteError::Transport(e))),
            ),
            (Stage::Consume, Event::Consumed(Ok(_))) => match phase {
                Phase::Create => (
                    State::Created(Stage::Sign),
                    ActionView::SignUpdate(self.update_request()),
                ),
                Phase::Update => (State::Written, ActionView::Return(Ok(()))),
            },
            (Stage::Consume, Event::Consumed(Err(e))) => (
                State::Failed(phase),
                ActionView::Return(Err(WriteError::Body(e))),
            ),
            (Stage::Parse, Event::Parsed(Ok(error))) => (
                State::Failed(phase),
                ActionView::Return(Err(WriteError::UnexpectedStatus { phase, error })),
            ),
            (Stage::Parse, Event::Parsed(Err(e))) => (
                State::Failed(phase),
                ActionView::Return(Err(WriteError::Body(e))),
            ),
            _ => (in_flight(phase, stage), ActionView::Unexpected),
        }
    }

    /// What `event` leads to in `state`: the next state and the action that
    /// is due then. An event that `state` does not wait for changes nothing.
    pub open spec fn transition(self, state: State, event: Event) -> (State, ActionView) {
        match state {
            State::Init => match event {
                Event::Start => (
                    State::Creating(Stage::Sign),
                    ActionView::SignCreate(self.create_request()),
                ),
                _ => (State::Init, ActionView::Unexpected),
            },
            State::Creating(stage) => self.respond(Phase::Create, stage, event),
            State::Created(stage) => self.respond(Phase::Update, stage, event),
            State::Written => (State::Written, ActionView::Unexpected),
            State::Failed(phase) => (State::Failed(phase), ActionView::Unexpected),
        }
    }
}

impl State {
    /// Whether the upload is over.
    pub open spec fn terminal(self) -> bool {
        self is Written || self is Failed
    }

    /// Whether the upload is over.
    pub fn is_terminal(&self) -> (over: bool)
        ensures
            over == self.terminal(),
    {
        match self {
            State::Written => true,
            State::Failed(_) => true,
            _ => false,
        }
    }

    /// The phase that is under way, if one is.
    pub fn phase(&self) -> (phase: Option<Phase>)
        ensures
            phase == match *self {
                State::Creating(_) => Some(Phase::Create),
                State::Created(_) => Some(Phase::Update),
                _ => None,
            },
    {
        match self {
            State::Creating(_) => Some(Phase::Create),
            State::Created(_) => Some(Phase::Update),
            _ => None,
        }
    }
}

} // verus!
