//! The writer: one file, one set of options, and the upload of a byte source
//! to it in a single shot.

use crate::buffer::{aggregate, WriteBuf};
use crate::error::{Phase, WriteError};
use crate::protocol::{accepted, waiting, Action, Event, Stage, State, Upload};
use crate::request::{AsyncBody, CreateRequest, OpWrite, OpWriteView, UpdateRequest};
use std::sync::Arc;
use vstd::prelude::*;

verus! {

/// Writes one file in a single shot: a create request, then one request
/// that carries the whole content.
///
/// The writer shares the handle `core` to whatever builds, signs and sends
/// the requests. It never calls through the handle: [`AzdlsWriter::step`]
/// says what is to be done, and the driver that owns the connection does it.
pub struct AzdlsWriter<C> {
    core: Arc<C>,
    op: OpWrite,
    path: String,
}

impl<C> AzdlsWriter<C> {
    #[verifier::type_invariant]
    spec fn well_formed(&self) -> bool {
        self.path@.len() > 0
    }

    /// The handle that this writer shares.
    pub closed spec fn shared_core(&self) -> Arc<C> {
        self.core
    }

    /// The path of the file that this writer targets.
    pub closed spec fn target(&self) -> Seq<char> {
        self.path@
    }

    /// The options of the write.
    pub closed spec fn options(&self) -> OpWriteView {
        self.op@
    }

    /// The upload of `content` by this writer.
    pub open spec fn upload(&self, content: Seq<u8>) -> Upload {
        Upload { path: self.target(), op: self.options(), content }
    }

    /// A writer for the file at `path`, which is not empty, with the options
    /// `op`.
    pub fn new(core: Arc<C>, op: OpWrite, path: String) -> (writer: AzdlsWriter<C>)
        requires
            path@.len() > 0,
        ensures
            writer.shared_core() == core,
            writer.options() == op@,
            writer.target() == path@,
    {
        AzdlsWriter { core, op, path }
    }

    /// The handle that this writer shares.
    pub fn handle(&self) -> (handle: &Arc<C>)
        ensures
            *handle == self.shared_core(),
    {
        &self.core
    }

    /// The options of the write.
    pub fn op(&self) -> (op: &OpWrite)
        ensures
            op@ == self.options(),
    {
        &self.op
    }

    /// The path of the file that this writer targets. It is never empty.
    pub fn path(&self) -> (path: &str)
        ensures
            path@ == self.target(),
            path@.len() > 0,
    {
        proof {
            use_type_invariant(self);
        }
        self.path.as_str()
    }

    /// The description of the create request: a resource of kind `file` at
    /// this writer's path, with this writer's options and no body.
    pub fn create_request(&self) -> (request: CreateRequest)
        ensures
            request@ == self.upload(Seq::empty()).create_request(),
            request@.path.len() > 0,
    {
        proof {
            use_type_invariant(self);
        }
        CreateRequest {
            path: self.path.clone(),
            resource: "file",
            op: self.op.duplicate(),
            body: AsyncBody::Empty,
        }
    }

    /// The description of the request that writes the content: this writer's
    /// path, and as body all that remains in `source`, in order, with
    /// exactly its length declared.
    pub fn update_request<B: WriteBuf>(&self, source: &B) -> (request: UpdateRequest)
        ensures
            request@ == self.upload(source.remaining_bytes()).update_request(),
            request@.path.len() > 0,
    {
        proof {
            use_type_invariant(self);
        }
        let body = aggregate(source);
        UpdateRequest {
            path: self.path.clone(),
            size: Some(body.len()),
            body: AsyncBody::ChunkedBytes(body),
        }
    }

    fn respond<B: WriteBuf>(&self, phase: Phase, stage: Stage, event: Event, source: &B) -> (next:
        (State, Action))
        ensures
            (next.0, next.1@) == self.upload(source.remaining_bytes()).respond(phase, stage, event),
    {
        match (stage, event) {
            (Stage::Sign, Event::Signed(Ok(_))) => (waiting(phase, Stage::Send), Action::Send),
            (Stage::Sign, Event::Signed(Err(e))) => (
                State::Failed(phase),
                Action::Return(Err(WriteError::Transport(e))),
            ),
            (Stage::Send, Event::Response(Ok(status))) => {
                if accepted(phase, status) {
                    (waiting(phase, Stage::Consume), Action::Consume)
                } else {
                    (waiting(phase, Stage::Parse), Action::ParseError)
                }
            },
            (Stage::Send, Event::Response(Err(e))) => (
                State::Failed(phase),
                Action::Return(Err(WriteError::Transport(e))),
            ),
            (Stage::Consume, Event::Consumed(Ok(_))) => match phase {
                Phase::Create => (
                    State::Created(Stage::Sign),
                    Action::SignUpdate(self.update_request(source)),
                ),
                Phase::Update => (State::Written, Action::Return(Ok(()))),
            },
            (Stage::Consume, Event::Consumed(Err(e))) => (
                State::Failed(phase),
                Action::Return(Err(WriteError::Body(e))),
            ),
            (Stage::Parse, Event::Parsed(Ok(error))) => (
                State::Failed(phase),
                Action::Return(Err(WriteError::UnexpectedStatus { phase, error })),
            ),
            (Stage::Parse, Event::Parsed(Err(e))) => (
                State::Failed(phase),
                Action::Return(Err(WriteError::Body(e))),
            ),
            _ => (waiting(phase, stage), Action::Unexpected),
        }
    }

    /// Takes the upload of `source` one step on: from `state`, on `event`,
    /// to the next state and the action that is due then.
    ///
    /// The upload begins in [`State::Init`] with [`Event::Start`]. After
    /// that, each event reports the outcome of the action that was issued
    /// last. An event that `state` does not wait for changes nothing and is
    /// answered with [`Action::Unexpected`].
    pub fn step<B: WriteBuf>(&self, state: State, event: Event, source: &B) -> (next: (
        State,
        Action,
    ))
        ensures
            (next.0, next.1@) == self.upload(source.remaining_bytes()).transition(state, event),
    {
        match state {
            State::Init => match event {
                Event::Start => (
                    State::Creating(Stage::Sign),
                    Action::SignCreate(self.create_request()),
                ),
                _ => (State::Init, Action::Unexpected),
            },
            State::Creating(stage) => self.respond(Phase::Create, stage, event, source),
            State::Created(stage) => self.respond(Phase::Update, stage, event, source),
            State::Written => (State::Written, Action::Unexpected),
            State::Failed(phase) => (State::Failed(phase), Action::Unexpected),
        }
    }
}

} // verus!
