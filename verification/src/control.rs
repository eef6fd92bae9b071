//! The course of one connection on the control channel.
//!
//! A connection is served step by step. The one who holds the stream does
//! what an `Action` says and reports what came of it as an `Event`; `step`
//! takes the event, and says what to do next. The connection itself is not
//! touched here.
//!
//! A connection waits for an opcode first. A health message is answered
//! with the byte of `HEALTH_REPLY`. A reload message goes on with the length
//! of its payload and with the payload, a configuration that takes the
//! place of the live one as a whole; with a length of zero the
//! configuration is read again from where it was first read. Whatever
//! fails ends the connection and leaves the live configuration as it was.

use crate::config::{
    config_of_bytes, config_of_file, config_of_text, content_view, Config, ConfigError,
    ConfigFailure, ConfigView,
};
use crate::ctl_messages::{
    decode_length, health_frame, length_of, reload_frame, Opcode, OpcodeError, HEALTH_REPLY,
};
use crate::errors::{ServerError, ServerFailure};
use vstd::prelude::*;

verus! {

/// Where a connection stands.
#[derive(Clone, Copy, Debug, PartialEq, Eq, Structural)]
pub enum Session {
    /// It waits for the opcode of a message.
    AwaitOpcode,
    /// It waits for the length of the payload of a reload message.
    AwaitReloadLength,
    /// It waits for the payload of a reload message, of this length.
    AwaitReloadPayload { expected: u16 },
    /// It waits for the configuration to be read again from its source.
    AwaitSource,
    /// It waits for the answer to a message to be written.
    AwaitWrite { opcode: Opcode },
    /// It is over.
    Done,
}

/// What came of an action.
#[derive(Debug)]
pub enum Event {
    /// The bytes that were read: as many as were asked for, or fewer where
    /// the peer closed the connection before.
    Data { bytes: Vec<u8> },
    /// Reading failed.
    ReadFailed { err: std::io::Error },
    /// The bytes were written.
    Written,
    /// Writing failed.
    WriteFailed { err: std::io::Error },
    /// The source of the configuration was read again: its path, and its
    /// content or why it could not be opened.
    Source { path: String, content: Result<Vec<u8>, std::io::Error> },
}

/// An `Event` in plain values. The error of a failure stays in it as it
/// is.
#[allow(inconsistent_fields)]
pub enum EventView {
    Data { bytes: Seq<u8> },
    ReadFailed { err: std::io::Error },
    Written,
    WriteFailed { err: std::io::Error },
    Source { path: Seq<char>, content: Result<Seq<u8>, std::io::Error> },
}

impl View for Event {
    type V = EventView;

    open spec fn view(&self) -> EventView {
        match *self {
            Event::Data { bytes } => EventView::Data { bytes: bytes@ },
            Event::ReadFailed { err } => EventView::ReadFailed { err },
            Event::Written => EventView::Written,
            Event::WriteFailed { err } => EventView::WriteFailed { err },
            Event::Source { path, content } => EventView::Source {
                path: path@,
                content: content_view(content),
            },
        }
    }
}

/// How a connection ended.
#[derive(Debug)]
pub enum Outcome {
    /// The message was handled.
    Handled { opcode: Opcode },
    /// The connection was dropped on a failure, which is to be logged.
    Failed { err: ServerError },
}

/// An `Outcome` in plain values.
pub enum OutcomeView {
    Handled { opcode: Opcode },
    Failed { failure: ServerFailure },
}

impl View for Outcome {
    type V = OutcomeView;

    open spec fn view(&self) -> OutcomeView {
        match *self {
            Outcome::Handled { opcode } => OutcomeView::Handled { opcode },
            Outcome::Failed { err } => OutcomeView::Failed { failure: err@ },
        }
    }
}

/// What to do next with a connection.
#[derive(Debug)]
pub enum Action {
    /// Read this many bytes, or those that come before the peer closes the
    /// connection, and report them.
    Read { count: usize },
    /// Write these bytes, and report whether they were written.
    Write { bytes: Vec<u8> },
    /// Read the source of the configuration again, and report it.
    ReadSource,
    /// Close the connection.
    Close { outcome: Outcome },
}

/// An `Action` in plain values.
pub enum ActionView {
    Read { count: usize },
    Write { bytes: Seq<u8> },
    ReadSource,
    Close { outcome: OutcomeView },
}

impl View for Action {
    type V = ActionView;

    open spec fn view(&self) -> ActionView {
        match *self {
            Action::Read { count } => ActionView::Read { count },
            Action::Write { bytes } => ActionView::Write { bytes: bytes@ },
            Action::ReadSource => ActionView::ReadSource,
            Action::Close { outcome } => ActionView::Close { outcome: outcome@ },
        }
    }
}

/// A step of a connection: where it stands afterwards, what to do next,
/// and the live configuration afterwards.
pub struct Step {
    pub session: Session,
    pub action: ActionView,
    pub config: ConfigView,
}

/// The name of the control channel in a failure.
pub open spec fn channel() -> Seq<char> {
    "CTL"@
}

/// The step that drops the connection on a failure. The live configuration
/// stays.
pub open spec fn dropped(failure: ServerFailure, config: ConfigView) -> Step {
    Step {
        session: Session::Done,
        action: ActionView::Close { outcome: OutcomeView::Failed { failure } },
        config,
    }
}

/// The step that ends a message that was handled.
pub open spec fn handled(opcode: Opcode, config: ConfigView) -> Step {
    Step {
        session: Session::Done,
        action: ActionView::Close { outcome: OutcomeView::Handled { opcode } },
        config,
    }
}

/// The step that takes a new configuration as it was read. It takes the
/// place of the live one where it was read and all its paths are absolute;
/// the connection is dropped and the live one stays otherwise.
pub open spec fn taken(read: Result<ConfigView, ConfigFailure>, config: ConfigView) -> Step {
    match read {
        Err(cause) => dropped(ServerFailure::Reload { what: channel(), cause }, config),
        Ok(new) => match new.relative_path() {
            Some(found) => dropped(
                ServerFailure::Reload {
                    what: channel(),
                    cause: ConfigFailure::RelativePath { field: found.0, delinquint: found.1 },
                },
                config,
            ),
            None => handled(Opcode::Reload, new),
        },
    }
}

/// The step of a connection that waits for an opcode, on the bytes read.
pub open spec fn opcode_step(bytes: Seq<u8>, config: ConfigView) -> Step {
    if bytes.len() == 0 {
        dropped(ServerFailure::EmptyStream { what: channel() }, config)
    } else {
        match Opcode::of_byte(bytes[0]) {
            Err(OpcodeError::UnknownValue { raw }) => dropped(
                ServerFailure::UnknownOpcode { what: channel(), raw },
                config,
            ),
            Ok(Opcode::Health) => Step {
                session: Session::AwaitWrite { opcode: Opcode::Health },
                action: ActionView::Write { bytes: HEALTH_REPLY@ },
                config,
            },
            Ok(Opcode::Reload) => Step {
                session: Session::AwaitReloadLength,
                action: ActionView::Read { count: 2 },
                config,
            },
        }
    }
}

/// The step of a connection that waits for the length of a payload, on the
/// bytes read.
pub open spec fn length_step(bytes: Seq<u8>, config: ConfigView) -> Step {
    match length_of(bytes) {
        None => dropped(
            ServerFailure::IncompleteLength { what: channel(), got: bytes.len() as usize },
            config,
        ),
        Some(expected) => if expected == 0 {
            Step { session: Session::AwaitSource, action: ActionView::ReadSource, config }
        } else {
            Step {
                session: Session::AwaitReloadPayload { expected },
                action: ActionView::Read { count: expected as usize },
                config,
            }
        },
    }
}

/// The step of a connection that waits for a payload of `expected` bytes,
/// on the bytes read.
pub open spec fn payload_step(expected: u16, bytes: Seq<u8>, config: ConfigView) -> Step {
    if bytes.len() != expected {
        dropped(
            ServerFailure::IncorrectConfigSize {
                what: channel(),
                got: bytes.len() as usize,
                expected: expected as usize,
            },
            config,
        )
    } else {
        taken(config_of_bytes(bytes), config)
    }
}

/// The step that a connection makes on an event.
pub open spec fn step_of(session: Session, event: EventView, config: ConfigView) -> Step {
    match (session, event) {
        (Session::AwaitOpcode, EventView::Data { bytes }) => opcode_step(bytes, config),
        (Session::AwaitReloadLength, EventView::Data { bytes }) => length_step(bytes, config),
        (Session::AwaitReloadPayload { expected }, EventView::Data { bytes }) => payload_step(
            expected,
            bytes,
            config,
        ),
        (Session::AwaitOpcode, EventView::ReadFailed { err }) => dropped(
            ServerFailure::StreamRead { what: channel(), err },
            config,
        ),
        (Session::AwaitReloadLength, EventView::ReadFailed { err }) => dropped(
            ServerFailure::StreamRead { what: channel(), err },
            config,
        ),
        (Session::AwaitReloadPayload { .. }, EventView::ReadFailed { err }) => dropped(
            ServerFailure::StreamRead { what: channel(), err },
            config,
        ),
        (Session::AwaitSource, EventView::Source { path, content }) => taken(
            config_of_file(path, content),
            config,
        ),
        (Session::AwaitWrite { opcode }, EventView::Written) => handled(opcode, config),
        (Session::AwaitWrite { .. }, EventView::WriteFailed { err }) => dropped(
            ServerFailure::StreamWrite { what: channel(), err },
            config,
        ),
        _ => dropped(ServerFailure::UnexpectedEvent { what: channel() }, config),
    }
}

/// Drops the connection on a failure.
fn fail(session: &mut Session, err: ServerError) -> (action: Action)
    ensures
        *final(session) == Session::Done,
        action@ == (ActionView::Close { outcome: OutcomeView::Failed { failure: err@ } }),
{
    *session = Session::Done;
    Action::Close { outcome: Outcome::Failed { err } }
}

/// Takes a new configuration as it was read.
fn take(session: &mut Session, read: Result<Config, ConfigError>, config: &mut Config) -> (action:
    Action)
    ensures
        (Step { session: *final(session), action: action@, config: final(config)@ }) == taken(
            match read {
                Ok(new) => Ok(new@),
                Err(e) => Err(e@),
            },
            old(config)@,
        ),
{
    match read {
        Err(err) => fail(session, ServerError::ReloadError { what: "CTL", err }),
        Ok(new) => {
            let mut new = new;
            match new.resolve() {
                Err(err) => fail(session, ServerError::ReloadError { what: "CTL", err }),
                Ok(_) => {
                    *config = new;
                    *session = Session::Done;
                    Action::Close { outcome: Outcome::Handled { opcode: Opcode::Reload } }
                },
            }
        },
    }
}

impl Session {
    /// A connection that was just accepted, and what to do first with it:
    /// read the opcode.
    pub fn start() -> (r: (Session, Action))
        ensures
            r.0 == Session::AwaitOpcode,
            r.1@ == (ActionView::Read { count: 1 }),
    {
        (Session::AwaitOpcode, Action::Read { count: 1 })
    }

    /// Takes what came of the last action, and says what to do next. The
    /// live configuration is replaced where a reload message was handled,
    /// and only there.
    pub fn step(&mut self, event: Event, config: &mut Config) -> (action: Action)
        ensures
            (Step { session: *final(self), action: action@, config: final(config)@ }) == step_of(
                *old(self),
                event@,
                old(config)@,
            ),
    {
        let session: Session = *self;
        match event {
            Event::Data { bytes } => match session {
                Session::AwaitOpcode => {
                    if bytes.len() == 0 {
                        return fail(self, ServerError::EmptyStream { what: "CTL" });
                    }
                    match Opcode::try_from(bytes[0]) {
                        Err(err) => fail(self, ServerError::UnknownOpcode { what: "CTL", err }),
                        Ok(Opcode::Health) => {
                            *self = Session::AwaitWrite { opcode: Opcode::Health };
                            let mut reply: Vec<u8> = Vec::new();
                            reply.push(HEALTH_REPLY[0]);
                            assert(reply@ == HEALTH_REPLY@);
                            Action::Write { bytes: reply }
                        },
                        Ok(Opcode::Reload) => {
                            *self = Session::AwaitReloadLength;
                            Action::Read { count: 2 }
                        },
                    }
                },
                Session::AwaitReloadLength => match decode_length(bytes.as_slice()) {
                    None => fail(
                        self,
                        ServerError::IncompleteLength { what: "CTL", got: bytes.len() },
                    ),
                    Some(expected) => {
                        if expected == 0 {
                            *self = Session::AwaitSource;
                            Action::ReadSource
                        } else {
                            *self = Session::AwaitReloadPayload { expected };
                            Action::Read { count: expected as usize }
                        }
                    },
                },
                Session::AwaitReloadPayload { expected } => {
                    if bytes.len() != expected as usize {
                        return fail(
                            self,
                            ServerError::IncorrectConfigSize {
                                what: "CTL",
                                got: bytes.len(),
                                expected: expected as usize,
                            },
                        );
                    }
                    take(self, Config::from_bytes(bytes.as_slice()), config)
                },
                _ => fail(self, ServerError::UnexpectedEvent { what: "CTL" }),
            },
            Event::ReadFailed { err } => match session {
                Session::AwaitOpcode => fail(self, ServerError::StreamReadError { what: "CTL", err }),
                Session::AwaitReloadLength => fail(
                    self,
                    ServerError::StreamReadError { what: "CTL", err },
                ),
                Session::AwaitReloadPayload { .. } => fail(
                    self,
                    ServerError::StreamReadError { what: "CTL", err },
                ),
                _ => fail(self, ServerError::UnexpectedEvent { what: "CTL" }),
            },
            Event::Written => match session {
                Session::AwaitWrite { opcode } => {
                    *self = Session::Done;
                    Action::Close { outcome: Outcome::Handled { opcode } }
                },
                _ => fail(self, ServerError::UnexpectedEvent { what: "CTL" }),
            },
            Event::WriteFailed { err } => match session {
                Session::AwaitWrite { .. } => fail(
                    self,
                    ServerError::StreamWriteError { what: "CTL", err },
                ),
                _ => fail(self, ServerError::UnexpectedEvent { what: "CTL" }),
            },
            Event::Source { path, content } => match session {
                Session::AwaitSource => take(self, Config::from_file(path.as_str(), content), config),
                _ => fail(self, ServerError::UnexpectedEvent { what: "CTL" }),
            },
        }
    }
}

/// A health message is answered with the one byte 42, and the connection
/// ends when the answer is written. The live configuration stays.
pub proof fn law_health_exchange(config: ConfigView)
    ensures
        ({
            let asked = step_of(Session::AwaitOpcode, EventView::Data { bytes: health_frame() }, config);
            &&& asked.session == Session::AwaitWrite { opcode: Opcode::Health }
            &&& asked.action == ActionView::Write { bytes: seq![42u8] }
            &&& asked.config == config
            &&& step_of(asked.session, EventView::Written, config) == handled(
                Opcode::Health,
                config,
            )
        }),
{
    assert(HEALTH_REPLY@ =~= seq![42u8]);
}

/// A reload message with a configuration as its payload puts that
/// configuration in the place of the live one: the message is read in three
/// steps, the opcode, the length and the payload, and the configuration that
/// the payload holds, with all its paths absolute, is the live one
/// afterwards.
pub proof fn law_reload_replaces_config(payload: Seq<u8>, new: ConfigView, config: ConfigView)
    requires
        0 < payload.len() <= 0xFFFF,
        config_of_text(payload) == Ok::<ConfigView, crate::json::Problem>(new),
        new.resolved(),
    ensures
        ({
            let frame = reload_frame(payload).unwrap();
            let first = step_of(
                Session::AwaitOpcode,
                EventView::Data { bytes: frame.subrange(0, 1) },
                config,
            );
            let second = step_of(
                first.session,
                EventView::Data { bytes: frame.subrange(1, 3) },
                first.config,
            );
            let third = step_of(
                second.session,
                EventView::Data { bytes: frame.subrange(3, frame.len() as int) },
                second.config,
            );
            &&& first.action == ActionView::Read { count: 2 }
            &&& second.action == ActionView::Read { count: payload.len() as usize }
            &&& third == handled(Opcode::Reload, new)
        }),
{
    crate::ctl_messages::law_reload_frame_length(payload);
    let frame = reload_frame(payload).unwrap();
    assert(frame.subrange(0, 1)[0] == frame[0]);
}

/// A payload that is not as long as was announced is refused with both
/// lengths, and the live configuration stays.
pub proof fn law_short_payload(expected: u16, bytes: Seq<u8>, config: ConfigView)
    requires
        bytes.len() != expected,
    ensures
        step_of(Session::AwaitReloadPayload { expected }, EventView::Data { bytes }, config)
            == dropped(
            ServerFailure::IncorrectConfigSize {
                what: channel(),
                got: bytes.len() as usize,
                expected: expected as usize,
            },
            config,
        ),
{
}

/// The live configuration changes as a whole or not at all: a step leaves
/// it as it was unless it ends a reload message that was handled, and a
/// step that drops the connection on a failure always leaves it. Where all
/// paths of the live configuration were absolute, they are so afterwards.
pub proof fn law_config_swapped_whole(session: Session, event: EventView, config: ConfigView)
    ensures
        ({
            let step = step_of(session, event, config);
            &&& step.config != config ==> step.action == (ActionView::Close {
                outcome: OutcomeView::Handled { opcode: Opcode::Reload },
            })
            &&& step.action matches ActionView::Close { outcome: OutcomeView::Failed { .. } }
                ==> step.config == config
            &&& config.resolved() ==> step.config.resolved()
            &&& step.action is Close <==> step.session == Session::Done
        }),
{
}

/// A connection that is over stays over: whatever is reported to it, it is
/// closed again, and the live configuration stays.
pub proof fn law_done_stays_done(event: EventView, config: ConfigView)
    ensures
        step_of(Session::Done, event, config) == dropped(
            ServerFailure::UnexpectedEvent { what: channel() },
            config,
        ),
{
}

} // verus!
