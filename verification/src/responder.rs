//! The responder: one session answers exactly one request and closes.
//!
//! The session decides; whoever drives it reads, runs the handler and writes.
//! A fresh session waits for the request line. Each call of
//! [`Responder::step`] takes what happened and says what to do next.

use crate::catalog::Catalog;
use crate::response::execute;
use crate::response::execute_spec;
use crate::response::Response;
use crate::vocabulary::Command;
use crate::wire::decode;
use crate::wire::decode_spec;
use crate::wire::encode_spec;
use crate::wire::first_line;
use crate::wire::first_line_spec;
use crate::wire::law_empty_line;
use crate::wire::law_line_of_encoded;
use crate::wire::law_round_trip;
use crate::wire::survives_the_wire;
use vstd::prelude::*;
use vstd::string::StringExecFns;

verus! {

/// Where a session stands.
#[derive(Clone, Copy, Debug, PartialEq, Eq, Structural)]
pub enum ResponderState {
    /// Nothing was read yet.
    AwaitingRequest,
    /// A handler is at work on the request.
    Dispatching,
    /// The response was handed over for writing.
    Responded,
    /// The exchange is over.
    Closed,
}

/// What happened on the connection since the last step.
pub enum ResponderEvent {
    /// The read ended. The text is what arrived, up to and including the
    /// first line feed or up to the end of the stream; it is empty when the
    /// peer closed without sending anything.
    Received(String),
    /// The read failed.
    ReadFailed,
    /// The handler finished with this response.
    Handled(Response),
    /// The response was written and flushed in full.
    Written,
    /// The write failed.
    WriteFailed,
}

/// A [`ResponderEvent`] with its text as a sequence of characters.
pub enum ResponderInput {
    Received(Seq<char>),
    ReadFailed,
    Handled(Response),
    Written,
    WriteFailed,
}

impl View for ResponderEvent {
    type V = ResponderInput;

    open spec fn view(&self) -> ResponderInput {
        match self {
            ResponderEvent::Received(text) => ResponderInput::Received(text@),
            ResponderEvent::ReadFailed => ResponderInput::ReadFailed,
            ResponderEvent::Handled(response) => ResponderInput::Handled(*response),
            ResponderEvent::Written => ResponderInput::Written,
            ResponderEvent::WriteFailed => ResponderInput::WriteFailed,
        }
    }
}

/// What the driver of a session does next.
#[derive(Debug, PartialEq, Eq)]
pub enum ResponderAction<H> {
    /// Run this handler and report its response with
    /// [`ResponderEvent::Handled`].
    Invoke(H),
    /// Write the line of this response, flush, and report
    /// [`ResponderEvent::Written`] or [`ResponderEvent::WriteFailed`].
    Respond(Response),
    /// Close the connection. The session is over.
    Close,
}

/// One transition of a session over the catalog `handlers`.
///
/// A request line that names a registered command has its handler invoked;
/// any other line, the empty one included, is answered with
/// [`Response::UnknownCommand`]. Whatever the handler reports is the
/// response. Anything else than the event a state waits for ends the session
/// without a response, as does the end of the write.
pub open spec fn responder_step<H>(
    handlers: Map<Seq<char>, H>,
    state: ResponderState,
    input: ResponderInput,
) -> (ResponderState, ResponderAction<H>) {
    match (state, input) {
        (ResponderState::AwaitingRequest, ResponderInput::Received(text)) => {
            match first_line_spec(text) {
                Some(line) => {
                    if handlers.contains_key(decode_spec(line)) {
                        (
                            ResponderState::Dispatching,
                            ResponderAction::Invoke(handlers[decode_spec(line)]),
                        )
                    } else {
                        (
                            ResponderState::Responded,
                            ResponderAction::Respond(Response::UnknownCommand),
                        )
                    }
                },
                None => (ResponderState::Closed, ResponderAction::Close),
            }
        },
        (ResponderState::Dispatching, ResponderInput::Handled(response)) => (
            ResponderState::Responded,
            ResponderAction::Respond(response),
        ),
        _ => (ResponderState::Closed, ResponderAction::Close),
    }
}

/// A session fed with `inputs` one after the other: the state it ends in and
/// the actions it asked for.
pub open spec fn responder_run<H>(
    handlers: Map<Seq<char>, H>,
    state: ResponderState,
    inputs: Seq<ResponderInput>,
) -> (ResponderState, Seq<ResponderAction<H>>)
    decreases inputs.len(),
{
    if inputs.len() == 0 {
        (state, Seq::empty())
    } else {
        let (next, action) = responder_step(handlers, state, inputs[0]);
        let (last, actions) = responder_run(handlers, next, inputs.drop_first());
        (last, seq![action] + actions)
    }
}

/// The number of responses among `actions`.
pub open spec fn responses_in<H>(actions: Seq<ResponderAction<H>>) -> nat
    decreases actions.len(),
{
    if actions.len() == 0 {
        0
    } else {
        let rest = responses_in(actions.drop_first());
        if actions[0] is Respond {
            rest + 1
        } else {
            rest
        }
    }
}

/// The line that a responder whose handlers are those of [`execute`] writes
/// when it has received `received`: `None` where no request line arrived.
pub open spec fn respond_spec(handlers: Map<Seq<char>, Command>, received: Seq<char>) -> Option<
    Seq<char>,
> {
    match first_line_spec(received) {
        Some(line) => {
            if handlers.contains_key(decode_spec(line)) {
                Some(execute_spec(handlers[decode_spec(line)]).line_spec())
            } else {
                Some(Response::UnknownCommand.line_spec())
            }
        },
        None => None,
    }
}

/// One session of a responder.
pub struct Responder {
    state: ResponderState,
}

impl View for Responder {
    type V = ResponderState;

    closed spec fn view(&self) -> ResponderState {
        self.state
    }
}

impl Responder {
    /// A fresh session, which waits for the request line.
    pub fn new() -> (session: Responder)
        ensures
            session@ == ResponderState::AwaitingRequest,
    {
        Responder { state: ResponderState::AwaitingRequest }
    }

    /// Where the session stands.
    pub fn state(&self) -> (state: ResponderState)
        ensures
            state == self@,
    {
        self.state
    }

    /// Takes what happened and says what to do next.
    pub fn step<H: Copy>(&mut self, catalog: &Catalog<H>, event: ResponderEvent) -> (action:
        ResponderAction<H>)
        requires
            catalog.wf(),
        ensures
            (final(self)@, action) == responder_step(catalog@, old(self)@, event@),
    {
        match self.state {
            ResponderState::AwaitingRequest => {
                if let ResponderEvent::Received(text) = event {
                    if let Some(line) = first_line(text.as_str()) {
                        let id = decode(line.as_str());
                        match catalog.lookup(id.as_str()) {
                            Some(handler) => {
                                self.state = ResponderState::Dispatching;
                                return ResponderAction::Invoke(*handler);
                            },
                            None => {
                                self.state = ResponderState::Responded;
                                return ResponderAction::Respond(Response::UnknownCommand);
                            },
                        }
                    }
                }
            },
            ResponderState::Dispatching => {
                if let ResponderEvent::Handled(response) = event {
                    self.state = ResponderState::Responded;
                    return ResponderAction::Respond(response);
                }
            },
            _ => {},
        }
        self.state = ResponderState::Closed;
        ResponderAction::Close
    }
}

/// Answers one connection whose handlers are those of [`execute`]: takes what
/// was received and gives the line to write back, or `None` where the peer
/// closed without a request and nothing is written.
pub fn handle_connection(catalog: &Catalog<Command>, received: &str) -> (response: Option<String>)
    requires
        catalog.wf(),
    ensures
        match response {
            Some(line) => respond_spec(catalog@, received@) == Some(line@),
            None => respond_spec(catalog@, received@) is None,
        },
{
    let mut session = Responder::new();
    let event = ResponderEvent::Received(String::from_str(received));
    match session.step(catalog, event) {
        ResponderAction::Invoke(command) => {
            let outcome = execute(command);
            match session.step(catalog, ResponderEvent::Handled(outcome)) {
                ResponderAction::Respond(response) => Some(response.line()),
                _ => None,
            }
        },
        ResponderAction::Respond(response) => Some(response.line()),
        ResponderAction::Close => None,
    }
}

/// A registered command is answered once. A fresh session that receives the
/// encoded identifier invokes the handler registered under it, hands the
/// handler's response over for writing, and closes when the write ends.
pub proof fn law_registered_command_is_answered<H>(
    catalog: Catalog<H>,
    id: Seq<char>,
    response: Response,
)
    requires
        catalog.wf(),
        catalog@.contains_key(id),
    ensures
        responder_run(
            catalog@,
            ResponderState::AwaitingRequest,
            seq![
                ResponderInput::Received(encode_spec(id)),
                ResponderInput::Handled(response),
                ResponderInput::Written,
            ],
        ) == (
            ResponderState::Closed,
            seq![
                ResponderAction::Invoke(catalog@[id]),
                ResponderAction::Respond(response),
                ResponderAction::Close,
            ],
        ),
{
    catalog.lemma_wf();
    law_round_trip(id);
    let inputs = seq![
        ResponderInput::Received(encode_spec(id)),
        ResponderInput::Handled(response),
        ResponderInput::Written,
    ];
    let second = inputs.drop_first();
    let third = second.drop_first();
    assert(third.drop_first().len() == 0);
    reveal_with_fuel(responder_run, 4);
    let run = responder_run(catalog@, ResponderState::AwaitingRequest, inputs);
    assert(run.1 =~= seq![
        ResponderAction::Invoke(catalog@[id]),
        ResponderAction::Respond(response),
        ResponderAction::Close,
    ]);
}

/// A request that names no registered command is answered with
/// [`Response::UnknownCommand`], and the session closes when the write ends.
pub proof fn law_unknown_command_is_answered<H>(catalog: Catalog<H>, received: Seq<char>)
    requires
        catalog.wf(),
        first_line_spec(received) is Some,
        !catalog@.contains_key(decode_spec(first_line_spec(received)->0)),
    ensures
        responder_run(
            catalog@,
            ResponderState::AwaitingRequest,
            seq![ResponderInput::Received(received), ResponderInput::Written],
        ) == (
            ResponderState::Closed,
            seq![
                ResponderAction::<H>::Respond(Response::UnknownCommand),
                ResponderAction::<H>::Close,
            ],
        ),
{
    let inputs = seq![ResponderInput::Received(received), ResponderInput::Written];
    let second = inputs.drop_first();
    assert(second.drop_first().len() == 0);
    reveal_with_fuel(responder_run, 3);
    let run = responder_run(catalog@, ResponderState::AwaitingRequest, inputs);
    assert(run.1 =~= seq![
        ResponderAction::<H>::Respond(Response::UnknownCommand),
        ResponderAction::<H>::Close,
    ]);
}

/// A text that is not registered is an unknown command when it is sent as a
/// request, as long as the line that arrives is not registered either. (A
/// text that holds a line feed, or ends in a carriage return, arrives as a
/// shorter line.)
pub proof fn law_unregistered_text_is_unknown<H>(catalog: Catalog<H>, text: Seq<char>)
    requires
        catalog.wf(),
        !catalog@.contains_key(text),
        !catalog@.contains_key(decode_spec(first_line_spec(encode_spec(text))->0)),
    ensures
        responder_run(
            catalog@,
            ResponderState::AwaitingRequest,
            seq![ResponderInput::Received(encode_spec(text)), ResponderInput::Written],
        ) == (
            ResponderState::Closed,
            seq![
                ResponderAction::<H>::Respond(Response::UnknownCommand),
                ResponderAction::<H>::Close,
            ],
        ),
{
    law_line_of_encoded(text);
    law_unknown_command_is_answered(catalog, encode_spec(text));
}

/// For a text that holds no line feed and does not end in a carriage return
/// it is enough that it is not registered: it is an unknown command.
pub proof fn law_unregistered_plain_text_is_unknown<H>(catalog: Catalog<H>, text: Seq<char>)
    requires
        catalog.wf(),
        !catalog@.contains_key(text),
        survives_the_wire(text),
    ensures
        responder_step(
            catalog@,
            ResponderState::AwaitingRequest,
            ResponderInput::Received(encode_spec(text)),
        ) == (ResponderState::Responded, ResponderAction::<H>::Respond(Response::UnknownCommand)),
{
    law_line_of_encoded(text);
}

/// An empty request line is an unknown command, whatever the catalog holds.
pub proof fn law_empty_line_is_unknown<H>(catalog: Catalog<H>)
    requires
        catalog.wf(),
    ensures
        responder_step(
            catalog@,
            ResponderState::AwaitingRequest,
            ResponderInput::Received(seq!['\n']),
        ) == (ResponderState::Responded, ResponderAction::<H>::Respond(Response::UnknownCommand)),
{
    catalog.lemma_wf();
    law_empty_line();
}

/// A session asks for at most one response, whatever it is fed with.
pub proof fn law_at_most_one_response<H>(
    handlers: Map<Seq<char>, H>,
    state: ResponderState,
    inputs: Seq<ResponderInput>,
)
    ensures
        responses_in(responder_run(handlers, state, inputs).1) <= 1,
        state is Responded || state is Closed ==> responses_in(
            responder_run(handlers, state, inputs).1,
        ) == 0,
    decreases inputs.len(),
{
    let actions = responder_run(handlers, state, inputs).1;
    if inputs.len() > 0 {
        let (next, action) = responder_step(handlers, state, inputs[0]);
        let rest = responder_run(handlers, next, inputs.drop_first()).1;
        law_at_most_one_response(handlers, next, inputs.drop_first());
        assert(actions == seq![action] + rest);
        assert(actions[0] == action);
        assert(actions.drop_first() =~= rest);
    }
}

/// A session is over after three events at most, and stays over.
pub proof fn law_session_ends<H>(
    handlers: Map<Seq<char>, H>,
    state: ResponderState,
    inputs: Seq<ResponderInput>,
)
    requires
        inputs.len() >= 3 || state is Closed,
    ensures
        responder_run(handlers, state, inputs).0 is Closed,
{
    lemma_run_lowers_rank(handlers, state, inputs);
}

/// How many events a session in `state` can still take before it is closed.
pub open spec fn steps_left(state: ResponderState) -> nat {
    match state {
        ResponderState::AwaitingRequest => 3,
        ResponderState::Dispatching => 2,
        ResponderState::Responded => 1,
        ResponderState::Closed => 0,
    }
}

/// Every event brings a session closer to its end.
pub proof fn lemma_run_lowers_rank<H>(
    handlers: Map<Seq<char>, H>,
    state: ResponderState,
    inputs: Seq<ResponderInput>,
)
    ensures
        steps_left(responder_run(handlers, state, inputs).0) + inputs.len() <= steps_left(state)
            || responder_run(handlers, state, inputs).0 is Closed,
    decreases inputs.len(),
{
    if inputs.len() > 0 {
        let (next, action) = responder_step::<H>(handlers, state, inputs[0]);
        lemma_run_lowers_rank(handlers, next, inputs.drop_first());
    }
}

/// Exchanges do not depend on one another: what a responder answers is
/// settled by its catalog and the request line alone, so the same request
/// gets the same response on every connection.
pub proof fn law_same_request_same_response(
    handlers: Map<Seq<char>, Command>,
    first: Seq<char>,
    second: Seq<char>,
)
    requires
        first_line_spec(first) == first_line_spec(second),
    ensures
        respond_spec(handlers, first) == respond_spec(handlers, second),
{
}

/// The line written for a request is the line of the response that the
/// session asks for.
pub proof fn law_respond_follows_session(handlers: Map<Seq<char>, Command>, received: Seq<char>)
    ensures
        match responder_step(
            handlers,
            ResponderState::AwaitingRequest,
            ResponderInput::Received(received),
        ).1 {
            ResponderAction::Invoke(command) => respond_spec(handlers, received) == Some(
                execute_spec(command).line_spec(),
            ),
            ResponderAction::Respond(response) => respond_spec(handlers, received) == Some(
                response.line_spec(),
            ),
            ResponderAction::Close => respond_spec(handlers, received) is None,
        },
{
}

} // verus!
