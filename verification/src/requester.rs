//! The requester: one session sends one command to one endpoint and reads
//! the one line that comes back.
//!
//! The session decides; whoever drives it connects, writes and reads. The
//! driver of a fresh session connects to [`Requester::endpoint`] and reports
//! how that went. Each call of [`Requester::step`] takes what happened and
//! says what to do next.

use crate::options::CxlFmOptions;
use crate::response::law_response_line_is_well_formed;
use crate::response::law_response_round_trip;
use crate::response::Response;
use crate::wire::encode;
use crate::wire::encode_spec;
use crate::wire::first_line;
use crate::wire::first_line_spec;
use crate::wire::law_empty_line;
use crate::wire::law_round_trip;
use vstd::prelude::*;
use vstd::string::StringExecFns;

verus! {

/// Where a request stands.
#[derive(Clone, Copy, Debug, PartialEq, Eq, Structural)]
pub enum RequesterState {
    /// The connection is being opened.
    Connecting,
    /// The request line is being written.
    Sending,
    /// The response line is being read.
    AwaitingResponse,
    /// The exchange is over and its outcome is known.
    Closed,
}

/// Why a request brought no response.
#[derive(Clone, Copy, Debug, PartialEq, Eq, Structural)]
pub enum RequestError {
    /// The connection could not be opened.
    ConnectFailed,
    /// The request could not be written in full.
    WriteFailed,
    /// The response could not be read.
    ReadFailed,
    /// The peer closed the connection without sending a line.
    NoResponse,
}

/// What happened on the connection since the last step.
pub enum RequesterEvent {
    /// The connection is open.
    Connected,
    /// The connection could not be opened.
    ConnectFailed,
    /// The request line was written and flushed in full.
    Written,
    /// The write failed.
    WriteFailed,
    /// The read ended. The text is what arrived, up to and including the
    /// first line feed or up to the end of the stream; it is empty when the
    /// peer closed without sending anything.
    Received(String),
    /// The read failed.
    ReadFailed,
}

/// A [`RequesterEvent`] with its text as a sequence of characters.
pub enum RequesterInput {
    Connected,
    ConnectFailed,
    Written,
    WriteFailed,
    Received(Seq<char>),
    ReadFailed,
}

impl View for RequesterEvent {
    type V = RequesterInput;

    open spec fn view(&self) -> RequesterInput {
        match self {
            RequesterEvent::Connected => RequesterInput::Connected,
            RequesterEvent::ConnectFailed => RequesterInput::ConnectFailed,
            RequesterEvent::Written => RequesterInput::Written,
            RequesterEvent::WriteFailed => RequesterInput::WriteFailed,
            RequesterEvent::Received(text) => RequesterInput::Received(text@),
            RequesterEvent::ReadFailed => RequesterInput::ReadFailed,
        }
    }
}

/// What the driver of a request does next.
#[derive(Clone, Copy, Debug, PartialEq, Eq, Structural)]
pub enum RequesterAction {
    /// Write [`Requester::request_line`] in full, flush, and report
    /// [`RequesterEvent::Written`] or [`RequesterEvent::WriteFailed`].
    Send,
    /// Read one line and report [`RequesterEvent::Received`] or
    /// [`RequesterEvent::ReadFailed`].
    Receive,
    /// Close the connection if it is open. The outcome is in
    /// [`Requester::outcome`].
    Close,
}

/// A request as the contracts see it.
pub struct RequesterView {
    pub state: RequesterState,
    /// The address and port of the peer.
    pub endpoint: Seq<char>,
    /// The command to send.
    pub command: Seq<char>,
    /// The response line, or why there is none; `None` until the exchange is
    /// over.
    pub outcome: Option<Result<Seq<char>, RequestError>>,
}

/// One transition of a request.
///
/// The steps follow one another: connect, send, receive, close. The first
/// step that fails ends the request with its error, and so does any event
/// other than the one a state waits for. A peer that closes without a line
/// gives [`RequestError::NoResponse`]. Once closed, a request stays as it is.
pub open spec fn requester_step(request: RequesterView, input: RequesterInput) -> (
    RequesterView,
    RequesterAction,
) {
    match request.state {
        RequesterState::Connecting => match input {
            RequesterInput::Connected => (
                RequesterView { state: RequesterState::Sending, ..request },
                RequesterAction::Send,
            ),
            _ => (closed_with(request, Err(RequestError::ConnectFailed)), RequesterAction::Close),
        },
        RequesterState::Sending => match input {
            RequesterInput::Written => (
                RequesterView { state: RequesterState::AwaitingResponse, ..request },
                RequesterAction::Receive,
            ),
            _ => (closed_with(request, Err(RequestError::WriteFailed)), RequesterAction::Close),
        },
        RequesterState::AwaitingResponse => match input {
            RequesterInput::Received(text) => match first_line_spec(text) {
                Some(line) => (closed_with(request, Ok(line)), RequesterAction::Close),
                None => (
                    closed_with(request, Err(RequestError::NoResponse)),
                    RequesterAction::Close,
                ),
            },
            _ => (closed_with(request, Err(RequestError::ReadFailed)), RequesterAction::Close),
        },
        RequesterState::Closed => (request, RequesterAction::Close),
    }
}

/// `request` once it is over with `outcome`.
pub open spec fn closed_with(
    request: RequesterView,
    outcome: Result<Seq<char>, RequestError>,
) -> RequesterView {
    RequesterView { state: RequesterState::Closed, outcome: Some(outcome), ..request }
}

/// One request to one endpoint.
pub struct Requester {
    state: RequesterState,
    endpoint: String,
    command: String,
    response: Option<String>,
    error: Option<RequestError>,
}

impl View for Requester {
    type V = RequesterView;

    closed spec fn view(&self) -> RequesterView {
        RequesterView {
            state: self.state,
            endpoint: self.endpoint@,
            command: self.command@,
            outcome: match (self.response, self.error) {
                (_, Some(error)) => Some(Err(error)),
                (Some(line), None) => Some(Ok(line@)),
                (None, None) => None,
            },
        }
    }
}

impl Requester {
    /// A fresh request for `command` to the endpoint of `options`.
    pub fn new(options: &CxlFmOptions, command: &str) -> (request: Requester)
        ensures
            request@ == (RequesterView {
                state: RequesterState::Connecting,
                endpoint: options.ip_port@,
                command: command@,
                outcome: None,
            }),
    {
        Requester {
            state: RequesterState::Connecting,
            endpoint: options.ip_port.clone(),
            command: String::from_str(command),
            response: None,
            error: None,
        }
    }

    /// Where the request stands.
    pub fn state(&self) -> (state: RequesterState)
        ensures
            state == self@.state,
    {
        self.state
    }

    /// The address and port to connect to.
    pub fn endpoint(&self) -> (endpoint: &str)
        ensures
            endpoint@ == self@.endpoint,
    {
        self.endpoint.as_str()
    }

    /// The command that the request sends.
    pub fn command(&self) -> (command: &str)
        ensures
            command@ == self@.command,
    {
        self.command.as_str()
    }

    /// The line to write: the command and a line feed.
    pub fn request_line(&self) -> (line: String)
        ensures
            line@ == encode_spec(self@.command),
    {
        encode(self.command.as_str())
    }

    /// The outcome of the request: the response line, or why there is none.
    /// `None` as long as the exchange is under way.
    pub fn outcome(&self) -> (outcome: Option<Result<String, RequestError>>)
        ensures
            match outcome {
                Some(Ok(line)) => self@.outcome == Some(Ok::<Seq<char>, RequestError>(line@)),
                Some(Err(error)) => self@.outcome == Some(Err::<Seq<char>, RequestError>(error)),
                None => self@.outcome is None,
            },
    {
        match self.error {
            Some(error) => Some(Err(error)),
            None => match &self.response {
                Some(line) => Some(Ok(line.clone())),
                None => None,
            },
        }
    }

    /// Ends the request with `error`.
    fn fail(&mut self, error: RequestError)
        ensures
            final(self)@ == closed_with(old(self)@, Err(error)),
    {
        self.state = RequesterState::Closed;
        self.error = Some(error);
    }

    /// Takes what happened and says what to do next.
    pub fn step(&mut self, event: RequesterEvent) -> (action: RequesterAction)
        ensures
            (final(self)@, action) == requester_step(old(self)@, event@),
    {
        match self.state {
            RequesterState::Connecting => {
                if let RequesterEvent::Connected = event {
                    self.state = RequesterState::Sending;
                    RequesterAction::Send
                } else {
                    self.fail(RequestError::ConnectFailed);
                    RequesterAction::Close
                }
            },
            RequesterState::Sending => {
                if let RequesterEvent::Written = event {
                    self.state = RequesterState::AwaitingResponse;
                    RequesterAction::Receive
                } else {
                    self.fail(RequestError::WriteFailed);
                    RequesterAction::Close
                }
            },
            RequesterState::AwaitingResponse => {
                if let RequesterEvent::Received(text) = event {
                    match first_line(text.as_str()) {
                        Some(line) => {
                            self.state = RequesterState::Closed;
                            self.response = Some(line);
                            self.error = None;
                        },
                        None => {
                            self.fail(RequestError::NoResponse);
                        },
                    }
                } else {
                    self.fail(RequestError::ReadFailed);
                }
                RequesterAction::Close
            },
            RequesterState::Closed => RequesterAction::Close,
        }
    }
}

/// A request fed with `inputs` one after the other: how it stands in the end.
pub open spec fn requester_run(request: RequesterView, inputs: Seq<RequesterInput>) -> RequesterView
    decreases inputs.len(),
{
    if inputs.len() == 0 {
        request
    } else {
        requester_run(requester_step(request, inputs[0]).0, inputs.drop_first())
    }
}

/// A request that meets no failure brings back the line that the peer sent:
/// it connects, sends, receives and closes, in that order.
pub proof fn law_request_brings_response(request: RequesterView, line: Seq<char>)
    requires
        request.state is Connecting,
        forall|i: int| 0 <= i < line.len() ==> line[i] != '\n' && line[i] != '\r',
    ensures
        requester_run(
            request,
            seq![
                RequesterInput::Connected,
                RequesterInput::Written,
                RequesterInput::Received(encode_spec(line)),
            ],
        ) == closed_with(request, Ok(line)),
{
    let inputs = seq![
        RequesterInput::Connected,
        RequesterInput::Written,
        RequesterInput::Received(encode_spec(line)),
    ];
    let second = inputs.drop_first();
    let third = second.drop_first();
    assert(third.drop_first().len() == 0);
    reveal_with_fuel(requester_run, 4);
    if line.len() == 0 {
        law_empty_line();
        assert(encode_spec(line) =~= seq!['\n']);
        assert(line =~= Seq::<char>::empty());
    } else {
        law_round_trip(line);
    }
}

/// What a responder writes is what the requester reports: a request that
/// receives the line of `response` ends with the text of that response, from
/// which the response is read back.
pub proof fn law_response_is_read_back(request: RequesterView, response: Response)
    requires
        request.state is AwaitingResponse,
    ensures
        requester_step(request, RequesterInput::Received(response.line_spec())) == (
            closed_with(request, Ok(response.text_spec())),
            RequesterAction::Close,
        ),
        Response::parse_spec(response.text_spec()) == Some(response),
{
    law_response_line_is_well_formed(response);
    law_response_round_trip(response);
}

/// A request is over after three events at most, with an outcome, and
/// nothing that happens afterwards changes it.
pub proof fn law_request_ends(request: RequesterView, inputs: Seq<RequesterInput>)
    requires
        inputs.len() >= 3 || request.state is Closed,
        request.state is Closed ==> request.outcome is Some,
    ensures
        requester_run(request, inputs).state is Closed,
        requester_run(request, inputs).outcome is Some,
        request.state is Closed ==> requester_run(request, inputs) == request,
{
    lemma_request_progress(request, inputs);
}

/// How many events a request in `state` can still take before it is closed.
pub open spec fn request_steps_left(state: RequesterState) -> nat {
    match state {
        RequesterState::Connecting => 3,
        RequesterState::Sending => 2,
        RequesterState::AwaitingResponse => 1,
        RequesterState::Closed => 0,
    }
}

/// Every event brings a request closer to its end; a closed request has an
/// outcome and keeps it.
pub proof fn lemma_request_progress(request: RequesterView, inputs: Seq<RequesterInput>)
    requires
        request.state is Closed ==> request.outcome is Some,
    ensures
        request_steps_left(requester_run(request, inputs).state) + inputs.len()
            <= request_steps_left(request.state) || requester_run(request, inputs).state is Closed,
        requester_run(request, inputs).state is Closed ==> requester_run(
            request,
            inputs,
        ).outcome is Some,
        request.state is Closed ==> requester_run(request, inputs) == request,
        requester_run(request, inputs).endpoint == request.endpoint,
        requester_run(request, inputs).command == request.command,
    decreases inputs.len(),
{
    if inputs.len() > 0 {
        lemma_request_progress(requester_step(request, inputs[0]).0, inputs.drop_first());
    }
}

} // verus!
