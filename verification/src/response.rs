//! The responses of a responder, and the handlers that produce them.

use crate::vocabulary::Command;
use crate::vocabulary::CXL_FM_NO_DATA;
use crate::vocabulary::CXL_FM_UNKNOWN_COMMAND;
use crate::wire::encode;
use crate::wire::encode_spec;
use crate::wire::first_line_spec;
use crate::wire::is_command_id;
use crate::wire::law_encoded_is_one_line;
use crate::wire::law_round_trip;
use crate::wire::line_end;
use crate::wire::same_text;
use vstd::prelude::*;

verus! {

/// What a responder answers.
#[derive(Clone, Copy, Debug, PartialEq, Eq, Structural)]
pub enum Response {
    /// The command was carried out and has nothing to report.
    NoData,
    /// The request named no command of the catalog.
    UnknownCommand,
}

impl Response {
    /// The text of the response, without its line terminator.
    pub open spec fn text_spec(self) -> Seq<char> {
        match self {
            Response::NoData => CXL_FM_NO_DATA@,
            Response::UnknownCommand => CXL_FM_UNKNOWN_COMMAND@,
        }
    }

    /// The response as it travels: its text and a line feed.
    pub open spec fn line_spec(self) -> Seq<char> {
        encode_spec(self.text_spec())
    }

    /// The response that a received line stands for, if it is one.
    pub open spec fn parse_spec(line: Seq<char>) -> Option<Response> {
        if line == CXL_FM_NO_DATA@ {
            Some(Response::NoData)
        } else if line == CXL_FM_UNKNOWN_COMMAND@ {
            Some(Response::UnknownCommand)
        } else {
            None
        }
    }

    /// The text of the response, without its line terminator.
    pub fn text(&self) -> (text: &'static str)
        ensures
            text@ == self.text_spec(),
    {
        match self {
            Response::NoData => CXL_FM_NO_DATA,
            Response::UnknownCommand => CXL_FM_UNKNOWN_COMMAND,
        }
    }

    /// The response as it travels: its text and a line feed.
    pub fn line(&self) -> (line: String)
        ensures
            line@ == self.line_spec(),
    {
        encode(self.text())
    }

    /// Reads a response out of a received line. A line that is neither of the
    /// known responses gives `None`.
    pub fn parse(line: &str) -> (response: Option<Response>)
        ensures
            response == Response::parse_spec(line@),
    {
        if same_text(line, CXL_FM_NO_DATA) {
            Some(Response::NoData)
        } else if same_text(line, CXL_FM_UNKNOWN_COMMAND) {
            Some(Response::UnknownCommand)
        } else {
            None
        }
    }
}

/// Reading a response back from its own text gives that response.
pub proof fn law_response_round_trip(response: Response)
    ensures
        Response::parse_spec(response.text_spec()) == Some(response),
{
    reveal_strlit("NO_DATA");
    reveal_strlit("UNKNOWN_COMMAND");
    assert(CXL_FM_NO_DATA@.len() != CXL_FM_UNKNOWN_COMMAND@.len());
}

/// The line of a response is one whole line: its only line feed is its last
/// character, and a line reader gets the text of the response out of it.
pub proof fn law_response_line_is_well_formed(response: Response)
    ensures
        line_end(response.line_spec()) == response.line_spec().len() - 1,
        first_line_spec(response.line_spec()) == Some(response.text_spec()),
        is_command_id(response.text_spec()),
{
    reveal_strlit("NO_DATA");
    reveal_strlit("UNKNOWN_COMMAND");
    assert(is_command_id(response.text_spec()));
    law_encoded_is_one_line(response.text_spec());
    law_round_trip(response.text_spec());
}

/// Carries out `command` and says what to answer. No operation of the
/// vocabulary yields data so far: each one is acknowledged with
/// [`Response::NoData`].
pub fn execute(command: Command) -> (response: Response)
    ensures
        response == execute_spec(command),
{
    Response::NoData
}

/// What carrying out `command` answers.
pub open spec fn execute_spec(command: Command) -> Response {
    Response::NoData
}

} // verus!
