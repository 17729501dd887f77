//! A run of the tool, as a sequence of decisions.
//!
//! The tool reads a file and writes to standard output, and this module does
//! neither. It says what to do next: [`begin`] from the command line,
//! [`after_read`] once the input file was read or could not be, and
//! [`after_write`] once the output was written and flushed or could not be.
//! Whoever drives a run performs each [`Action`] and comes back with what
//! happened, until the action is to exit.

use crate::args::{input_path, program_name, requested_path};
use crate::failure::{occurs_in, Failure, FailureModel, EXIT_FAILURE, EXIT_SUCCESS};
use crate::transcode::{conversion, json_rendering, toml_rejection, toml_to_json};
use vstd::prelude::*;

verus! {

/// What is to be done next in a run.
#[derive(Debug)]
pub enum Action {
    /// Read the whole file at `path` as text.
    ReadInput { path: String },
    /// Write `bytes` to standard output and flush it.
    WriteOutput { bytes: Vec<u8> },
    /// Print `diagnostic`, if there is one, as a line on the error stream,
    /// and end the process with `status`.
    Exit { status: u8, diagnostic: Option<String> },
}

/// An action as a mathematical value.
pub enum ActionModel {
    ReadInput { path: Seq<char> },
    WriteOutput { bytes: Seq<u8> },
    Exit { status: u8, diagnostic: Option<Seq<char>> },
}

impl View for Action {
    type V = ActionModel;

    open spec fn view(&self) -> ActionModel {
        match self {
            Action::ReadInput { path } => ActionModel::ReadInput { path: path@ },
            Action::WriteOutput { bytes } => ActionModel::WriteOutput { bytes: bytes@ },
            Action::Exit { status, diagnostic } => ActionModel::Exit {
                status: *status,
                diagnostic: match diagnostic {
                    Some(line) => Some(line@),
                    None => None,
                },
            },
        }
    }
}

/// The end of a run that failed: the failure's message on the error stream,
/// and the status of failure.
pub open spec fn failed(failure: FailureModel) -> ActionModel {
    ActionModel::Exit { status: EXIT_FAILURE, diagnostic: Some(failure.message()) }
}

/// The end of a run that went well: nothing on the error stream, and the
/// status of success.
pub open spec fn succeeded() -> ActionModel {
    ActionModel::Exit { status: EXIT_SUCCESS, diagnostic: None }
}

/// The first action of a run with the command line `args`: to read the file
/// it names, or to fail with a usage message.
pub open spec fn first_action(args: Seq<String>) -> ActionModel {
    match requested_path(args) {
        Ok(path) => ActionModel::ReadInput { path },
        Err(failure) => failed(failure),
    }
}

/// The action that follows the attempt to read the file at `path`, which
/// gave its text or the cause for which it could not be read: to write the
/// JSON that the text converts to, or to fail with the read failure or with
/// the failure that the conversion ended in.
pub open spec fn action_after_read(
    path: Seq<char>,
    read: Result<Seq<char>, Seq<char>>,
) -> ActionModel {
    match read {
        Err(cause) => failed(FailureModel::Read { path, cause }),
        Ok(text) => match conversion(text) {
            Ok(bytes) => ActionModel::WriteOutput { bytes },
            Err(failure) => failed(failure),
        },
    }
}

/// The action that follows the attempt to write and flush the output: to
/// exit, in success or with a flush failure.
pub open spec fn action_after_write(written: Result<(), Seq<char>>) -> ActionModel {
    match written {
        Ok(_) => succeeded(),
        Err(cause) => failed(FailureModel::Flush { cause }),
    }
}

/// What reading a file came to, as a mathematical value.
pub open spec fn read_model(read: Result<String, String>) -> Result<Seq<char>, Seq<char>> {
    match read {
        Ok(text) => Ok(text@),
        Err(cause) => Err(cause@),
    }
}

/// What writing the output came to, as a mathematical value.
pub open spec fn write_model(written: Result<(), String>) -> Result<(), Seq<char>> {
    match written {
        Ok(_) => Ok(()),
        Err(cause) => Err(cause@),
    }
}

/// The action that ends a run in `failure`.
fn fail(failure: Failure) -> (action: Action)
    ensures
        action@ == failed(failure@),
{
    Action::Exit { status: failure.exit_code(), diagnostic: Some(failure.message()) }
}

/// Begins a run with the command line `args`, whose first word is the
/// program's name.
pub fn begin(args: &Vec<String>) -> (action: Action)
    ensures
        action@ == first_action(args@),
{
    match input_path(args) {
        Ok(path) => Action::ReadInput { path },
        Err(failure) => fail(failure),
    }
}

/// Goes on after the attempt to read the file at `path`, with its text or
/// with the cause for which it could not be read.
pub fn after_read(path: &str, read: Result<String, String>) -> (action: Action)
    ensures
        action@ == action_after_read(path@, read_model(read)),
{
    match read {
        Err(cause) => fail(Failure::Read { path: String::from_str(path), cause }),
        Ok(text) => match toml_to_json(text.as_str()) {
            Ok(bytes) => Action::WriteOutput { bytes },
            Err(failure) => fail(failure),
        },
    }
}

/// Goes on after the attempt to write and flush the output, which went well
/// or failed for the cause given.
pub fn after_write(written: Result<(), String>) -> (action: Action)
    ensures
        action@ == action_after_write(write_model(written)),
{
    match written {
        Ok(_) => Action::Exit { status: EXIT_SUCCESS, diagnostic: None },
        Err(cause) => fail(Failure::Flush { cause }),
    }
}

/// A command line with no path, or with more than one, ends the run at once:
/// in failure, and with a usage message that names the program.
pub proof fn wrong_argument_count_ends_in_usage(args: Seq<String>)
    requires
        args.len() != 2,
    ensures
        first_action(args) == failed(FailureModel::Usage { program: program_name(args) }),
        first_action(args) is Exit,
        first_action(args)->status != EXIT_SUCCESS,
        occurs_in(program_name(args), first_action(args)->diagnostic->Some_0),
{
    crate::failure::usage_message_names_program(program_name(args));
}

/// How many words too few or too many a command line holds makes no
/// difference: under one program name, every wrong count gets the same
/// answer.
pub proof fn usage_is_the_same_for_every_wrong_count(first: Seq<String>, second: Seq<String>)
    requires
        first.len() != 2,
        second.len() != 2,
        program_name(first) == program_name(second),
    ensures
        first_action(first) == first_action(second),
{
}

/// A command line with exactly one path asks for that file to be read.
pub proof fn one_path_is_read(args: Seq<String>)
    requires
        args.len() == 2,
    ensures
        first_action(args) == (ActionModel::ReadInput { path: args[1]@ }),
{
}

/// An input file that cannot be read ends the run in failure, with a message
/// that names its path.
pub proof fn unreadable_input_names_path(path: Seq<char>, cause: Seq<char>)
    ensures
        action_after_read(path, Err(cause)) == failed(FailureModel::Read { path, cause }),
        action_after_read(path, Err(cause))->status != EXIT_SUCCESS,
        occurs_in(path, action_after_read(path, Err(cause))->diagnostic->Some_0),
{
    crate::failure::read_message_names_path(path, cause);
}

/// An input that the parser rejects ends the run in failure, with a message
/// that holds the parser's diagnostic.
pub proof fn rejected_input_shows_diagnostic(path: Seq<char>, text: Seq<char>)
    ensures
        toml_rejection(text) matches Some(diagnostic) ==> {
            let action = action_after_read(path, Ok(text));
            &&& action == failed(FailureModel::Parse { cause: diagnostic })
            &&& action->status != EXIT_SUCCESS
            &&& occurs_in(diagnostic, action->diagnostic->Some_0)
        },
{
    if let Some(diagnostic) = toml_rejection(text) {
        crate::failure::parse_message_holds_diagnostic(diagnostic);
    }
}

/// An input that the parser accepts and the transcoder renders is written out
/// exactly as rendered, and a run whose output was written ends in success,
/// with nothing on the error stream.
pub proof fn accepted_input_is_written(path: Seq<char>, text: Seq<char>)
    ensures
        toml_rejection(text) is None ==> (json_rendering(text) matches Ok(bytes)
            ==> action_after_read(path, Ok(text)) == (ActionModel::WriteOutput { bytes })),
        action_after_write(Ok(())) == succeeded(),
        succeeded()->status == EXIT_SUCCESS,
        succeeded()->diagnostic is None,
{
}

/// Every failure ends the run with the same status, which is not that of
/// success, and with exactly one line for the error stream.
pub proof fn every_failure_exits_alike(failure: FailureModel)
    ensures
        failed(failure)->status == EXIT_FAILURE,
        failed(failure)->status != EXIT_SUCCESS,
        failed(failure)->diagnostic == Some(failure.message()),
{
}

/// A run never writes output after a failure: the step after reading either
/// writes or exits, and it writes only what the conversion gave.
pub proof fn output_is_written_only_on_success(
    path: Seq<char>,
    read: Result<Seq<char>, Seq<char>>,
)
    ensures
        action_after_read(path, read) is WriteOutput <==> (read matches Ok(text) && conversion(
            text,
        ) is Ok),
        action_after_read(path, read) is WriteOutput ==> Ok::<Seq<u8>, FailureModel>(
            action_after_read(path, read)->bytes,
        ) == conversion(read->Ok_0),
        !(action_after_read(path, read) is ReadInput),
{
}

} // verus!
