//! The one error type of the tool: every way in which a run can end badly,
//! each with the line that is shown to the user and the status the process
//! ends with.

use vstd::prelude::*;

verus! {

/// The status of a run that went well.
pub const EXIT_SUCCESS: u8 = 0;

/// The status of a run that failed, whatever the reason.
pub const EXIT_FAILURE: u8 = 1;

/// Why a run ended badly. Every failure is final: nothing is retried.
#[derive(Clone, Debug, PartialEq, Eq)]
pub enum Failure {
    /// The command line did not hold exactly one input path.
    Usage { program: String },
    /// The input file could not be read as text.
    Read { path: String, cause: String },
    /// The input is not a TOML document.
    Parse { cause: String },
    /// The document could not be written as JSON.
    Transcode { cause: String },
    /// The output could not be handed over completely.
    Flush { cause: String },
}

/// A failure as a mathematical value: the same cases, with texts as
/// sequences of characters.
pub enum FailureModel {
    Usage { program: Seq<char> },
    Read { path: Seq<char>, cause: Seq<char> },
    Parse { cause: Seq<char> },
    Transcode { cause: Seq<char> },
    Flush { cause: Seq<char> },
}

impl FailureModel {
    /// The single line that reports this failure.
    pub open spec fn message(self) -> Seq<char> {
        match self {
            FailureModel::Usage { program } => "Usage: "@ + program + " <input.toml>"@,
            FailureModel::Read { path, cause } => "Failed to read "@ + path + ": "@ + cause,
            FailureModel::Parse { cause } => "Parse failed: "@ + cause,
            FailureModel::Transcode { cause } => "Transcode failed: "@ + cause,
            FailureModel::Flush { cause } => "Flush failed: "@ + cause,
        }
    }
}

impl View for Failure {
    type V = FailureModel;

    open spec fn view(&self) -> FailureModel {
        match self {
            Failure::Usage { program } => FailureModel::Usage { program: program@ },
            Failure::Read { path, cause } => FailureModel::Read { path: path@, cause: cause@ },
            Failure::Parse { cause } => FailureModel::Parse { cause: cause@ },
            Failure::Transcode { cause } => FailureModel::Transcode { cause: cause@ },
            Failure::Flush { cause } => FailureModel::Flush { cause: cause@ },
        }
    }
}

impl Failure {
    /// The single line that reports this failure on the error stream.
    pub fn message(&self) -> (text: String)
        ensures
            text@ == self@.message(),
    {
        match self {
            Failure::Usage { program } => {
                String::from_str("Usage: ").concat(program.as_str()).concat(" <input.toml>")
            },
            Failure::Read { path, cause } => {
                String::from_str("Failed to read ").concat(path.as_str()).concat(": ").concat(
                    cause.as_str(),
                )
            },
            Failure::Parse { cause } => String::from_str("Parse failed: ").concat(cause.as_str()),
            Failure::Transcode { cause } => {
                String::from_str("Transcode failed: ").concat(cause.as_str())
            },
            Failure::Flush { cause } => String::from_str("Flush failed: ").concat(cause.as_str()),
        }
    }

    /// The status with which the process ends after this failure. It is the
    /// same for all of them, and never that of a run that went well.
    pub fn exit_code(&self) -> (code: u8)
        ensures
            code == EXIT_FAILURE,
            code != EXIT_SUCCESS,
    {
        EXIT_FAILURE
    }
}

/// Whether `part` occurs in `text` as a run of consecutive characters.
pub open spec fn occurs_in(part: Seq<char>, text: Seq<char>) -> bool {
    exists|at: int|
        0 <= at && at + part.len() <= text.len() && #[trigger] text.subrange(
            at,
            at + part.len(),
        ) == part
}

/// A usage message names the program, whatever the program is called.
pub proof fn usage_message_names_program(program: Seq<char>)
    ensures
        occurs_in(program, (FailureModel::Usage { program }).message()),
{
    reveal_strlit("Usage: ");
    let text = (FailureModel::Usage { program }).message();
    assert(text.subrange(7, 7 + program.len() as int) =~= program);
}

/// The message of a read failure names the path that could not be read, and
/// holds the cause.
pub proof fn read_message_names_path(path: Seq<char>, cause: Seq<char>)
    ensures
        occurs_in(path, (FailureModel::Read { path, cause }).message()),
        occurs_in(cause, (FailureModel::Read { path, cause }).message()),
{
    reveal_strlit("Failed to read ");
    reveal_strlit(": ");
    let text = (FailureModel::Read { path, cause }).message();
    assert(text.subrange(15, 15 + path.len() as int) =~= path);
    assert(text.subrange(17 + path.len() as int, 17 + path.len() as int + cause.len() as int) =~= cause);
}

/// The message of a parse failure holds the parser's diagnostic text.
pub proof fn parse_message_holds_diagnostic(cause: Seq<char>)
    ensures
        occurs_in(cause, (FailureModel::Parse { cause }).message()),
{
    reveal_strlit("Parse failed: ");
    let text = (FailureModel::Parse { cause }).message();
    assert(text.subrange(14, 14 + cause.len() as int) =~= cause);
}

} // verus!
