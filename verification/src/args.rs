//! The command line: the program's own name, then exactly one input path.

use crate::failure::{Failure, FailureModel};
use vstd::prelude::*;

verus! {

/// The name under which the program speaks of itself where the command line
/// does not even hold one.
pub open spec fn fallback_program() -> Seq<char> {
    "toml2json"@
}

/// The program's name as the command line gives it: its first word.
pub open spec fn program_name(args: Seq<String>) -> Seq<char> {
    if args.len() == 0 {
        fallback_program()
    } else {
        args[0]@
    }
}

/// What a command line asks for: the input path, where it holds exactly one
/// word after the program's name, and a usage failure in every other case.
pub open spec fn requested_path(args: Seq<String>) -> Result<Seq<char>, FailureModel> {
    if args.len() == 2 {
        Ok(args[1]@)
    } else {
        Err(FailureModel::Usage { program: program_name(args) })
    }
}

/// Reads the input path off the command line `args`, whose first word is the
/// program's name.
pub fn input_path(args: &Vec<String>) -> (outcome: Result<String, Failure>)
    ensures
        match outcome {
            Ok(path) => requested_path(args@) == Ok::<Seq<char>, FailureModel>(path@),
            Err(failure) => requested_path(args@) == Err::<Seq<char>, FailureModel>(failure@),
        },
{
    if args.len() == 2 {
        Ok(args[1].clone())
    } else {
        let program = if args.len() == 0 {
            String::from_str("toml2json")
        } else {
            args[0].clone()
        };
        Err(Failure::Usage { program })
    }
}

} // verus!
