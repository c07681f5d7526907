use vstd::prelude::*;
use crate::error::ChecklistError;

verus! {

/// What an invocation asks for.
#[derive(Debug, Clone, PartialEq, Eq)]
pub enum Command {
    Help,
    Version,
    Directory,
    List,
    /// Present the checklist of this name.
    Execute(String),
}

/// The command that a single argument `a` selects.
pub open spec fn command_of_arg(a: Seq<char>, c: Command) -> bool {
    if a == "-d"@ || a == "--directory"@ {
        c == Command::Directory
    } else if a == "-h"@ || a == "--help"@ {
        c == Command::Help
    } else if a == "-v"@ || a == "--version"@ {
        c == Command::Version
    } else if a == "-l"@ || a == "--list"@ {
        c == Command::List
    } else {
        c matches Command::Execute(n) && n@ == a
    }
}

fn is_either(a: &String, short: &str, long: &str) -> (r: bool)
    ensures
        r == (a@ == short@ || a@ == long@),
{
    *a == String::from_str(short) || *a == String::from_str(long)
}

/// Picks the command from the program's arguments, the program's own name
/// first: none selects the listing, one names a flag or a checklist, and
/// more are an error.
pub fn choose_command(args: &Vec<String>) -> (r: Result<Command, ChecklistError>)
    ensures
        args@.len() <= 1 ==> r == Ok::<Command, ChecklistError>(Command::List),
        args@.len() == 2 ==> (r matches Ok(c) && command_of_arg(args@[1]@, c)),
        args@.len() > 2 ==> (r matches Err(e) && e@ == "Invalid arguments"@),
{
    if args.len() <= 1 {
        return Ok(Command::List);
    }
    if args.len() == 2 {
        let a = &args[1];
        if is_either(a, "-d", "--directory") {
            Ok(Command::Directory)
        } else if is_either(a, "-h", "--help") {
            Ok(Command::Help)
        } else if is_either(a, "-v", "--version") {
            Ok(Command::Version)
        } else if is_either(a, "-l", "--list") {
            Ok(Command::List)
        } else {
            Ok(Command::Execute(a.clone()))
        }
    } else {
        Err(ChecklistError::from("Invalid arguments"))
    }
}

} // verus!
