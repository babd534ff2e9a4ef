//! Reading a command from the program's arguments.

use vstd::prelude::*;

use vstd::string::StringExecFns;

use crate::text::text_eq;

verus! {

/// A request to the vault.
#[derive(Debug)]
pub enum Command {
    /// Seal `file` into the vault, moving it, or copying it with `copy`.
    Add { file: String, copy: bool },
    /// Open `file` out of the vault into the working directory, moving it,
    /// or copying it with `copy`.
    Grab { file: String, copy: bool },
    /// Delete `file` from the vault.
    Delete { file: String },
    /// List the vault.
    List,
    /// Collapse the vault into its archive.
    Archive,
    /// Restore the vault from its archive.
    Unpack,
}

/// Which usage line answers a malformed request.
#[derive(Clone, Copy, Debug, PartialEq, Eq, Structural)]
pub enum Usage {
    /// No command, or one that is not known.
    General,
    Add,
    Grab,
    Delete,
    List,
    Archive,
    Unpack,
}

/// The file and the copy flag of `add` and `grab`: the file alone, or a
/// flag then the file, where only `-c` asks for a copy.
pub open spec fn file_and_copy(args: Seq<Seq<char>>) -> Option<(Seq<char>, bool)> {
    if args.len() == 2 {
        Some((args[1], false))
    } else if args.len() == 3 {
        Some((args[2], args[1] == "-c"@))
    } else {
        None
    }
}

/// Whether `r` is what the arguments `args` (the command first) ask for.
pub open spec fn parses_to(args: Seq<Seq<char>>, r: Result<Command, Usage>) -> bool {
    if args.len() == 0 {
        r == Err::<Command, Usage>(Usage::General)
    } else if args[0] == "add"@ {
        match file_and_copy(args) {
            Some((f, c)) => r matches Ok(Command::Add { file, copy }) && file@ == f && copy == c,
            None => r == Err::<Command, Usage>(Usage::Add),
        }
    } else if args[0] == "grab"@ {
        match file_and_copy(args) {
            Some((f, c)) => r matches Ok(Command::Grab { file, copy }) && file@ == f && copy == c,
            None => r == Err::<Command, Usage>(Usage::Grab),
        }
    } else if args[0] == "delete"@ {
        if args.len() == 2 {
            r matches Ok(Command::Delete { file }) && file@ == args[1]
        } else {
            r == Err::<Command, Usage>(Usage::Delete)
        }
    } else if args[0] == "list"@ {
        if args.len() == 1 {
            r matches Ok(Command::List)
        } else {
            r == Err::<Command, Usage>(Usage::List)
        }
    } else if args[0] == "archive"@ {
        if args.len() == 1 {
            r matches Ok(Command::Archive)
        } else {
            r == Err::<Command, Usage>(Usage::Archive)
        }
    } else if args[0] == "unpack"@ {
        if args.len() == 1 {
            r matches Ok(Command::Unpack)
        } else {
            r == Err::<Command, Usage>(Usage::Unpack)
        }
    } else {
        r == Err::<Command, Usage>(Usage::General)
    }
}

/// The characters of each argument.
pub open spec fn arg_views(args: Seq<String>) -> Seq<Seq<char>> {
    args.map_values(|a: String| a@)
}

/// The file and copy flag of `add` and `grab`, when the count is right.
fn read_file_and_copy(args: &Vec<String>) -> (r: Option<(String, bool)>)
    requires
        args@.len() >= 1,
    ensures
        match file_and_copy(arg_views(args@)) {
            Some((f, c)) => r matches Some((file, copy)) && file@ == f && copy == c,
            None => r is None,
        },
{
    if args.len() == 2 {
        Some((String::from_str(args[1].as_str()), false))
    } else if args.len() == 3 {
        let copy = text_eq(args[1].as_str(), "-c");
        Some((String::from_str(args[2].as_str()), copy))
    } else {
        None
    }
}

/// Reads the command that the arguments ask for; the first argument names
/// the command.
pub fn parse_command(args: &Vec<String>) -> (r: Result<Command, Usage>)
    ensures
        parses_to(arg_views(args@), r),
{
    if args.len() == 0 {
        return Err(Usage::General);
    }
    let cmd = args[0].as_str();
    let n = args.len();
    if text_eq(cmd, "add") {
        match read_file_and_copy(args) {
            Some((file, copy)) => Ok(Command::Add { file, copy }),
            None => Err(Usage::Add),
        }
    } else if text_eq(cmd, "grab") {
        match read_file_and_copy(args) {
            Some((file, copy)) => Ok(Command::Grab { file, copy }),
            None => Err(Usage::Grab),
        }
    } else if text_eq(cmd, "delete") {
        if n == 2 {
            Ok(Command::Delete { file: String::from_str(args[1].as_str()) })
        } else {
            Err(Usage::Delete)
        }
    } else if text_eq(cmd, "list") {
        if n == 1 {
            Ok(Command::List)
        } else {
            Err(Usage::List)
        }
    } else if text_eq(cmd, "archive") {
        if n == 1 {
            Ok(Command::Archive)
        } else {
            Err(Usage::Archive)
        }
    } else if text_eq(cmd, "unpack") {
        if n == 1 {
            Ok(Command::Unpack)
        } else {
            Err(Usage::Unpack)
        }
    } else {
        Err(Usage::General)
    }
}

} // verus!
