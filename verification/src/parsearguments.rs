use vstd::prelude::*;
use vstd::string::StringExecFns;
use crate::number::{index_of_token, parse_index};

verus! {

/// What the user asked for, with the arguments that the request carries.
#[derive(Debug, PartialEq, Eq)]
pub enum CommandType {
    ListNoteFiles,
    RemoveNoteFile(String),
    OpenNoteFileInEditor(String),
    ListNotesInFile(String),
    AddNoteToFile(String, String),
    EditNoteInFile(String, usize, String),
    RemoveNoteFromFile(String, usize),
    PrintHelp,
    Error(String),
}

/// The mathematical value of a `CommandType`: the same variants over
/// sequences of characters.
pub enum Command {
    ListNoteFiles,
    RemoveNoteFile(Seq<char>),
    OpenNoteFileInEditor(Seq<char>),
    ListNotesInFile(Seq<char>),
    AddNoteToFile(Seq<char>, Seq<char>),
    EditNoteInFile(Seq<char>, usize, Seq<char>),
    RemoveNoteFromFile(Seq<char>, usize),
    PrintHelp,
    Error(Seq<char>),
}

impl View for CommandType {
    type V = Command;

    open spec fn view(&self) -> Command {
        match self {
            CommandType::ListNoteFiles => Command::ListNoteFiles,
            CommandType::RemoveNoteFile(f) => Command::RemoveNoteFile(f@),
            CommandType::OpenNoteFileInEditor(f) => Command::OpenNoteFileInEditor(f@),
            CommandType::ListNotesInFile(f) => Command::ListNotesInFile(f@),
            CommandType::AddNoteToFile(f, t) => Command::AddNoteToFile(f@, t@),
            CommandType::EditNoteInFile(f, i, t) => Command::EditNoteInFile(f@, *i, t@),
            CommandType::RemoveNoteFromFile(f, i) => Command::RemoveNoteFromFile(f@, *i),
            CommandType::PrintHelp => Command::PrintHelp,
            CommandType::Error(m) => Command::Error(m@),
        }
    }
}

/// The verb that asks for the usage summary, in either spelling.
pub open spec fn is_help(t: Seq<char>) -> bool {
    t == "help"@ || t == "h"@
}

/// The verb that lists, in either spelling.
pub open spec fn is_list(t: Seq<char>) -> bool {
    t == "list"@ || t == "l"@
}

/// The verb that removes, in either spelling.
pub open spec fn is_remove(t: Seq<char>) -> bool {
    t == "remove"@ || t == "r"@
}

/// The verb that edits a note, in either spelling.
pub open spec fn is_edit(t: Seq<char>) -> bool {
    t == "edit"@ || t == "e"@
}

/// The verb that opens a note file in the editor, in either spelling.
pub open spec fn is_open(t: Seq<char>) -> bool {
    t == "open"@ || t == "o"@
}

/// The verb that adds a note, in either spelling.
pub open spec fn is_add(t: Seq<char>) -> bool {
    t == "add"@ || t == "a"@
}

/// The message for a command line that ends before a required token.
pub open spec fn too_few_arguments() -> Seq<char> {
    "Too few arguments."@
}

/// The message for a token that should have been a line index and is none.
pub open spec fn unparsable_index(token: Seq<char>) -> Seq<char> {
    "Unable to parse string to id: "@ + token
}

/// The tokens of an argument list as sequences of characters.
pub open spec fn token_views(args: Seq<String>) -> Seq<Seq<char>> {
    args.map_values(|t: String| t@)
}

/// The command that a note file's name followed by further tokens denotes.
/// The second token is tried as a verb in the order list, remove, edit, add;
/// a token that is none of them is itself the text of a note to add.
pub open spec fn note_command(args: Seq<Seq<char>>) -> Command
    recommends
        args.len() >= 3,
{
    let file = args[1];
    let verb = args[2];
    if is_list(verb) {
        Command::ListNotesInFile(file)
    } else if is_remove(verb) {
        if args.len() < 4 {
            Command::Error(too_few_arguments())
        } else {
            match index_of_token(args[3]) {
                Some(i) => Command::RemoveNoteFromFile(file, i),
                None => Command::Error(unparsable_index(args[3])),
            }
        }
    } else if is_edit(verb) {
        if args.len() < 5 {
            Command::Error(too_few_arguments())
        } else {
            match index_of_token(args[3]) {
                Some(i) => Command::EditNoteInFile(file, i, args[4]),
                None => Command::Error(unparsable_index(args[3])),
            }
        }
    } else if is_add(verb) {
        if args.len() < 4 {
            Command::Error(too_few_arguments())
        } else {
            Command::AddNoteToFile(file, args[3])
        }
    } else {
        Command::AddNoteToFile(file, verb)
    }
}

/// The command that an argument list denotes. `args[0]` is the program's
/// name; the first token after it is tried as help, list, remove, open, and
/// is otherwise the name of a note file.
pub open spec fn command_of(args: Seq<Seq<char>>) -> Command {
    if args.len() <= 1 {
        Command::PrintHelp
    } else if is_help(args[1]) {
        Command::PrintHelp
    } else if is_list(args[1]) {
        Command::ListNoteFiles
    } else if is_remove(args[1]) {
        if args.len() < 3 {
            Command::Error(too_few_arguments())
        } else {
            Command::RemoveNoteFile(args[2])
        }
    } else if is_open(args[1]) {
        if args.len() < 3 {
            Command::Error(too_few_arguments())
        } else {
            Command::OpenNoteFileInEditor(args[2])
        }
    } else if args.len() < 3 {
        Command::Error(too_few_arguments())
    } else {
        note_command(args)
    }
}

/// Whether `token` is one of the two spellings of a verb.
fn is_either(token: &String, long: &str, short: &str) -> (b: bool)
    ensures
        b == (token@ == long@ || token@ == short@),
{
    let l = long.to_owned();
    let s = short.to_owned();
    *token == l || *token == s
}

/// The command for a command line that ends too early.
fn too_few() -> (c: CommandType)
    ensures
        c@ == Command::Error(too_few_arguments()),
{
    CommandType::Error("Too few arguments.".to_owned())
}

/// The command for a token that is no line index.
fn unparsable(token: &String) -> (c: CommandType)
    ensures
        c@ == Command::Error(unparsable_index(token@)),
{
    let mut message = "Unable to parse string to id: ".to_owned();
    message.append(token.as_str());
    CommandType::Error(message)
}

/// Reads `<file> <verb|text> ...`.
fn note_command_type(args: &Vec<String>) -> (c: CommandType)
    requires
        args.len() >= 3,
    ensures
        c@ == note_command(token_views(args@)),
{
    let file = args[1].clone();
    let verb = &args[2];
    if is_either(verb, "list", "l") {
        CommandType::ListNotesInFile(file)
    } else if is_either(verb, "remove", "r") {
        if args.len() < 4 {
            too_few()
        } else {
            match parse_index(args[3].as_str()) {
                Some(i) => CommandType::RemoveNoteFromFile(file, i),
                None => unparsable(&args[3]),
            }
        }
    } else if is_either(verb, "edit", "e") {
        if args.len() < 5 {
            too_few()
        } else {
            match parse_index(args[3].as_str()) {
                Some(i) => CommandType::EditNoteInFile(file, i, args[4].clone()),
                None => unparsable(&args[3]),
            }
        }
    } else if is_either(verb, "add", "a") {
        if args.len() < 4 {
            too_few()
        } else {
            CommandType::AddNoteToFile(file, args[3].clone())
        }
    } else {
        CommandType::AddNoteToFile(file, verb.clone())
    }
}

/// Turns the process arguments into the command they ask for. Never fails:
/// a malformed command line gives `Error` with the reason.
pub fn rn_get_command_type(args: Vec<String>) -> (c: CommandType)
    ensures
        c@ == command_of(token_views(args@)),
{
    if args.len() <= 1 {
        return CommandType::PrintHelp;
    }
    let first = &args[1];
    if is_either(first, "help", "h") {
        CommandType::PrintHelp
    } else if is_either(first, "list", "l") {
        CommandType::ListNoteFiles
    } else if is_either(first, "remove", "r") {
        if args.len() < 3 {
            too_few()
        } else {
            CommandType::RemoveNoteFile(args[2].clone())
        }
    } else if is_either(first, "open", "o") {
        if args.len() < 3 {
            too_few()
        } else {
            CommandType::OpenNoteFileInEditor(args[2].clone())
        }
    } else if args.len() < 3 {
        too_few()
    } else {
        note_command_type(&args)
    }
}

} // verus!
