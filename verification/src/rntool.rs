use vstd::prelude::*;
use vstd::string::StringExecFns;
use crate::error::{ErrorKind, Failure};
use crate::help::{help_lines, help_text};
use crate::notes::{edit_note, edited, line_views, lines_of, list_notes, listing, note_entry, remove_note, removed};
use crate::parsearguments::{Command, CommandType};
use crate::text::chars_of;

verus! {

/// What the file system answered to the action that was asked for last.
#[derive(Debug, PartialEq, Eq)]
pub enum Event {
    /// Nothing was asked for yet.
    Start,
    /// The working directory exists.
    Ready,
    /// The names of the entries of the working directory, as it gave them.
    Entries(Vec<String>),
    /// The whole content of the file that was read.
    Content(String),
    /// The removal, the write or the editor came to its end.
    Completed,
    /// The file does not exist.
    Missing,
    /// Any other failure, with the text that the file system gave.
    Failed(String),
}

/// What the caller is to do next. The first six are asked of the file
/// system and answered by an `Event`; the last two end the command.
#[derive(Debug, PartialEq, Eq)]
pub enum Action {
    /// Create the directory and what is missing above it.
    EnsureDirectory(String),
    /// Read the names of the directory's entries.
    ReadDirectory(String),
    /// Delete the file at the path.
    RemoveFile(String),
    /// Open the file at the path in the user's editor and wait for it.
    OpenEditor(String),
    /// Read the whole file at the path.
    ReadFile(String),
    /// Add the text to the end of the file at the path; create the file if
    /// there is none.
    AppendFile(String, String),
    /// Replace the content of the file at the path by the text.
    WriteFile(String, String),
    /// Print the lines; the command succeeded.
    Succeed(Vec<String>),
    /// The command failed.
    Fail(ErrorKind),
}

/// The mathematical value of an `Event`.
pub enum Reply {
    Start,
    Ready,
    Entries(Seq<Seq<char>>),
    Content(Seq<char>),
    Completed,
    Missing,
    Failed(Seq<char>),
}

/// The mathematical value of an `Action`.
pub enum Step {
    EnsureDirectory(Seq<char>),
    ReadDirectory(Seq<char>),
    RemoveFile(Seq<char>),
    OpenEditor(Seq<char>),
    ReadFile(Seq<char>),
    AppendFile(Seq<char>, Seq<char>),
    WriteFile(Seq<char>, Seq<char>),
    Succeed(Seq<Seq<char>>),
    Fail(Failure),
}

impl View for Event {
    type V = Reply;

    open spec fn view(&self) -> Reply {
        match self {
            Event::Start => Reply::Start,
            Event::Ready => Reply::Ready,
            Event::Entries(names) => Reply::Entries(line_views(names@)),
            Event::Content(text) => Reply::Content(text@),
            Event::Completed => Reply::Completed,
            Event::Missing => Reply::Missing,
            Event::Failed(text) => Reply::Failed(text@),
        }
    }
}

impl View for Action {
    type V = Step;

    open spec fn view(&self) -> Step {
        match self {
            Action::EnsureDirectory(d) => Step::EnsureDirectory(d@),
            Action::ReadDirectory(d) => Step::ReadDirectory(d@),
            Action::RemoveFile(p) => Step::RemoveFile(p@),
            Action::OpenEditor(p) => Step::OpenEditor(p@),
            Action::ReadFile(p) => Step::ReadFile(p@),
            Action::AppendFile(p, t) => Step::AppendFile(p@, t@),
            Action::WriteFile(p, t) => Step::WriteFile(p@, t@),
            Action::Succeed(lines) => Step::Succeed(line_views(lines@)),
            Action::Fail(e) => Step::Fail(e@),
        }
    }
}

/// The text of the failure that answers an event which the command never
/// asks for.
pub open spec fn unexpected_event() -> Seq<char> {
    "Unexpected answer from the file system."@
}

/// The file that a command works on, if it works on one.
pub open spec fn file_of(command: Command) -> Option<Seq<char>> {
    match command {
        Command::RemoveNoteFile(f) => Some(f),
        Command::OpenNoteFileInEditor(f) => Some(f),
        Command::ListNotesInFile(f) => Some(f),
        Command::AddNoteToFile(f, _) => Some(f),
        Command::EditNoteInFile(f, _, _) => Some(f),
        Command::RemoveNoteFromFile(f, _) => Some(f),
        _ => None,
    }
}

/// Whether `name` names one entry of a directory: it is not empty, holds
/// neither `/` nor `\\`, and is neither `.` nor `..`.
pub open spec fn is_single_segment(name: Seq<char>) -> bool {
    &&& name.len() > 0
    &&& forall|i: int| 0 <= i < name.len() ==> name[i] != '/' && name[i] != '\\'
    &&& name != "."@
    &&& name != ".."@
}

/// The reason given for a file name that is no single segment.
pub open spec fn invalid_file_name(name: Seq<char>) -> Seq<char> {
    "Invalid file name: "@ + name
}

/// Whether the command names a file by something other than a single
/// segment, so that its path would lead out of the working directory or
/// below it.
pub open spec fn leaves_directory(command: Command) -> bool {
    file_of(command) is Some && !is_single_segment(file_of(command)->0)
}

/// What a command asks for first once the working directory exists.
pub open spec fn first_step(directory: Seq<char>, command: Command) -> Step {
    match command {
        Command::ListNoteFiles => Step::ReadDirectory(directory),
        Command::RemoveNoteFile(f) => Step::RemoveFile(directory + f),
        Command::OpenNoteFileInEditor(f) => Step::OpenEditor(directory + f),
        Command::ListNotesInFile(f) => Step::ReadFile(directory + f),
        Command::AddNoteToFile(f, text) => Step::AppendFile(directory + f, text.push('\n')),
        Command::EditNoteInFile(f, _, _) => Step::ReadFile(directory + f),
        Command::RemoveNoteFromFile(f, _) => Step::ReadFile(directory + f),
        Command::PrintHelp => Step::Succeed(help_text()),
        Command::Error(m) => Step::Fail(Failure::InvalidArgument(m)),
    }
}

/// What a command does with the content of its file.
pub open spec fn step_on_content(directory: Seq<char>, command: Command, content: Seq<char>) -> Step {
    match command {
        Command::ListNotesInFile(_) => if lines_of(content).len() == 0 {
            Step::Fail(Failure::EmptyFile)
        } else {
            Step::Succeed(listing(lines_of(content)))
        },
        Command::EditNoteInFile(f, i, text) => match edited(content, i, text) {
            Ok(new_content) => Step::WriteFile(directory + f, new_content),
            Err(e) => Step::Fail(e),
        },
        Command::RemoveNoteFromFile(f, i) => match removed(content, i) {
            Ok(new_content) => Step::WriteFile(directory + f, new_content),
            Err(e) => Step::Fail(e),
        },
        _ => Step::Fail(Failure::IoFailure(unexpected_event())),
    }
}

/// Whether the command, somewhere on its way, asks for something that this
/// event answers.
pub open spec fn awaits(command: Command, event: Reply) -> bool {
    match event {
        Reply::Start => true,
        Reply::Ready => !(command is Error),
        Reply::Entries(_) => command is ListNoteFiles,
        Reply::Content(_) => command is ListNotesInFile || command is EditNoteInFile
            || command is RemoveNoteFromFile,
        Reply::Completed => command is RemoveNoteFile || command is OpenNoteFileInEditor
            || command is AddNoteToFile || command is EditNoteInFile
            || command is RemoveNoteFromFile,
        Reply::Missing => command is RemoveNoteFile || command is ListNotesInFile
            || command is EditNoteInFile || command is RemoveNoteFromFile,
        Reply::Failed(_) => !(command is Error),
    }
}

/// The next step of a command, given the answer to its last one.
///
/// A malformed command line fails at once, before anything is asked of the
/// file system, and so does a command whose file name is no single segment.
/// Every other command first has the working directory made. Then it asks
/// for what it needs; a file that is missing and a failure of the file
/// system end it, and an edit or a removal writes the file only after the
/// index was found to name a line.
pub open spec fn next_step(directory: Seq<char>, command: Command, event: Reply) -> Step {
    if leaves_directory(command) {
        Step::Fail(Failure::InvalidArgument(invalid_file_name(file_of(command)->0)))
    } else if !awaits(command, event) {
        Step::Fail(Failure::IoFailure(unexpected_event()))
    } else {
        match event {
            Reply::Start => match command {
                Command::Error(m) => Step::Fail(Failure::InvalidArgument(m)),
                _ => Step::EnsureDirectory(directory),
            },
            Reply::Ready => first_step(directory, command),
            Reply::Entries(names) => Step::Succeed(names),
            Reply::Content(content) => step_on_content(directory, command, content),
            Reply::Completed => Step::Succeed(seq![]),
            Reply::Missing => Step::Fail(Failure::NotFound),
            Reply::Failed(text) => Step::Fail(Failure::IoFailure(text)),
        }
    }
}

/// Whether `name` names one entry of a directory.
pub fn names_single_segment(name: &String) -> (b: bool)
    ensures
        b == is_single_segment(name@),
{
    let chars = chars_of(name.as_str());
    if chars.len() == 0 {
        return false;
    }
    let mut i: usize = 0;
    while i < chars.len()
        invariant
            i <= chars.len(),
            chars@ == name@,
            forall|j: int| 0 <= j < i ==> chars[j] != '/' && chars[j] != '\\',
        decreases chars.len() - i,
    {
        if chars[i] == '/' || chars[i] == '\\' {
            return false;
        }
        i += 1;
    }
    let dot = ".".to_owned();
    let dots = "..".to_owned();
    !(*name == dot || *name == dots)
}

/// A command together with the directory that holds the note files.
pub struct RnTool {
    working_directory: String,
    command_type: CommandType,
}

impl RnTool {
    /// The directory that holds the note files, as it was given.
    pub closed spec fn directory(&self) -> Seq<char> {
        self.working_directory@
    }

    /// The command to run.
    pub closed spec fn command(&self) -> Command {
        self.command_type@
    }

    /// A tool that runs `command_type` on the note files in
    /// `working_directory`. A file's path is the directory's text directly
    /// followed by the file's name.
    pub fn new(working_directory: String, command_type: CommandType) -> (tool: RnTool)
        ensures
            tool.directory() == working_directory@,
            tool.command() == command_type@,
    {
        RnTool { working_directory, command_type }
    }

    /// The path of the note file `file`.
    fn path_of(&self, file: &String) -> (path: String)
        ensures
            path@ == self.directory() + file@,
    {
        let mut path = self.working_directory.clone();
        path.append(file.as_str());
        path
    }

    /// The file that the command works on, if it works on one.
    fn file(&self) -> (file: Option<&String>)
        ensures
            match file {
                Some(f) => file_of(self.command()) == Some(f@),
                None => file_of(self.command()) is None,
            },
    {
        match &self.command_type {
            CommandType::RemoveNoteFile(f) => Some(f),
            CommandType::OpenNoteFileInEditor(f) => Some(f),
            CommandType::ListNotesInFile(f) => Some(f),
            CommandType::AddNoteToFile(f, _) => Some(f),
            CommandType::EditNoteInFile(f, _, _) => Some(f),
            CommandType::RemoveNoteFromFile(f, _) => Some(f),
            _ => None,
        }
    }

    /// The failure that answers an event which the command never asks for.
    fn unexpected() -> (action: Action)
        ensures
            action@ == Step::Fail(Failure::IoFailure(unexpected_event())),
    {
        Action::Fail(ErrorKind::IoFailure("Unexpected answer from the file system.".to_owned()))
    }

    /// What the command asks for once the working directory exists.
    fn begin(&self) -> (action: Action)
        ensures
            action@ == first_step(self.directory(), self.command()),
    {
        match &self.command_type {
            CommandType::ListNoteFiles => Action::ReadDirectory(self.working_directory.clone()),
            CommandType::RemoveNoteFile(f) => Action::RemoveFile(self.path_of(f)),
            CommandType::OpenNoteFileInEditor(f) => Action::OpenEditor(self.path_of(f)),
            CommandType::ListNotesInFile(f) => Action::ReadFile(self.path_of(f)),
            CommandType::AddNoteToFile(f, text) => Action::AppendFile(
                self.path_of(f),
                note_entry(text.as_str()),
            ),
            CommandType::EditNoteInFile(f, _, _) => Action::ReadFile(self.path_of(f)),
            CommandType::RemoveNoteFromFile(f, _) => Action::ReadFile(self.path_of(f)),
            CommandType::PrintHelp => Action::Succeed(help_lines()),
            CommandType::Error(m) => Action::Fail(ErrorKind::InvalidArgument(m.clone())),
        }
    }

    /// What the command does with the content of its file.
    fn with_content(&self, content: &String) -> (action: Action)
        ensures
            action@ == step_on_content(self.directory(), self.command(), content@),
    {
        match &self.command_type {
            CommandType::ListNotesInFile(_) => match list_notes(content.as_str()) {
                Ok(lines) => Action::Succeed(lines),
                Err(e) => Action::Fail(e),
            },
            CommandType::EditNoteInFile(f, i, text) => match edit_note(
                content.as_str(),
                *i,
                text.as_str(),
            ) {
                Ok(new_content) => Action::WriteFile(self.path_of(f), new_content),
                Err(e) => Action::Fail(e),
            },
            CommandType::RemoveNoteFromFile(f, i) => match remove_note(content.as_str(), *i) {
                Ok(new_content) => Action::WriteFile(self.path_of(f), new_content),
                Err(e) => Action::Fail(e),
            },
            _ => Self::unexpected(),
        }
    }

    /// Whether the command asks, somewhere on its way, for something that
    /// `event` answers.
    fn is_awaited(&self, event: &Event) -> (b: bool)
        ensures
            b == awaits(self.command(), event@),
    {
        let c = &self.command_type;
        match event {
            Event::Start => true,
            Event::Ready => !matches!(c, CommandType::Error(_)),
            Event::Entries(_) => matches!(c, CommandType::ListNoteFiles),
            Event::Content(_) => matches!(
                c,
                CommandType::ListNotesInFile(_) | CommandType::EditNoteInFile(_, _, _)
                    | CommandType::RemoveNoteFromFile(_, _)
            ),
            Event::Completed => matches!(
                c,
                CommandType::RemoveNoteFile(_) | CommandType::OpenNoteFileInEditor(_)
                    | CommandType::AddNoteToFile(_, _) | CommandType::EditNoteInFile(_, _, _)
                    | CommandType::RemoveNoteFromFile(_, _)
            ),
            Event::Missing => matches!(
                c,
                CommandType::RemoveNoteFile(_) | CommandType::ListNotesInFile(_)
                    | CommandType::EditNoteInFile(_, _, _) | CommandType::RemoveNoteFromFile(_, _)
            ),
            Event::Failed(_) => !matches!(c, CommandType::Error(_)),
        }
    }

    /// Runs the command one step further. The caller starts with
    /// `Event::Start`, does what the action says, and comes back with the
    /// file system's answer, until the action is `Succeed` or `Fail`.
    pub fn execute_command(&self, event: Event) -> (action: Action)
        ensures
            action@ == next_step(self.directory(), self.command(), event@),
    {
        if let Some(f) = self.file() {
            if !names_single_segment(f) {
                let mut reason = "Invalid file name: ".to_owned();
                reason.append(f.as_str());
                return Action::Fail(ErrorKind::InvalidArgument(reason));
            }
        }
        if !self.is_awaited(&event) {
            return Self::unexpected();
        }
        match event {
            Event::Start => match &self.command_type {
                CommandType::Error(m) => Action::Fail(ErrorKind::InvalidArgument(m.clone())),
                _ => Action::EnsureDirectory(self.working_directory.clone()),
            },
            Event::Ready => self.begin(),
            Event::Entries(names) => Action::Succeed(names),
            Event::Content(content) => self.with_content(&content),
            Event::Completed => {
                let nothing: Vec<String> = Vec::new();
                assert(line_views(nothing@) =~= Seq::<Seq<char>>::empty());
                Action::Succeed(nothing)
            },
            Event::Missing => Action::Fail(ErrorKind::NotFound),
            Event::Failed(text) => Action::Fail(ErrorKind::IoFailure(text)),
        }
    }
}

} // verus!
