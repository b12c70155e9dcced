use vstd::prelude::*;

verus! {

/// The two ways in which a single note of a file is changed.
#[derive(Debug, PartialEq, Eq, Clone, Copy, Structural)]
pub enum LineChange {
    Edit,
    Remove,
}

/// Why a command failed.
#[derive(Debug, PartialEq, Eq)]
pub enum ErrorKind {
    /// The command line was malformed; the text says how.
    InvalidArgument(String),
    /// The note file that the command needs does not exist.
    NotFound,
    /// The note file to list holds no line.
    EmptyFile,
    /// The file has no line at the index given to an edit or a removal.
    LineIndexOutOfRange(LineChange),
    /// Any other failure of the file system, with its own text.
    IoFailure(String),
}

/// The mathematical value of an `ErrorKind`.
pub enum Failure {
    InvalidArgument(Seq<char>),
    NotFound,
    EmptyFile,
    LineIndexOutOfRange(LineChange),
    IoFailure(Seq<char>),
}

impl View for ErrorKind {
    type V = Failure;

    open spec fn view(&self) -> Failure {
        match self {
            ErrorKind::InvalidArgument(m) => Failure::InvalidArgument(m@),
            ErrorKind::NotFound => Failure::NotFound,
            ErrorKind::EmptyFile => Failure::EmptyFile,
            ErrorKind::LineIndexOutOfRange(c) => Failure::LineIndexOutOfRange(*c),
            ErrorKind::IoFailure(m) => Failure::IoFailure(m@),
        }
    }
}

/// The text shown to the user for each failure.
pub open spec fn message_of(e: Failure) -> Seq<char> {
    match e {
        Failure::InvalidArgument(m) => m,
        Failure::NotFound => "File did not exist"@,
        Failure::EmptyFile => "File was empty."@,
        Failure::LineIndexOutOfRange(LineChange::Edit) => "Unable to find line that user wanted to edit."@,
        Failure::LineIndexOutOfRange(LineChange::Remove) => "Unable to remove line that user wanted to edit."@,
        Failure::IoFailure(m) => m,
    }
}

impl ErrorKind {
    /// The text shown to the user for this failure.
    pub fn message(&self) -> (m: String)
        ensures
            m@ == message_of(self@),
    {
        match self {
            ErrorKind::InvalidArgument(m) => m.clone(),
            ErrorKind::NotFound => "File did not exist".to_owned(),
            ErrorKind::EmptyFile => "File was empty.".to_owned(),
            ErrorKind::LineIndexOutOfRange(LineChange::Edit) => "Unable to find line that user wanted to edit.".to_owned(),
            ErrorKind::LineIndexOutOfRange(LineChange::Remove) => "Unable to remove line that user wanted to edit.".to_owned(),
            ErrorKind::IoFailure(m) => m.clone(),
        }
    }
}

} // verus!
