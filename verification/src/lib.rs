// A note-taking tool for the command line: the command grammar, the notes
// of a file as its lines, and the steps by which each command is carried
// out on the files of one directory.

pub mod error;
pub mod help;
pub mod model;
pub mod notes;
pub mod number;
pub mod parsearguments;
pub mod rntool;
pub mod text;
