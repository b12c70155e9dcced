use vstd::prelude::*;
use crate::notes::line_views;

verus! {

/// The usage summary, line by line.
pub open spec fn help_text() -> Seq<Seq<char>> {
    seq![
        "rn is a simple utility for taking and storing notes using the command line."@,
        ""@,
        "Show help:"@,
        "rn help"@,
        "rn h"@,
        "rn"@,
        ""@,
        "Add a new note:"@,
        "rn <filename> <note>"@,
        "rn <filename> add <note>"@,
        "rn <filename> a <note>"@,
        ""@,
        "List all notes:"@,
        "rn list"@,
        "rn l"@,
        ""@,
        "List all entries inside a note file:"@,
        "rn <filename> list"@,
        "rn <filename> l"@,
        "rn <filename>"@,
        ""@,
        "Remove an entry from a file:"@,
        "rn <filename> remove <index>"@,
        "rn <filename> r <index>"@,
        ""@,
        "Edit note:"@,
        "rn <filename> edit <index> <newtext>"@,
        "rn <filename> e <index> <newtext>"@,
        ""@,
        "Open note file in a text editor:"@,
        "rn open <filename>"@,
        "rn o <filename>"@,
        ""@,
        "Remove note file and all the notes inside it:"@,
        "rn remove <filename>"@,
        "rn r <filename>"@,
    ]
}

/// The usage summary, line by line.
pub fn help_lines() -> (lines: Vec<String>)
    ensures
        line_views(lines@) == help_text(),
{
    let mut lines: Vec<String> = Vec::new();
    lines.push("rn is a simple utility for taking and storing notes using the command line.".to_owned());
    lines.push("".to_owned());
    lines.push("Show help:".to_owned());
    lines.push("rn help".to_owned());
    lines.push("rn h".to_owned());
    lines.push("rn".to_owned());
    lines.push("".to_owned());
    lines.push("Add a new note:".to_owned());
    lines.push("rn <filename> <note>".to_owned());
    lines.push("rn <filename> add <note>".to_owned());
    lines.push("rn <filename> a <note>".to_owned());
    lines.push("".to_owned());
    lines.push("List all notes:".to_owned());
    lines.push("rn list".to_owned());
    lines.push("rn l".to_owned());
    lines.push("".to_owned());
    lines.push("List all entries inside a note file:".to_owned());
    lines.push("rn <filename> list".to_owned());
    lines.push("rn <filename> l".to_owned());
    lines.push("rn <filename>".to_owned());
    lines.push("".to_owned());
    lines.push("Remove an entry from a file:".to_owned());
    lines.push("rn <filename> remove <index>".to_owned());
    lines.push("rn <filename> r <index>".to_owned());
    lines.push("".to_owned());
    lines.push("Edit note:".to_owned());
    lines.push("rn <filename> edit <index> <newtext>".to_owned());
    lines.push("rn <filename> e <index> <newtext>".to_owned());
    lines.push("".to_owned());
    lines.push("Open note file in a text editor:".to_owned());
    lines.push("rn open <filename>".to_owned());
    lines.push("rn o <filename>".to_owned());
    lines.push("".to_owned());
    lines.push("Remove note file and all the notes inside it:".to_owned());
    lines.push("rn remove <filename>".to_owned());
    lines.push("rn r <filename>".to_owned());
    assert(line_views(lines@) =~= help_text());
    lines
}

} // verus!
