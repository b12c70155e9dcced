use vstd::prelude::*;
use crate::error::{Failure, LineChange};
use crate::notes::{
    ends_in_cr, is_plain_line, is_terminated, lemma_entry_adds_line, lemma_remove_first_of_two,
    lines_of, listing, removed,
};
use crate::parsearguments::Command;
use crate::rntool::{file_of, is_single_segment, next_step, Reply, Step};

verus! {

/// The note files as a mathematical value: the content of each file that
/// exists, by its path.
pub type Files = Map<Seq<char>, Seq<char>>;

/// The content of the file at `path`; that of a file that does not exist is
/// empty.
pub open spec fn content_at(files: Files, path: Seq<char>) -> Seq<char> {
    if files.contains_key(path) {
        files[path]
    } else {
        seq![]
    }
}

/// Whether `path` is the path of the command's file, that file named by a
/// single segment.
pub open spec fn stays_in(directory: Seq<char>, command: Command, path: Seq<char>) -> bool {
    &&& file_of(command) is Some
    &&& is_single_segment(file_of(command)->0)
    &&& path == directory + file_of(command)->0
}

/// What a file system that does as it is asked makes of a step: the files
/// afterwards and its answer. The steps that end a command have no answer;
/// neither have, here, the editor and the reading of the directory, of
/// which nothing is fixed (what the user does in the editor, the order of
/// the names).
pub open spec fn answered(files: Files, step: Step) -> Option<(Files, Reply)> {
    match step {
        Step::EnsureDirectory(_) => Some((files, Reply::Ready)),
        Step::RemoveFile(p) => if files.contains_key(p) {
            Some((files.remove(p), Reply::Completed))
        } else {
            Some((files, Reply::Missing))
        },
        Step::ReadFile(p) => if files.contains_key(p) {
            Some((files, Reply::Content(files[p])))
        } else {
            Some((files, Reply::Missing))
        },
        Step::AppendFile(p, text) => Some(
            (files.insert(p, content_at(files, p) + text), Reply::Completed),
        ),
        Step::WriteFile(p, text) => Some((files.insert(p, text), Reply::Completed)),
        _ => None,
    }
}

/// A command run on such a file system from `event` on, for at most `limit`
/// answers: the files at the end and the step that was left unanswered.
pub open spec fn run_from(
    directory: Seq<char>,
    command: Command,
    files: Files,
    event: Reply,
    limit: nat,
) -> (Files, Step)
    decreases limit,
{
    let step = next_step(directory, command, event);
    match answered(files, step) {
        Some((after, reply)) => if limit == 0 {
            (files, step)
        } else {
            run_from(directory, command, after, reply, (limit - 1) as nat)
        },
        None => (files, step),
    }
}

/// A command run from its start. No command asks for more than three
/// things, so the run ends with `Succeed` or `Fail`, or stops at the editor
/// or at the reading of the directory.
pub open spec fn run(directory: Seq<char>, command: Command, files: Files) -> (Files, Step) {
    run_from(directory, command, files, Reply::Start, 4)
}

/// Every run ends: with success, with a failure, or at one of the two steps
/// that have no answer here.
pub proof fn law_run_ends(directory: Seq<char>, command: Command, files: Files)
    ensures
        ({
            let last = run(directory, command, files).1;
            last is Succeed || last is Fail || last is OpenEditor || last is ReadDirectory
        }),
{
    reveal_with_fuel(run_from, 5);
}

/// A command that fails changes no file.
pub proof fn law_failure_changes_nothing(directory: Seq<char>, command: Command, files: Files)
    requires
        run(directory, command, files).1 is Fail,
    ensures
        run(directory, command, files).0 == files,
{
    reveal_with_fuel(run_from, 5);
}

/// A command changes no file but its own.
pub proof fn law_other_files_untouched(
    directory: Seq<char>,
    command: Command,
    files: Files,
    path: Seq<char>,
)
    requires
        file_of(command) is None || path != directory + file_of(command)->0,
    ensures
        run(directory, command, files).0.contains_key(path) == files.contains_key(path),
        files.contains_key(path) ==> run(directory, command, files).0[path] == files[path],
{
    reveal_with_fuel(run_from, 5);
}

/// No step leads out of the working directory: a step on a file names a
/// single segment directly inside the directory, and a step on a directory
/// names the working directory itself.
pub proof fn law_steps_stay_in_directory(directory: Seq<char>, command: Command, event: Reply)
    ensures
        match next_step(directory, command, event) {
            Step::EnsureDirectory(d) => d == directory,
            Step::ReadDirectory(d) => d == directory,
            Step::RemoveFile(p) => stays_in(directory, command, p),
            Step::OpenEditor(p) => stays_in(directory, command, p),
            Step::ReadFile(p) => stays_in(directory, command, p),
            Step::AppendFile(p, _) => stays_in(directory, command, p),
            Step::WriteFile(p, _) => stays_in(directory, command, p),
            Step::Succeed(_) => true,
            Step::Fail(_) => true,
        },
{
}

/// A malformed command line fails with its reason and asks nothing of the
/// file system.
pub proof fn law_invalid_asks_nothing(directory: Seq<char>, reason: Seq<char>, event: Reply)
    ensures
        next_step(directory, Command::Error(reason), Reply::Start) == Step::Fail(
            Failure::InvalidArgument(reason),
        ),
        next_step(directory, Command::Error(reason), event) is Fail,
{
}

/// After two notes were added to a file, listing the file shows what it
/// held before and then the two notes, in the order in which they were
/// added, each under its index. This holds where the file did not exist or
/// was empty or ended with a line feed, and where both notes are plain.
pub proof fn law_added_notes_are_listed(
    directory: Seq<char>,
    file: Seq<char>,
    first: Seq<char>,
    second: Seq<char>,
    files: Files,
)
    requires
        is_single_segment(file),
        is_terminated(content_at(files, directory + file)),
        is_plain_line(first),
        is_plain_line(second),
    ensures
        ({
            let before = lines_of(content_at(files, directory + file));
            let one = run(directory, Command::AddNoteToFile(file, first), files);
            let two = run(directory, Command::AddNoteToFile(file, second), one.0);
            let shown = run(directory, Command::ListNotesInFile(file), two.0);
            &&& one.1 == Step::Succeed(seq![])
            &&& two.1 == Step::Succeed(seq![])
            &&& shown.0 == two.0
            &&& shown.1 == Step::Succeed(listing(before.push(first).push(second)))
        }),
{
    reveal_with_fuel(run_from, 5);
    let path = directory + file;
    let start = content_at(files, path);
    let middle = start + first.push('\n');
    lemma_entry_adds_line(start, first);
    assert(is_terminated(middle)) by {
        assert(middle.last() == '\n');
    }
    lemma_entry_adds_line(middle, second);
}

/// Added to a file that did not exist, two notes are listed as the notes 0
/// and 1 of the file.
pub proof fn law_two_notes_of_a_new_file(
    directory: Seq<char>,
    file: Seq<char>,
    first: Seq<char>,
    second: Seq<char>,
    files: Files,
)
    requires
        is_single_segment(file),
        !files.contains_key(directory + file),
        is_plain_line(first),
        is_plain_line(second),
    ensures
        ({
            let one = run(directory, Command::AddNoteToFile(file, first), files);
            let two = run(directory, Command::AddNoteToFile(file, second), one.0);
            let shown = run(directory, Command::ListNotesInFile(file), two.0);
            shown.1 == Step::Succeed(seq!["0"@ + ": "@ + first, "1"@ + ": "@ + second])
        }),
{
    law_added_notes_are_listed(directory, file, first, second, files);
    let before = lines_of(content_at(files, directory + file));
    assert(before =~= Seq::<Seq<char>>::empty());
    reveal_strlit("0");
    reveal_strlit("1");
    assert("0"@ =~= crate::number::decimal_digits(0));
    assert("1"@ =~= crate::number::decimal_digits(1));
    assert(listing(before.push(first).push(second)) =~= seq![
        "0"@ + ": "@ + first,
        "1"@ + ": "@ + second,
    ]);
}

/// An edit at an index that names no line of the file fails for that
/// reason and leaves every file as it was.
pub proof fn law_edit_out_of_range(
    directory: Seq<char>,
    file: Seq<char>,
    index: usize,
    text: Seq<char>,
    files: Files,
)
    requires
        is_single_segment(file),
        files.contains_key(directory + file),
        index >= lines_of(files[directory + file]).len(),
    ensures
        run(directory, Command::EditNoteInFile(file, index, text), files) == (
            files,
            Step::Fail(Failure::LineIndexOutOfRange(LineChange::Edit)),
        ),
{
    reveal_with_fuel(run_from, 5);
}

/// A removal at an index that names no line of the file fails for that
/// reason and leaves every file as it was.
pub proof fn law_remove_out_of_range(
    directory: Seq<char>,
    file: Seq<char>,
    index: usize,
    files: Files,
)
    requires
        is_single_segment(file),
        files.contains_key(directory + file),
        index >= lines_of(files[directory + file]).len(),
    ensures
        run(directory, Command::RemoveNoteFromFile(file, index), files) == (
            files,
            Step::Fail(Failure::LineIndexOutOfRange(LineChange::Remove)),
        ),
{
    reveal_with_fuel(run_from, 5);
}

/// Removing note 0 of a file of two notes leaves a file of one note: the
/// one that was note 1. This holds unless that note ends in a carriage
/// return, which the line feed written behind it would swallow.
pub proof fn law_remove_first_of_two(
    directory: Seq<char>,
    file: Seq<char>,
    files: Files,
)
    requires
        is_single_segment(file),
        files.contains_key(directory + file),
        lines_of(files[directory + file]).len() == 2,
        !ends_in_cr(lines_of(files[directory + file])[1]),
    ensures
        ({
            let end = run(directory, Command::RemoveNoteFromFile(file, 0), files);
            &&& end.1 == Step::Succeed(seq![])
            &&& end.0.contains_key(directory + file)
            &&& lines_of(end.0[directory + file]) == seq![lines_of(files[directory + file])[1]]
        }),
{
    reveal_with_fuel(run_from, 5);
    lemma_remove_first_of_two(files[directory + file]);
    assert(removed(files[directory + file], 0) is Ok);
}

/// Removing a note file that does not exist fails with `NotFound` and
/// leaves every file as it was.
pub proof fn law_remove_missing_file(directory: Seq<char>, file: Seq<char>, files: Files)
    requires
        is_single_segment(file),
        !files.contains_key(directory + file),
    ensures
        run(directory, Command::RemoveNoteFile(file), files) == (
            files,
            Step::Fail(Failure::NotFound),
        ),
{
    reveal_with_fuel(run_from, 5);
}

/// Listing, editing or shortening a note file that does not exist fails
/// with `NotFound` and leaves every file as it was.
pub proof fn law_missing_file(directory: Seq<char>, command: Command, files: Files)
    requires
        command is ListNotesInFile || command is EditNoteInFile || command is RemoveNoteFromFile,
        is_single_segment(file_of(command)->0),
        !files.contains_key(directory + file_of(command)->0),
    ensures
        run(directory, command, files) == (files, Step::Fail(Failure::NotFound)),
{
    reveal_with_fuel(run_from, 5);
}

/// Listing a note file without a line fails with `EmptyFile`; listing any
/// other shows its notes. Neither changes a file.
pub proof fn law_list(directory: Seq<char>, file: Seq<char>, files: Files)
    requires
        is_single_segment(file),
        files.contains_key(directory + file),
    ensures
        run(directory, Command::ListNotesInFile(file), files) == (
            files,
            if lines_of(files[directory + file]).len() == 0 {
                Step::Fail(Failure::EmptyFile)
            } else {
                Step::Succeed(listing(lines_of(files[directory + file])))
            },
        ),
{
    reveal_with_fuel(run_from, 5);
}

} // verus!
