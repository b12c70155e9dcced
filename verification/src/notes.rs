use vstd::prelude::*;
use vstd::string::StringExecFns;
use crate::error::{ErrorKind, Failure, LineChange};
use crate::number::{decimal_digits, push_decimal};
use crate::text::{chars_of, string_of};

verus! {

/// Position of the first line feed of `s`, or the length of `s` if it has none.
pub open spec fn newline_at(s: Seq<char>) -> int
    decreases s.len(),
{
    if s.len() == 0 || s[0] == '\n' {
        0
    } else {
        1 + newline_at(s.drop_first())
    }
}

/// A line without the carriage return that stood before its line feed.
pub open spec fn without_cr(line: Seq<char>) -> Seq<char> {
    if line.len() > 0 && line.last() == '\r' {
        line.drop_last()
    } else {
        line
    }
}

/// The notes of a file: its lines in file order. A line ends at a line feed,
/// or at a carriage return directly followed by one; neither belongs to the
/// line. What follows the last line feed is a line too, unless it is empty.
pub open spec fn lines_of(s: Seq<char>) -> Seq<Seq<char>>
    decreases s.len(),
{
    if s.len() == 0 {
        seq![]
    } else {
        let k = newline_at(s);
        if 0 <= k < s.len() {
            seq![without_cr(s.take(k))] + lines_of(s.skip(k + 1))
        } else {
            seq![s]
        }
    }
}

/// The content of a file that holds `lines`: each line, in order, followed
/// by a line feed.
pub open spec fn joined(lines: Seq<Seq<char>>) -> Seq<char>
    decreases lines.len(),
{
    if lines.len() == 0 {
        seq![]
    } else {
        lines[0].push('\n') + joined(lines.drop_first())
    }
}

/// What is shown for the note at `index`.
pub open spec fn listed_line(index: nat, line: Seq<char>) -> Seq<char> {
    decimal_digits(index) + ": "@ + line
}

/// What is shown for a file's notes: one entry per line, numbered from 0.
pub open spec fn listing(lines: Seq<Seq<char>>) -> Seq<Seq<char>> {
    Seq::new(lines.len(), |i: int| listed_line(i as nat, lines[i]))
}

/// The views of a vector of strings.
pub open spec fn line_views(lines: Seq<String>) -> Seq<Seq<char>> {
    lines.map_values(|l: String| l@)
}

/// The first line feed is where the first line feed is.
pub proof fn lemma_newline_at(s: Seq<char>, k: int)
    requires
        0 <= k <= s.len(),
        forall|j: int| 0 <= j < k ==> s[j] != '\n',
        k == s.len() || s[k] == '\n',
    ensures
        newline_at(s) == k,
    decreases k,
{
    if k > 0 {
        let t = s.drop_first();
        assert forall|j: int| 0 <= j < k - 1 implies t[j] != '\n' by {
            assert(t[j] == s[j + 1]);
        }
        lemma_newline_at(t, k - 1);
    }
}

/// Adding a line at the end of a file's lines adds it, with its line feed,
/// at the end of the file.
pub proof fn lemma_joined_push(lines: Seq<Seq<char>>, line: Seq<char>)
    ensures
        joined(lines.push(line)) == joined(lines) + line.push('\n'),
    decreases lines.len(),
{
    if lines.len() == 0 {
        assert(lines.push(line).drop_first() =~= lines);
        assert(joined(lines.push(line)) =~= joined(lines) + line.push('\n'));
    } else {
        lemma_joined_push(lines.drop_first(), line);
        assert(lines.push(line).drop_first() =~= lines.drop_first().push(line));
        assert(joined(lines.push(line)) =~= joined(lines) + line.push('\n'));
    }
}

/// Splits the content of a note file into its notes.
pub fn note_lines(content: &str) -> (lines: Vec<String>)
    ensures
        line_views(lines@) == lines_of(content@),
{
    let chars = chars_of(content);
    let n: usize = chars.len();
    let mut lines: Vec<String> = Vec::new();
    let mut start: usize = 0;
    let mut i: usize = 0;
    assert(chars@.skip(0) =~= chars@);
    assert(line_views(lines@) + lines_of(chars@) =~= lines_of(chars@));
    while i < n
        invariant
            start <= i <= n,
            n == chars.len(),
            forall|j: int| start <= j < i ==> chars[j] != '\n',
            lines_of(chars@) == line_views(lines@) + lines_of(chars@.skip(start as int)),
        decreases n - i,
    {
        if chars[i] == '\n' {
            let end: usize = if i > start && chars[i - 1] == '\r' {
                i - 1
            } else {
                i
            };
            let line = string_of(&chars, start, end);
            proof {
                let rest = chars@.skip(start as int);
                let k = i - start;
                lemma_newline_at(rest, k);
                assert(rest.take(k) =~= chars@.subrange(start as int, i as int));
                assert(without_cr(rest.take(k)) =~= line@);
                assert(rest.skip(k + 1) =~= chars@.skip(i + 1));
                assert(line_views(lines@.push(line)) =~= line_views(lines@) + seq![line@]);
                assert(line_views(lines@) + (seq![line@] + lines_of(chars@.skip(i + 1)))
                    =~= line_views(lines@.push(line)) + lines_of(chars@.skip(i + 1)));
            }
            lines.push(line);
            start = i + 1;
        }
        i += 1;
    }
    if start < n {
        let line = string_of(&chars, start, n);
        proof {
            let rest = chars@.skip(start as int);
            lemma_newline_at(rest, n - start);
            assert(rest =~= line@);
            assert(line_views(lines@.push(line)) =~= line_views(lines@) + seq![line@]);
        }
        lines.push(line);
    }
    lines
}

/// Writes out the content of a file that holds `lines`.
pub fn join_lines(lines: &Vec<String>) -> (content: String)
    ensures
        content@ == joined(line_views(lines@)),
{
    let mut content = String::new();
    let mut i: usize = 0;
    while i < lines.len()
        invariant
            i <= lines.len(),
            content@ == joined(line_views(lines@).take(i as int)),
        decreases lines.len() - i,
    {
        proof {
            let all = line_views(lines@);
            lemma_joined_push(all.take(i as int), all[i as int]);
            assert(all.take(i + 1) =~= all.take(i as int).push(all[i as int]));
        }
        content.append(lines[i].as_str());
        content.push('\n');
        i += 1;
        assert(content@ =~= joined(line_views(lines@).take(i as int)));
    }
    assert(line_views(lines@).take(i as int) =~= line_views(lines@));
    content
}

/// What appending a note adds to the end of its file.
pub fn note_entry(text: &str) -> (entry: String)
    ensures
        entry@ == text@.push('\n'),
{
    let mut entry = text.to_owned();
    entry.push('\n');
    entry
}

/// The notes of a file as they are shown: `<index>: <line>` for each line.
/// A file without a line is an error.
pub fn list_notes(content: &str) -> (r: Result<Vec<String>, ErrorKind>)
    ensures
        lines_of(content@).len() == 0 ==> r is Err && r->Err_0@ == Failure::EmptyFile,
        lines_of(content@).len() > 0 ==> r is Ok && line_views(r->Ok_0@) == listing(
            lines_of(content@),
        ),
{
    let lines = note_lines(content);
    if lines.len() == 0 {
        return Err(ErrorKind::EmptyFile);
    }
    let mut shown: Vec<String> = Vec::new();
    let mut i: usize = 0;
    while i < lines.len()
        invariant
            i <= lines.len(),
            line_views(lines@) == lines_of(content@),
            shown.len() == i,
            forall|j: int| 0 <= j < i ==> #[trigger] shown[j]@ == listed_line(j as nat, lines[j]@),
        decreases lines.len() - i,
    {
        let mut entry = String::new();
        push_decimal(&mut entry, i);
        entry.append(": ");
        entry.append(lines[i].as_str());
        assert(entry@ =~= listed_line(i as nat, lines[i as int]@));
        shown.push(entry);
        i += 1;
    }
    assert(line_views(shown@) =~= listing(lines_of(content@)));
    Ok(shown)
}

/// The content of the file after the note at `index` was replaced by `text`.
pub open spec fn edited(content: Seq<char>, index: usize, text: Seq<char>) -> Result<Seq<char>, Failure> {
    let lines = lines_of(content);
    if index < lines.len() {
        Ok(joined(lines.update(index as int, text)))
    } else {
        Err(Failure::LineIndexOutOfRange(LineChange::Edit))
    }
}

/// The content of the file after the note at `index` was taken out.
pub open spec fn removed(content: Seq<char>, index: usize) -> Result<Seq<char>, Failure> {
    let lines = lines_of(content);
    if index < lines.len() {
        Ok(joined(lines.remove(index as int)))
    } else {
        Err(Failure::LineIndexOutOfRange(LineChange::Remove))
    }
}

/// The view of the result of a change to a file.
pub open spec fn change_view(r: Result<String, ErrorKind>) -> Result<Seq<char>, Failure> {
    match r {
        Ok(s) => Ok(s@),
        Err(e) => Err(e@),
    }
}

/// Replaces the note at `index` by `text` and gives the whole new content of
/// the file; every other note stays as it is and where it is.
pub fn edit_note(content: &str, index: usize, text: &str) -> (r: Result<String, ErrorKind>)
    ensures
        change_view(r) == edited(content@, index, text@),
{
    let mut lines = note_lines(content);
    if index >= lines.len() {
        return Err(ErrorKind::LineIndexOutOfRange(LineChange::Edit));
    }
    let ghost before = lines@;
    lines.set(index, text.to_owned());
    assert(line_views(lines@) =~= line_views(before).update(index as int, text@));
    Ok(join_lines(&lines))
}

/// Takes out the note at `index` and gives the whole new content of the
/// file; the notes behind it move up by one.
pub fn remove_note(content: &str, index: usize) -> (r: Result<String, ErrorKind>)
    ensures
        change_view(r) == removed(content@, index),
{
    let mut lines = note_lines(content);
    if index >= lines.len() {
        return Err(ErrorKind::LineIndexOutOfRange(LineChange::Remove));
    }
    let ghost before = lines@;
    lines.remove(index);
    assert(line_views(lines@) =~= line_views(before).remove(index as int));
    Ok(join_lines(&lines))
}

/// Whether a text holds no line feed.
pub open spec fn no_newline(line: Seq<char>) -> bool {
    forall|j: int| 0 <= j < line.len() ==> line[j] != '\n'
}

/// Whether a text ends in a carriage return.
pub open spec fn ends_in_cr(line: Seq<char>) -> bool {
    line.len() > 0 && line.last() == '\r'
}

/// Whether a text, written as one line of a file, is read back as that same
/// one line: it holds no line feed and does not end in a carriage return.
pub open spec fn is_plain_line(line: Seq<char>) -> bool {
    no_newline(line) && !ends_in_cr(line)
}

/// Whether every one of the lines is plain.
pub open spec fn all_plain(lines: Seq<Seq<char>>) -> bool {
    forall|i: int| 0 <= i < lines.len() ==> is_plain_line(#[trigger] lines[i])
}

/// Whether a file's content is empty or ends with a line feed.
pub open spec fn is_terminated(content: Seq<char>) -> bool {
    content.len() == 0 || content.last() == '\n'
}

/// `newline_at` lies within the text, no line feed stands before it, and
/// one stands at it unless it is the end of the text.
pub proof fn lemma_newline_at_bounds(s: Seq<char>)
    ensures
        0 <= newline_at(s) <= s.len(),
        forall|j: int| 0 <= j < newline_at(s) ==> s[j] != '\n',
        newline_at(s) < s.len() ==> s[newline_at(s)] == '\n',
    decreases s.len(),
{
    if s.len() == 0 || s[0] == '\n' {
    } else {
        let t = s.drop_first();
        lemma_newline_at_bounds(t);
        assert forall|j: int| 0 <= j < newline_at(s) implies s[j] != '\n' by {
            if j > 0 {
                assert(s[j] == t[j - 1]);
            }
        }
        assert(newline_at(s) < s.len() ==> s[newline_at(s)] == t[newline_at(t)]);
    }
}

/// No line of a file holds a line feed.
pub proof fn lemma_lines_hold_no_newline(s: Seq<char>)
    ensures
        forall|i: int| 0 <= i < lines_of(s).len() ==> no_newline(#[trigger] lines_of(s)[i]),
    decreases s.len(),
{
    if s.len() > 0 {
        lemma_newline_at_bounds(s);
        let k = newline_at(s);
        if k < s.len() {
            let first = without_cr(s.take(k));
            let rest = lines_of(s.skip(k + 1));
            lemma_lines_hold_no_newline(s.skip(k + 1));
            assert forall|j: int| 0 <= j < first.len() implies first[j] != '\n' by {
                assert(first[j] == s[j]);
            }
            assert forall|i: int| 0 <= i < lines_of(s).len() implies no_newline(
                #[trigger] lines_of(s)[i],
            ) by {
                if i > 0 {
                    assert(lines_of(s)[i] == rest[i - 1]);
                }
            }
        }
    }
}

/// Reading back what was written: a file written from plain lines holds
/// exactly those lines.
pub proof fn lemma_lines_of_joined(lines: Seq<Seq<char>>)
    requires
        all_plain(lines),
    ensures
        lines_of(joined(lines)) == lines,
    decreases lines.len(),
{
    if lines.len() > 0 {
        let first = lines[0];
        let others = lines.drop_first();
        let s = joined(lines);
        let k = first.len() as int;
        assert(is_plain_line(first));
        assert forall|i: int| 0 <= i < others.len() implies is_plain_line(#[trigger] others[i]) by {
            assert(others[i] == lines[i + 1]);
        }
        assert forall|j: int| 0 <= j < k implies s[j] != '\n' by {
            assert(s[j] == first[j]);
        }
        assert(s[k] == '\n');
        lemma_newline_at(s, k);
        assert(s.take(k) =~= first);
        assert(s.skip(k + 1) =~= joined(others));
        lemma_lines_of_joined(others);
        assert(lines_of(s) =~= lines);
    }
}

/// Adding a note adds a line: where the file is empty or ends with a line
/// feed, and the note is plain, the file with the note's entry at its end
/// holds the same lines as before and then the note.
pub proof fn lemma_entry_adds_line(content: Seq<char>, text: Seq<char>)
    requires
        is_terminated(content),
        is_plain_line(text),
    ensures
        lines_of(content + text.push('\n')) == lines_of(content).push(text),
    decreases content.len(),
{
    let entry = text.push('\n');
    let s = content + entry;
    if content.len() == 0 {
        let k = text.len() as int;
        assert(s =~= entry);
        assert forall|j: int| 0 <= j < k implies s[j] != '\n' by {
            assert(s[j] == text[j]);
        }
        lemma_newline_at(s, k);
        assert(s.take(k) =~= text);
        assert(s.skip(k + 1) =~= Seq::<char>::empty());
        assert(lines_of(s.skip(k + 1)) =~= Seq::<Seq<char>>::empty());
        assert(lines_of(content) =~= Seq::<Seq<char>>::empty());
        assert(lines_of(s) =~= lines_of(content).push(text));
    } else {
        lemma_newline_at_bounds(content);
        let k = newline_at(content);
        assert(k < content.len()) by {
            if k == content.len() {
                assert(content[content.len() - 1] != '\n');
            }
        }
        assert forall|j: int| 0 <= j < k implies s[j] != '\n' by {
            assert(s[j] == content[j]);
        }
        assert(s[k] == content[k]);
        lemma_newline_at(s, k);
        let rest = content.skip(k + 1);
        assert(s.take(k) =~= content.take(k));
        assert(s.skip(k + 1) =~= rest + entry);
        assert(is_terminated(rest)) by {
            if rest.len() > 0 {
                assert(rest.last() == content.last());
            }
        }
        lemma_entry_adds_line(rest, text);
        let head = without_cr(content.take(k));
        assert(lines_of(content) =~= seq![head] + lines_of(rest));
        assert(lines_of(s) =~= seq![head] + lines_of(rest + entry));
        assert(lines_of(s) =~= lines_of(content).push(text));
    }
}

/// An edit changes one note and no other: where the other lines of the file
/// do not end in a carriage return and the new text is plain, the file
/// after the edit holds the lines it held, with the new text at the index.
pub proof fn lemma_edit_replaces_line(content: Seq<char>, index: usize, text: Seq<char>)
    requires
        index < lines_of(content).len(),
        is_plain_line(text),
        forall|i: int| 0 <= i < lines_of(content).len() && i != index ==> !ends_in_cr(#[trigger] lines_of(content)[i]),
    ensures
        edited(content, index, text) is Ok,
        lines_of(edited(content, index, text)->Ok_0) == lines_of(content).update(index as int, text),
{
    lemma_lines_hold_no_newline(content);
    lemma_lines_of_joined(lines_of(content).update(index as int, text));
}

/// A removal takes out one note and no other: where the other lines of the
/// file do not end in a carriage return, the file after the removal holds
/// the lines it held without the one at the index, those behind it one
/// place further up.
pub proof fn lemma_remove_shifts_lines(content: Seq<char>, index: usize)
    requires
        index < lines_of(content).len(),
        forall|i: int| 0 <= i < lines_of(content).len() && i != index ==> !ends_in_cr(#[trigger] lines_of(content)[i]),
    ensures
        removed(content, index) is Ok,
        lines_of(removed(content, index)->Ok_0) == lines_of(content).remove(index as int),
{
    lemma_lines_hold_no_newline(content);
    let lines = lines_of(content);
    let left = lines.remove(index as int);
    assert forall|i: int| 0 <= i < left.len() implies is_plain_line(#[trigger] left[i]) by {
        if i < index {
            assert(left[i] == lines[i]);
        } else {
            assert(left[i] == lines[i + 1]);
        }
    }
    lemma_lines_of_joined(left);
}

/// An index that names no line changes nothing: the edit and the removal
/// fail, each with its own failure, and give no new content.
pub proof fn lemma_out_of_range_gives_no_content(content: Seq<char>, index: usize, text: Seq<char>)
    requires
        index >= lines_of(content).len(),
    ensures
        edited(content, index, text) == Err::<Seq<char>, Failure>(
            Failure::LineIndexOutOfRange(LineChange::Edit),
        ),
        removed(content, index) == Err::<Seq<char>, Failure>(
            Failure::LineIndexOutOfRange(LineChange::Remove),
        ),
{
}

/// Taking the first of two notes out of a file leaves a file of one note,
/// the one that was second, unless that one ends in a carriage return.
pub proof fn lemma_remove_first_of_two(content: Seq<char>)
    requires
        lines_of(content).len() == 2,
        !ends_in_cr(lines_of(content)[1]),
    ensures
        removed(content, 0) is Ok,
        lines_of(removed(content, 0)->Ok_0) == seq![lines_of(content)[1]],
{
    lemma_remove_shifts_lines(content, 0);
    assert(lines_of(content).remove(0) =~= seq![lines_of(content)[1]]);
}

} // verus!
