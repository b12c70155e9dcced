use rn::error::{ErrorKind, LineChange};
use rn::help::help_lines;
use rn::notes::{edit_note, join_lines, list_notes, note_entry, note_lines, remove_note};
use rn::number::{digit_of, push_decimal};
use rn::text::{chars_of, string_of};

fn strings(items: &[&str]) -> Vec<String> {
    items.iter().map(|t| t.to_string()).collect()
}

#[test]
fn lines_of_a_file() {
    assert_eq!(note_lines(""), strings(&[]));
    assert_eq!(note_lines("a"), strings(&["a"]));
    assert_eq!(note_lines("a\n"), strings(&["a"]));
    assert_eq!(note_lines("a\nb\n"), strings(&["a", "b"]));
    assert_eq!(note_lines("a\nb"), strings(&["a", "b"]));
    assert_eq!(note_lines("\n"), strings(&[""]));
    assert_eq!(note_lines("\n\n"), strings(&["", ""]));
    assert_eq!(note_lines("a\n\nb\n"), strings(&["a", "", "b"]));
    assert_eq!(note_lines("a\r\nb\r\n"), strings(&["a", "b"]));
    assert_eq!(note_lines("a\rb\n"), strings(&["a\rb"]));
    assert_eq!(note_lines("a\r"), strings(&["a\r"]));
    assert_eq!(note_lines("a\r\r\n"), strings(&["a\r"]));
    assert_eq!(note_lines("\r\n"), strings(&[""]));
    assert_eq!(note_lines("päivää\nεὖ\n"), strings(&["päivää", "εὖ"]));
}

#[test]
fn lines_agree_with_the_standard_splitter() {
    let samples = [
        "", "\n", "\r", "\r\n", "\n\r", "a", "a\n", "a\r\n", "a\r", "a\n\n", "\na", "a\nb",
        "a\r\nb", "a\n\rb\n", "one\ntwo\nthree\n", "x\r\r\ny", "\r\n\r\n", "é\nü\r\n😀",
    ];
    for s in samples {
        let expected: Vec<String> = s.lines().map(|l| l.to_string()).collect();
        assert_eq!(note_lines(s), expected, "content {:?}", s);
    }
}

#[test]
fn joining_lines() {
    assert_eq!(join_lines(&strings(&[])), "");
    assert_eq!(join_lines(&strings(&["a"])), "a\n");
    assert_eq!(join_lines(&strings(&["a", "", "b c"])), "a\n\nb c\n");
    assert_eq!(note_lines(&join_lines(&strings(&["x", "y", ""]))), strings(&["x", "y", ""]));
}

#[test]
fn entry_of_a_note() {
    assert_eq!(note_entry("this is my note"), "this is my note\n");
    assert_eq!(note_entry(""), "\n");
}

#[test]
fn listing_notes() {
    assert_eq!(list_notes("a\nb\n"), Ok(strings(&["0: a", "1: b"])));
    assert_eq!(list_notes("\n"), Ok(strings(&["0: "])));
    assert_eq!(list_notes(""), Err(ErrorKind::EmptyFile));
    let long = "x\n".repeat(12);
    let shown = list_notes(&long).unwrap();
    assert_eq!(shown.len(), 12);
    assert_eq!(shown[9], "9: x");
    assert_eq!(shown[10], "10: x");
    assert_eq!(shown[11], "11: x");
}

#[test]
fn editing_a_note() {
    assert_eq!(edit_note("a\nb\nc\n", 0, "x"), Ok("x\nb\nc\n".to_string()));
    assert_eq!(edit_note("a\nb\nc", 2, "x y"), Ok("a\nb\nx y\n".to_string()));
    assert_eq!(edit_note("a\r\nb\r\n", 1, "z"), Ok("a\nz\n".to_string()));
    assert_eq!(
        edit_note("a\nb\nc\n", 3, "x"),
        Err(ErrorKind::LineIndexOutOfRange(LineChange::Edit))
    );
    assert_eq!(edit_note("", 0, "x"), Err(ErrorKind::LineIndexOutOfRange(LineChange::Edit)));
}

#[test]
fn removing_a_note() {
    assert_eq!(remove_note("a\nb\n", 0), Ok("b\n".to_string()));
    assert_eq!(remove_note("a\nb\nc\n", 1), Ok("a\nc\n".to_string()));
    assert_eq!(remove_note("a\n", 0), Ok("".to_string()));
    assert_eq!(
        remove_note("a\nb\n", 2),
        Err(ErrorKind::LineIndexOutOfRange(LineChange::Remove))
    );
    assert_eq!(remove_note("", 0), Err(ErrorKind::LineIndexOutOfRange(LineChange::Remove)));
}

#[test]
fn decimal_writing() {
    for n in [0usize, 1, 9, 10, 11, 99, 100, 101, 1234567890, usize::MAX] {
        let mut out = String::from("#");
        push_decimal(&mut out, n);
        assert_eq!(out, format!("#{}", n));
        assert_eq!(rn::number::parse_index(&out[1..]), Some(n));
    }
}

#[test]
fn digits() {
    assert_eq!(digit_of('0'), Some(0));
    assert_eq!(digit_of('7'), Some(7));
    assert_eq!(digit_of('9'), Some(9));
    assert_eq!(digit_of('/'), None);
    assert_eq!(digit_of(':'), None);
    assert_eq!(digit_of('a'), None);
    assert_eq!(digit_of('٣'), None);
}

#[test]
fn characters_of_a_string() {
    assert_eq!(chars_of(""), Vec::<char>::new());
    assert_eq!(chars_of("héllo"), vec!['h', 'é', 'l', 'l', 'o']);
    let v = chars_of("héllo wörld");
    assert_eq!(string_of(&v, 0, v.len()), "héllo wörld");
    assert_eq!(string_of(&v, 1, 5), "éllo");
    assert_eq!(string_of(&v, 3, 3), "");
}

#[test]
fn usage_summary() {
    let lines = help_lines();
    assert_eq!(lines.len(), 36);
    assert_eq!(
        lines[0],
        "rn is a simple utility for taking and storing notes using the command line."
    );
    assert_eq!(lines[1], "");
    assert_eq!(lines[35], "rn r <filename>");
    for form in [
        "rn help", "rn h", "rn", "rn list", "rn l", "rn <filename> <note>",
        "rn <filename> add <note>", "rn <filename> a <note>", "rn <filename> list",
        "rn <filename> l", "rn <filename> remove <index>", "rn <filename> r <index>",
        "rn <filename> edit <index> <newtext>", "rn <filename> e <index> <newtext>",
        "rn open <filename>", "rn o <filename>", "rn remove <filename>", "rn r <filename>",
    ] {
        assert!(lines.iter().any(|l| l == form), "{}", form);
    }
}
