use rn::number::parse_index;
use rn::parsearguments::{rn_get_command_type, CommandType};

fn fake_args(arg1: &str, arg2: &str, arg3: &str) -> Vec<String> {
    vec![
        "rn".to_string(),
        arg1.to_string(),
        arg2.to_string(),
        arg3.to_string(),
    ]
}

fn args_of(tokens: &[&str]) -> Vec<String> {
    tokens.iter().map(|t| t.to_string()).collect()
}

fn too_few() -> CommandType {
    CommandType::Error("Too few arguments.".to_string())
}

#[test]
fn test_help() {
    let mut args = fake_args("help", "", "");
    let mut result = rn_get_command_type(args);
    assert_eq!(result, CommandType::PrintHelp);
    args = fake_args("h", "", "");
    result = rn_get_command_type(args);
    assert_eq!(result, CommandType::PrintHelp);
    args = vec!["rn".to_string()];
    result = rn_get_command_type(args);
    assert_eq!(result, CommandType::PrintHelp);
}

#[test]
fn test_add_notefile() {
    let mut args = fake_args("notefile", "test note", "");
    let mut result = rn_get_command_type(args);
    assert_eq!(
        result,
        CommandType::AddNoteToFile("notefile".to_string(), "test note".to_string())
    );
    args = fake_args("notefile", "add", "test note");
    result = rn_get_command_type(args);
    assert_eq!(
        result,
        CommandType::AddNoteToFile("notefile".to_string(), "test note".to_string())
    );
    args = fake_args("notefile", "a", "test note");
    result = rn_get_command_type(args);
    assert_eq!(
        result,
        CommandType::AddNoteToFile("notefile".to_string(), "test note".to_string())
    );
}

#[test]
fn test_list_notefiles() {
    let mut args = fake_args("list", "", "");
    let mut result = rn_get_command_type(args);
    assert_eq!(result, CommandType::ListNoteFiles);
    args = fake_args("l", "", "");
    result = rn_get_command_type(args);
    assert_eq!(result, CommandType::ListNoteFiles);
}

#[test]
fn test_list_notes_in_notefiles() {
    let mut args = fake_args("notefile", "list", "");
    let mut result = rn_get_command_type(args);
    assert_eq!(result, CommandType::ListNotesInFile("notefile".to_string()));
    args = fake_args("notefile", "l", "");
    result = rn_get_command_type(args);
    assert_eq!(result, CommandType::ListNotesInFile("notefile".to_string()));
}

#[test]
fn test_remove_note_from_notefile() {
    let mut args = fake_args("notefile", "remove", "5");
    let mut result = rn_get_command_type(args);
    assert_eq!(
        result,
        CommandType::RemoveNoteFromFile("notefile".to_string(), 5)
    );
    args = fake_args("notefile", "r", "5");
    result = rn_get_command_type(args);
    assert_eq!(
        result,
        CommandType::RemoveNoteFromFile("notefile".to_string(), 5)
    );
}

// An edit carries the new text of the note, so the command line of an edit
// has one token more than that of a removal.
#[test]
fn test_edit_note_in_notefile() {
    let mut args = fake_args("notefile", "edit", "5");
    args.push("new text".to_string());
    let mut result = rn_get_command_type(args);
    assert_eq!(
        result,
        CommandType::EditNoteInFile("notefile".to_string(), 5, "new text".to_string())
    );
    args = fake_args("notefile", "e", "5");
    args.push("new text".to_string());
    result = rn_get_command_type(args);
    assert_eq!(
        result,
        CommandType::EditNoteInFile("notefile".to_string(), 5, "new text".to_string())
    );
    assert_eq!(rn_get_command_type(fake_args("notefile", "edit", "5")), too_few());
    assert_eq!(rn_get_command_type(fake_args("notefile", "e", "5")), too_few());
}

#[test]
fn test_open_notefile_in_editor() {
    let mut args = fake_args("open", "notefile", "");
    let mut result = rn_get_command_type(args);
    assert_eq!(
        result,
        CommandType::OpenNoteFileInEditor("notefile".to_string())
    );
    args = fake_args("o", "notefile", "");
    result = rn_get_command_type(args);
    assert_eq!(
        result,
        CommandType::OpenNoteFileInEditor("notefile".to_string())
    );
}

#[test]
fn test_remove_notefile() {
    let mut args = fake_args("remove", "notefile", "");
    let mut result = rn_get_command_type(args);
    assert_eq!(result, CommandType::RemoveNoteFile("notefile".to_string()));
    args = fake_args("r", "notefile", "");
    result = rn_get_command_type(args);
    assert_eq!(result, CommandType::RemoveNoteFile("notefile".to_string()));
}

#[test]
fn parses_help_forms() {
    assert_eq!(rn_get_command_type(args_of(&["prog"])), CommandType::PrintHelp);
    assert_eq!(rn_get_command_type(args_of(&["prog", "help"])), CommandType::PrintHelp);
    assert_eq!(rn_get_command_type(args_of(&["prog", "h"])), CommandType::PrintHelp);
    assert_eq!(rn_get_command_type(args_of(&[])), CommandType::PrintHelp);
    assert_eq!(
        rn_get_command_type(args_of(&["prog", "help", "whatever"])),
        CommandType::PrintHelp
    );
}

#[test]
fn parses_list_forms() {
    assert_eq!(rn_get_command_type(args_of(&["prog", "list"])), CommandType::ListNoteFiles);
    assert_eq!(rn_get_command_type(args_of(&["prog", "l"])), CommandType::ListNoteFiles);
}

#[test]
fn parses_bare_note() {
    assert_eq!(
        rn_get_command_type(args_of(&["prog", "notefile", "this is my note"])),
        CommandType::AddNoteToFile("notefile".to_string(), "this is my note".to_string())
    );
}

#[test]
fn parses_add_forms() {
    let expected = CommandType::AddNoteToFile("notefile".to_string(), "x".to_string());
    assert_eq!(rn_get_command_type(args_of(&["prog", "notefile", "add", "x"])), expected);
    assert_eq!(rn_get_command_type(args_of(&["prog", "notefile", "a", "x"])), expected);
}

#[test]
fn remove_without_index_is_invalid() {
    assert_eq!(rn_get_command_type(args_of(&["prog", "notefile", "remove"])), too_few());
    assert_eq!(rn_get_command_type(args_of(&["prog", "notefile", "r"])), too_few());
}

#[test]
fn parses_edit_and_rejects_bad_index() {
    assert_eq!(
        rn_get_command_type(args_of(&["prog", "notefile", "edit", "5", "new text"])),
        CommandType::EditNoteInFile("notefile".to_string(), 5, "new text".to_string())
    );
    assert_eq!(
        rn_get_command_type(args_of(&["prog", "notefile", "edit", "abc", "x"])),
        CommandType::Error("Unable to parse string to id: abc".to_string())
    );
    assert_eq!(
        rn_get_command_type(args_of(&["prog", "notefile", "remove", "-1"])),
        CommandType::Error("Unable to parse string to id: -1".to_string())
    );
}

#[test]
fn too_few_arguments_everywhere() {
    assert_eq!(rn_get_command_type(args_of(&["prog", "remove"])), too_few());
    assert_eq!(rn_get_command_type(args_of(&["prog", "r"])), too_few());
    assert_eq!(rn_get_command_type(args_of(&["prog", "open"])), too_few());
    assert_eq!(rn_get_command_type(args_of(&["prog", "o"])), too_few());
    assert_eq!(rn_get_command_type(args_of(&["prog", "notefile"])), too_few());
    assert_eq!(rn_get_command_type(args_of(&["prog", "notefile", "add"])), too_few());
    assert_eq!(rn_get_command_type(args_of(&["prog", "notefile", "edit"])), too_few());
    assert_eq!(rn_get_command_type(args_of(&["prog", "notefile", "edit", "abc"])), too_few());
}

#[test]
fn verbs_win_over_content() {
    assert_eq!(
        rn_get_command_type(args_of(&["prog", "notefile", "list", "extra"])),
        CommandType::ListNotesInFile("notefile".to_string())
    );
    assert_eq!(
        rn_get_command_type(args_of(&["prog", "list", "remove"])),
        CommandType::ListNoteFiles
    );
    assert_eq!(
        rn_get_command_type(args_of(&["prog", "Help", "List"])),
        CommandType::AddNoteToFile("Help".to_string(), "List".to_string())
    );
    assert_eq!(
        rn_get_command_type(args_of(&["prog", "notefile", ""])),
        CommandType::AddNoteToFile("notefile".to_string(), "".to_string())
    );
}

#[test]
fn index_tokens() {
    assert_eq!(parse_index("0"), Some(0));
    assert_eq!(parse_index("5"), Some(5));
    assert_eq!(parse_index("+5"), Some(5));
    assert_eq!(parse_index("007"), Some(7));
    assert_eq!(parse_index("1234567890"), Some(1234567890));
    assert_eq!(parse_index(""), None);
    assert_eq!(parse_index("+"), None);
    assert_eq!(parse_index("-"), None);
    assert_eq!(parse_index("-1"), None);
    assert_eq!(parse_index("-0"), None);
    assert_eq!(parse_index("++1"), None);
    assert_eq!(parse_index(" 5"), None);
    assert_eq!(parse_index("5 "), None);
    assert_eq!(parse_index("1_000"), None);
    assert_eq!(parse_index("abc"), None);
    assert_eq!(parse_index("١٢"), None);
    assert_eq!(parse_index(&usize::MAX.to_string()), Some(usize::MAX));
    assert_eq!(parse_index(&format!("{}0", usize::MAX)), None);
    assert_eq!(parse_index(&format!("{}", (usize::MAX as u128) + 1)), None);
}

#[test]
fn index_tokens_agree_with_the_standard_parser() {
    let tokens = [
        "0", "1", "9", "10", "+0", "+12", "-3", "", "+", "-", "00", "0x10", "1e3", "12a", "a12",
        "4294967295", "4294967296", "18446744073709551615", "18446744073709551616",
        "99999999999999999999999", "+18446744073709551615", "٣", " ", "1 2", "\n1",
    ];
    for t in tokens {
        assert_eq!(parse_index(t), t.parse::<usize>().ok(), "token {:?}", t);
    }
}
