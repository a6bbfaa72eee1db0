use cxl_fm::vocabulary::all_commands;
use cxl_fm::wire::check_command_id;
use cxl_fm::wire::decode;
use cxl_fm::wire::encode;
use cxl_fm::wire::find_line_end;
use cxl_fm::wire::first_line;
use cxl_fm::wire::same_text;
use cxl_fm::wire::LINE_TERMINATOR;

#[test]
fn encode_appends_one_line_feed() {
    assert_eq!(encode("GET_FM_INFO"), "GET_FM_INFO\n");
    assert_eq!(encode("NO_DATA"), "NO_DATA\n");
    assert_eq!(encode(""), "\n");
    assert_eq!(LINE_TERMINATOR, "\n");
}

#[test]
fn encode_keeps_the_text_as_it_is() {
    assert_eq!(encode("a b\tc"), "a b\tc\n");
    assert_eq!(encode("ünïcödé"), "ünïcödé\n");
    assert_eq!(encode("two\nlines"), "two\nlines\n");
}

#[test]
fn decode_takes_the_line_verbatim() {
    assert_eq!(decode("GET_FM_INFO"), "GET_FM_INFO");
    assert_eq!(decode("get_fm_info"), "get_fm_info");
    assert_eq!(decode(" GET_FM_INFO "), " GET_FM_INFO ");
    assert_eq!(decode(""), "");
}

#[test]
fn first_line_of_nothing_is_none() {
    assert_eq!(first_line(""), None);
}

#[test]
fn first_line_strips_the_line_feed() {
    assert_eq!(first_line("GET_FM_INFO\n"), Some(String::from("GET_FM_INFO")));
}

#[test]
fn first_line_strips_carriage_return_and_line_feed() {
    assert_eq!(first_line("GET_FM_INFO\r\n"), Some(String::from("GET_FM_INFO")));
    assert_eq!(first_line("\r\n"), Some(String::new()));
    assert_eq!(first_line("A\r\r\n"), Some(String::from("A\r")));
}

#[test]
fn first_line_of_a_bare_terminator_is_empty() {
    assert_eq!(first_line("\n"), Some(String::new()));
}

#[test]
fn first_line_accepts_an_unterminated_line() {
    assert_eq!(first_line("GET_FM_INFO"), Some(String::from("GET_FM_INFO")));
    assert_eq!(first_line("GET_FM_INFO\r"), Some(String::from("GET_FM_INFO\r")));
}

#[test]
fn first_line_stops_at_the_first_line_feed() {
    assert_eq!(first_line("FIRST\nSECOND\n"), Some(String::from("FIRST")));
    assert_eq!(first_line("\nSECOND\n"), Some(String::new()));
    assert_eq!(first_line("a\rb\nc"), Some(String::from("a\rb")));
}

#[test]
fn first_line_counts_characters_not_bytes() {
    assert_eq!(first_line("ünï\r\nrest"), Some(String::from("ünï")));
    assert_eq!(first_line("日本語\n"), Some(String::from("日本語")));
}

#[test]
fn find_line_end_gives_the_place_of_the_first_line_feed() {
    assert_eq!(find_line_end(""), 0);
    assert_eq!(find_line_end("\n"), 0);
    assert_eq!(find_line_end("abc"), 3);
    assert_eq!(find_line_end("abc\n"), 3);
    assert_eq!(find_line_end("ab\ncd\n"), 2);
    assert_eq!(find_line_end("üü\n"), 2);
}

#[test]
fn round_trip_of_every_command() {
    for command in all_commands() {
        let wire = encode(command.id());
        let line = first_line(&wire).expect("an encoded command is a line");
        assert_eq!(decode(&line), command.id());
    }
}

#[test]
fn round_trip_fails_only_on_line_terminators() {
    assert_eq!(first_line(&encode("A B")), Some(String::from("A B")));
    assert_eq!(first_line(&encode("A\rB")), Some(String::from("A\rB")));
    assert_eq!(first_line(&encode("A\r")), Some(String::from("A")));
    assert_eq!(first_line(&encode("A\nB")), Some(String::from("A")));
}

#[test]
fn same_text_compares_character_by_character() {
    assert!(same_text("", ""));
    assert!(same_text("GET_FM_INFO", "GET_FM_INFO"));
    assert!(!same_text("GET_FM_INFO", "GET_FM_INFOS"));
    assert!(!same_text("GET_FM_INFOS", "GET_FM_INFO"));
    assert!(!same_text("GET_FM_INFO", "SET_FM_INFO"));
    assert!(!same_text("GET_FM_INFO", "GET_FM_INFo"));
    assert!(!same_text("", "x"));
    assert!(!same_text("x", ""));
    assert!(same_text("ünï", "ünï"));
    assert!(!same_text("ünï", "uni"));
}

#[test]
fn command_ids_are_not_empty_and_hold_no_line_terminator() {
    assert!(check_command_id("GET_FM_INFO"));
    assert!(check_command_id("x"));
    assert!(check_command_id("with space"));
    assert!(!check_command_id(""));
    assert!(!check_command_id("\n"));
    assert!(!check_command_id("A\nB"));
    assert!(!check_command_id("A\n"));
    assert!(!check_command_id("A\r"));
    assert!(!check_command_id("\rA"));
}
