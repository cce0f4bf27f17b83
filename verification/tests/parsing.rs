use logicrpc::logic::get_logic_project_name;
use logicrpc::utils::{osascript_command, shell_quote};

#[test]
fn project_name_is_recovered_from_the_raw_answer() {
    assert_eq!(get_logic_project_name("MySong.logicx\n"), Some("MySong".to_string()));
}

#[test]
fn empty_answer_means_no_document() {
    assert_eq!(get_logic_project_name(""), None);
}

#[test]
fn blank_answer_means_no_document() {
    assert_eq!(get_logic_project_name(" \t\r\n"), None);
}

#[test]
fn answer_without_the_project_suffix_means_no_document() {
    assert_eq!(get_logic_project_name("MySong\n"), None);
}

#[test]
fn bare_suffix_gives_the_empty_name() {
    assert_eq!(get_logic_project_name(".logicx"), Some("".to_string()));
}

#[test]
fn spaces_inside_the_name_are_kept() {
    assert_eq!(get_logic_project_name("  My Song.logicx  \n"), Some("My Song".to_string()));
}

#[test]
fn unicode_white_space_is_trimmed_from_both_ends() {
    assert_eq!(get_logic_project_name("\u{a0}Song.logicx\u{2028}\u{3000}"), Some("Song".to_string()));
}

#[test]
fn suffix_must_be_at_the_very_end() {
    assert_eq!(get_logic_project_name("a.logicx.bak"), None);
}

#[test]
fn quoting_wraps_in_single_quotes() {
    assert_eq!(shell_quote("abc"), "'abc'");
}

#[test]
fn quoting_escapes_single_quotes() {
    assert_eq!(shell_quote("a'b"), "'a'\\''b'");
}

#[test]
fn quoting_the_empty_string() {
    assert_eq!(shell_quote(""), "''");
}

#[test]
fn script_command_line_quotes_the_script() {
    assert_eq!(
        osascript_command("tell it to 'go'"),
        "osascript -e 'tell it to '\\''go'\\'''"
    );
}
