use factory_env::shell_file::{
    assignment_line, assignment_value_of, candidate_files, config_file_for_shell, contains_text,
    find_value_in_content, is_assignment_line, merge_assignment, read_value, unquote_char,
    write_confirmation,
};
use factory_env::text::{join, split_lines};

fn count_assignments(text: &str) -> usize {
    split_lines(text).iter().filter(|l| is_assignment_line(l)).count()
}

#[test]
fn split_lines_follows_str_lines() {
    assert_eq!(split_lines("a\r\nb\n\nc"), vec!["a", "b", "", "c"]);
    assert_eq!(split_lines("x\r"), vec!["x\r"]);
    assert_eq!(split_lines("a\n"), vec!["a"]);
    assert!(split_lines("").is_empty());
    let text = "one\r\ntwo\n\nthree\r\r\nfour\r";
    let expected: Vec<String> = text.lines().map(|l| l.to_string()).collect();
    assert_eq!(split_lines(text), expected);
}

#[test]
fn join_uses_single_line_feeds() {
    let ls = vec!["a".to_string(), "".to_string(), "b".to_string()];
    assert_eq!(join(&ls), "a\n\nb");
    assert_eq!(join(&Vec::new()), "");
}

#[test]
fn assignment_line_quotes_value_verbatim() {
    assert_eq!(assignment_line("abc"), "export FACTORY_API_KEY=\"abc\"");
    assert_eq!(assignment_line("a\"b"), "export FACTORY_API_KEY=\"a\"b\"");
}

#[test]
fn assignment_lines_are_recognised_by_prefix() {
    assert!(is_assignment_line("export FACTORY_API_KEY="));
    assert!(is_assignment_line("export FACTORY_API_KEY=x"));
    assert!(!is_assignment_line(" export FACTORY_API_KEY=x"));
    assert!(!is_assignment_line("export FACTORY_API_KEY"));
    assert!(!is_assignment_line("export OTHER=x"));
}

#[test]
fn unquotes_one_layer_of_one_character() {
    assert_eq!(unquote_char("\"\"abc\"", '"'), "\"abc");
    assert_eq!(unquote_char("\"", '"'), "");
    assert_eq!(unquote_char("\"\"", '"'), "");
    assert_eq!(unquote_char("a\"b", '"'), "a\"b");
}

#[test]
fn reader_strips_only_one_layer_of_quotes() {
    assert_eq!(
        find_value_in_content("export FACTORY_API_KEY=\"\"abc\"\""),
        Some("\"abc\"".to_string())
    );
    assert_eq!(find_value_in_content("export FACTORY_API_KEY=''abc''"), Some("'abc'".to_string()));
    let written = merge_assignment("", "\"quoted\"");
    assert_eq!(find_value_in_content(&written), Some("\"quoted\"".to_string()));
}

#[test]
fn assignment_value_strips_double_then_single_quotes() {
    assert_eq!(assignment_value_of("export FACTORY_API_KEY=\"'x'\""), "x");
    assert_eq!(assignment_value_of("export FACTORY_API_KEY='\"x\"'"), "\"x\"");
    assert_eq!(assignment_value_of("export FACTORY_API_KEY=plain"), "plain");
}

#[test]
fn quote_stripping_single_and_double() {
    assert_eq!(find_value_in_content("export FACTORY_API_KEY='abc'"), Some("abc".to_string()));
    assert_eq!(find_value_in_content("export FACTORY_API_KEY=\"abc\""), Some("abc".to_string()));
}

#[test]
fn reader_skips_empty_values_and_other_lines() {
    let content = "# comment\nexport FACTORY_API_KEY=\"\"\nexport FACTORY_API_KEY=x\nexport FACTORY_API_KEY=y\n";
    assert_eq!(find_value_in_content(content), Some("x".to_string()));
    assert_eq!(find_value_in_content("export OTHER=1\n"), None);
    assert_eq!(find_value_in_content(""), None);
}

#[test]
fn merge_appends_to_content_without_newline() {
    assert_eq!(
        merge_assignment("alias ll='ls -l'", "abc"),
        "alias ll='ls -l'\nexport FACTORY_API_KEY=\"abc\"\n"
    );
    assert_eq!(merge_assignment("a\n", "abc"), "a\nexport FACTORY_API_KEY=\"abc\"\n");
}

#[test]
fn merge_into_empty_content() {
    assert_eq!(merge_assignment("", "abc"), "export FACTORY_API_KEY=\"abc\"\n");
}

#[test]
fn merge_replaces_in_place() {
    assert_eq!(
        merge_assignment("a\nexport FACTORY_API_KEY=old\nb\n", "new"),
        "a\nexport FACTORY_API_KEY=\"new\"\nb"
    );
}

#[test]
fn merge_keeps_a_single_assignment() {
    let content = "export FACTORY_API_KEY=1\nx\nexport FACTORY_API_KEY=2\n";
    assert_eq!(merge_assignment(content, "v"), "export FACTORY_API_KEY=\"v\"\nx");
}

#[test]
fn idempotent_replace_after_two_writes() {
    let start = "# profile\nexport PATH=/bin\n\n";
    let once = merge_assignment(start, "V1");
    let twice = merge_assignment(&once, "V2");
    assert_eq!(count_assignments(&twice), 1);
    assert_eq!(twice, "# profile\nexport PATH=/bin\n\nexport FACTORY_API_KEY=\"V2\"");
    assert_eq!(find_value_in_content(&twice), Some("V2".to_string()));
    assert!(split_lines(&twice).len() <= split_lines(&once).len());
    assert!(!twice.ends_with("\n\n"));
}

#[test]
fn append_when_absent_keeps_other_lines() {
    let start = "export PATH=/bin\nalias x=y\n# end";
    let before = split_lines(start);
    let after_text = merge_assignment(start, "K");
    let after = split_lines(&after_text);
    assert_eq!(after.len(), before.len() + 1);
    assert_eq!(after[..before.len()], before[..]);
    assert_eq!(after.last().unwrap(), "export FACTORY_API_KEY=\"K\"");
    assert_eq!(count_assignments(&after_text), 1);
}

#[test]
fn append_after_bare_carriage_return_completes_the_line() {
    let after = merge_assignment("abc\r", "K");
    assert_eq!(after, "abc\r\nexport FACTORY_API_KEY=\"K\"\n");
    assert_eq!(split_lines(&after), vec!["abc", "export FACTORY_API_KEY=\"K\""]);
    let crlf = merge_assignment("a\r\nb\r\n", "K");
    assert_eq!(split_lines(&crlf), vec!["a", "b", "export FACTORY_API_KEY=\"K\""]);
}

#[test]
fn round_trip_through_process_value_and_file() {
    let files = vec![Some("export FACTORY_API_KEY=OTHER".to_string()), None];
    assert_eq!(read_value(Some("tok-123".to_string()), &files), Some("tok-123".to_string()));
    let written = merge_assignment("export FACTORY_API_KEY=OLD\n", "tok-123");
    assert_eq!(find_value_in_content(&written), Some("tok-123".to_string()));
    assert_eq!(read_value(None, &vec![Some(written)]), Some("tok-123".to_string()));
}

#[test]
fn absence_on_empty_home() {
    assert_eq!(read_value(None, &vec![None, None, None, None]), None);
    assert_eq!(read_value(None, &Vec::new()), None);
}

#[test]
fn reader_prefers_process_value_even_when_empty() {
    let files = vec![Some("export FACTORY_API_KEY=f".to_string())];
    assert_eq!(read_value(Some(String::new()), &files), Some(String::new()));
}

#[test]
fn reader_takes_files_in_order() {
    let files = vec![
        None,
        Some("nothing here\n".to_string()),
        Some("export FACTORY_API_KEY=b".to_string()),
        Some("export FACTORY_API_KEY=c".to_string()),
    ];
    assert_eq!(read_value(None, &files), Some("b".to_string()));
}

#[test]
fn candidate_files_in_priority_order() {
    assert_eq!(candidate_files(), vec![".zshrc", ".bashrc", ".bash_profile", ".profile"]);
}

#[test]
fn shell_hint_selects_file() {
    assert_eq!(config_file_for_shell("/bin/zsh"), ".zshrc");
    assert_eq!(config_file_for_shell("/usr/bin/bash"), ".bashrc");
    assert_eq!(config_file_for_shell("/bin/fish"), ".profile");
    assert_eq!(config_file_for_shell(""), ".profile");
    assert!(contains_text("abc", ""));
    assert!(!contains_text("ab", "abc"));
}

#[test]
fn zsh_hint_rewrites_only_zshrc() {
    let bashrc = "export FACTORY_API_KEY=OLD\n".to_string();
    let zshrc = "export FACTORY_API_KEY=NEWER\n".to_string();
    let target = config_file_for_shell("/bin/zsh");
    assert_eq!(target, ".zshrc");
    let new_zshrc = merge_assignment(&zshrc, "X");
    assert_eq!(new_zshrc, "export FACTORY_API_KEY=\"X\"");
    assert_eq!(find_value_in_content(&bashrc), Some("OLD".to_string()));
    let files = vec![Some(new_zshrc), Some(bashrc), None, None];
    assert_eq!(read_value(Some("X".to_string()), &files), Some("X".to_string()));
    assert_eq!(read_value(None, &files), Some("X".to_string()));
}

#[test]
fn confirmation_names_the_file_twice() {
    assert_eq!(
        write_confirmation(".zshrc"),
        "环境变量已写入 .zshrc，请重新打开终端或执行 source ~/.zshrc 使其生效"
    );
}
