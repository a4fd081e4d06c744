use iflow_supervisor::command::{oauth_command, service_command, CommandLine};
use iflow_supervisor::text::{characters, find_last_nonempty_line, join, render_decimal};

#[test]
fn decimal_of_small_and_large_numbers() {
    assert_eq!(render_decimal(0), "0");
    assert_eq!(render_decimal(7), "7");
    assert_eq!(render_decimal(10), "10");
    assert_eq!(render_decimal(8000), "8000");
    assert_eq!(render_decimal(65535), "65535");
    assert_eq!(render_decimal(40102), "40102");
}

#[test]
fn decimal_agrees_with_the_standard_library() {
    let mut n: u16 = 0;
    loop {
        assert_eq!(render_decimal(n), n.to_string());
        if n > u16::MAX - 97 {
            break;
        }
        n += 97;
    }
}

#[test]
fn characters_of_a_text() {
    assert_eq!(characters(""), Vec::<char>::new());
    assert_eq!(characters("a\u{e9}\n"), vec!['a', '\u{e9}', '\n']);
}

#[test]
fn join_puts_the_separator_between_parts() {
    assert_eq!(join(&vec![], " or "), "");
    assert_eq!(join(&vec!["a".to_string()], " or "), "a");
    assert_eq!(join(&vec!["a".to_string(), "b".to_string()], " or "), "a or b");
    assert_eq!(
        join(&vec!["a".to_string(), "".to_string(), "c".to_string()], ", "),
        "a, , c"
    );
}

#[test]
fn last_line_of_text_without_lines() {
    assert_eq!(find_last_nonempty_line(""), None);
    assert_eq!(find_last_nonempty_line("\n"), None);
    assert_eq!(find_last_nonempty_line("\n\n\n"), None);
    assert_eq!(find_last_nonempty_line("\r\n\r\n"), None);
}

#[test]
fn last_line_with_and_without_ending() {
    assert_eq!(find_last_nonempty_line("a"), Some("a"));
    assert_eq!(find_last_nonempty_line("a\n"), Some("a"));
    assert_eq!(find_last_nonempty_line("a\nb"), Some("b"));
    assert_eq!(find_last_nonempty_line("a\nb\n"), Some("b"));
    assert_eq!(find_last_nonempty_line("first\nsecond\r\n"), Some("second"));
}

#[test]
fn last_line_skips_empty_lines_at_the_end() {
    assert_eq!(find_last_nonempty_line("a\n\n"), Some("a"));
    assert_eq!(find_last_nonempty_line("a\nb\n\n\n\n"), Some("b"));
    assert_eq!(find_last_nonempty_line("a\r\n\r\n"), Some("a"));
    assert_eq!(find_last_nonempty_line("\n\nx\n\n"), Some("x"));
}

#[test]
fn carriage_return_belongs_to_the_ending_only_before_a_line_feed() {
    assert_eq!(find_last_nonempty_line("a\r"), Some("a\r"));
    assert_eq!(find_last_nonempty_line("a\n\r"), Some("\r"));
    assert_eq!(find_last_nonempty_line("a\r\r\n"), Some("a\r"));
    assert_eq!(find_last_nonempty_line("a\rb\n"), Some("a\rb"));
}

#[test]
fn line_of_blanks_is_not_empty() {
    assert_eq!(find_last_nonempty_line("a\n  \n"), Some("  "));
}

#[test]
fn last_line_keeps_characters_outside_ascii() {
    assert_eq!(find_last_nonempty_line("h\u{e9}llo\nw\u{f6}rld \u{4e2d}\u{6587}\n"), Some("w\u{f6}rld \u{4e2d}\u{6587}"));
}

#[test]
fn last_line_agrees_with_the_standard_library() {
    let samples = [
        "", "\n", "a", "a\n", "a\nb", "a\n\n", "\r", "\r\n", "a\r\nb\r\n", "a\n\rb", "x\ny\nz\n\n",
        "{\"status\":\"success\"}\n", "log\n{\"k\":1}\r\n\r\n", "\n\u{e9}\n",
    ];
    for sample in samples {
        let expected = sample.lines().filter(|line| !line.is_empty()).last();
        assert_eq!(find_last_nonempty_line(sample), expected);
    }
}

#[test]
fn service_command_serves_on_all_interfaces_at_the_port() {
    let expected = CommandLine {
        program: "python".to_string(),
        arguments: vec![
            "-m".to_string(),
            "uvicorn".to_string(),
            "main:app".to_string(),
            "--host".to_string(),
            "0.0.0.0".to_string(),
            "--port".to_string(),
            "8000".to_string(),
        ],
    };
    assert_eq!(service_command(8000), expected);
    assert_eq!(service_command(65535).arguments[6], "65535");
    assert_eq!(service_command(0).arguments[6], "0");
}

#[test]
fn oauth_command_runs_the_script() {
    let command = oauth_command("/opt/app/iflow_oauth_cli.py".to_string());
    assert_eq!(command.program, "python");
    assert_eq!(command.arguments, vec!["/opt/app/iflow_oauth_cli.py".to_string()]);
}
