use gyros::report::{
    decimal_text, display_failed, get_header, header_text, summary, Channel, Emission, RunSummary,
    Style,
};

#[test]
fn header_text_wraps_the_label() {
    assert_eq!(header_text("/repos/a"), ":: /repos/a\n");
    assert_eq!(header_text(""), ":: \n");
}

#[test]
fn get_header_is_purple_and_bold_when_colours_are_on() {
    colored::control::set_override(true);
    assert_eq!(get_header("/repos/a"), "\u{1b}[1;35m:: /repos/a\n\u{1b}[0m");
}

#[test]
fn get_header_keeps_both_ends_around_a_label_with_a_reset_sequence() {
    colored::control::set_override(true);
    let header = get_header("a\u{1b}[0mb");
    assert!(header.starts_with("\u{1b}[1;35m"));
    assert!(header.ends_with("\u{1b}[0m"));
    assert!(header.chars().count() >= 7 + ":: a\u{1b}[0mb\n".chars().count() + 4);
    assert_eq!(header, "\u{1b}[1;35m:: a\u{1b}[0m\u{1b}[1;35mb\n\u{1b}[0m");
}

#[test]
fn a_failed_write_is_reported_on_the_error_channel() {
    let notice = display_failed("Broken pipe (os error 32)");
    assert_eq!(notice.channel, Channel::Stderr);
    assert_eq!(notice.style, Style::Failure);
    assert_eq!(notice.text, "Display failed: Broken pipe (os error 32)");
    assert_eq!(notice.clone(), notice);
}

#[test]
fn decimal_text_of_small_and_large_numbers() {
    assert_eq!(decimal_text(0), "0");
    assert_eq!(decimal_text(7), "7");
    assert_eq!(decimal_text(9), "9");
    assert_eq!(decimal_text(10), "10");
    assert_eq!(decimal_text(4096), "4096");
    assert_eq!(decimal_text(1234567890), "1234567890");
    assert_eq!(decimal_text(usize::MAX), usize::MAX.to_string());
}

#[test]
fn summary_of_a_clean_run_goes_to_stdout() {
    let emission = summary(2, 0);
    assert_eq!(emission.text, "\nDone :: 2 succeeded - 0 failed\n");
    assert_eq!(emission.channel, Channel::Stdout);
    assert_eq!(emission.style, Style::Success);
}

#[test]
fn summary_with_a_failure_goes_to_stderr() {
    let emission = summary(11, 1);
    assert_eq!(emission.text, "\nDone :: 11 succeeded - 1 failed\n");
    assert_eq!(emission.channel, Channel::Stderr);
    assert_eq!(emission.style, Style::Failure);
}

#[test]
fn summary_of_nothing_counts_as_clean() {
    let emission = summary(0, 0);
    assert_eq!(emission.text, "\nDone :: 0 succeeded - 0 failed\n");
    assert_eq!(emission.channel, Channel::Stdout);
}

#[test]
fn run_summary_reports_its_counts() {
    let counts = RunSummary { succeeded: 3, failed: 2 };
    assert_eq!(counts.report(), summary(3, 2));
}

#[test]
fn exit_code_is_zero_only_without_failures() {
    assert_eq!(RunSummary { succeeded: 0, failed: 0 }.exit_code(), 0);
    assert_eq!(RunSummary { succeeded: 5, failed: 0 }.exit_code(), 0);
    assert_eq!(RunSummary { succeeded: 5, failed: 1 }.exit_code(), 1);
    assert_eq!(RunSummary { succeeded: 0, failed: 7 }.exit_code(), 1);
}

#[test]
fn plain_text_is_rendered_verbatim() {
    colored::control::set_override(true);
    let emission = Emission {
        channel: Channel::Stdout,
        style: Style::Plain,
        text: "On branch main\n\u{1b}[0m".to_string(),
    };
    assert_eq!(emission.render(), "On branch main\n\u{1b}[0m");
}

#[test]
fn header_is_rendered_without_a_line_break_of_its_own() {
    colored::control::set_override(true);
    let emission =
        Emission { channel: Channel::Stdout, style: Style::Header, text: ":: x\n".to_string() };
    assert_eq!(emission.render(), "\u{1b}[1;35m:: x\n\u{1b}[0m");
}

#[test]
fn failure_is_rendered_red_and_italic_with_a_line_break() {
    colored::control::set_override(true);
    let emission = Emission {
        channel: Channel::Stderr,
        style: Style::Failure,
        text: "Command failed in: '/repos/a'".to_string(),
    };
    assert_eq!(emission.render(), "\u{1b}[3;31mCommand failed in: '/repos/a'\u{1b}[0m\n");
}

#[test]
fn success_is_rendered_green_and_italic_with_a_line_break() {
    colored::control::set_override(true);
    let emission = summary(2, 0);
    assert_eq!(
        emission.render(),
        "\u{1b}[3;32m\nDone :: 2 succeeded - 0 failed\n\u{1b}[0m\n"
    );
}
