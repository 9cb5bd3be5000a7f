use wp_linux::project_format::TextSource;
use wp_linux::text_source::{
    clock_shown, run_command_with_timeout, sleep_chunk, ClockSource, CommandOutcome, CommandSource,
    LiteralSource, LoadedTextSource, Moment,
};

/// 2024-06-15 09:05:30, local time two hours ahead of UTC.
fn fixed_now() -> Moment {
    Moment { secs: 1_718_435_130, nanos: 0, offset: 7200 }
}

fn exited(success: bool, stdout: &[u8]) -> CommandOutcome {
    CommandOutcome::Exited { success, stdout: stdout.to_vec() }
}

#[test]
fn literal_source_always_returns_its_fixed_text() {
    let source = LiteralSource { text: "hello".to_string() };
    assert_eq!(source.poll(fixed_now()), "hello");
}

#[test]
fn clock_source_formats_against_the_given_time() {
    let source = ClockSource { format: "%H:%M".to_string() };
    assert_eq!(source.poll(fixed_now()), "09:05");
}

#[test]
fn clock_source_with_a_garbled_format_falls_back_to_the_raw_string_instead_of_panicking() {
    let format = "%Q not a real specifier %".to_string();
    let source = ClockSource { format: format.clone() };
    assert_eq!(source.poll(fixed_now()), format);
}

#[test]
fn a_clock_shows_what_was_formatted_or_its_format() {
    let format = "%H".to_string();
    assert_eq!(clock_shown(&format, Some("09".to_string())), "09");
    assert_eq!(clock_shown(&format, None), "%H");
}

#[test]
fn loaded_text_source_from_project_dispatches_to_the_matching_variant() {
    let literal =
        LoadedTextSource::from_project(&TextSource::Literal { text: "hi".to_string() }, true);
    assert_eq!(literal.poll(fixed_now()), "hi");

    let clock =
        LoadedTextSource::from_project(&TextSource::Clock { format: "%Y".to_string() }, true);
    assert_eq!(clock.poll(fixed_now()), "2024");
}

#[test]
fn untrusted_command_source_never_runs_and_always_shows_null() {
    let mut source = CommandSource::untrusted("echo should-never-run".to_string(), 60);
    assert_eq!(source.poll(fixed_now()), "NULL");
    source.record(&exited(true, b"ran\n"));
    assert_eq!(source.poll(fixed_now()), "NULL");
}

#[test]
fn loaded_text_source_matches_compares_configuration_not_identity() {
    let literal =
        LoadedTextSource::from_project(&TextSource::Literal { text: "hi".to_string() }, true);
    assert!(literal.matches(&TextSource::Literal { text: "hi".to_string() }));
    assert!(!literal.matches(&TextSource::Literal { text: "bye".to_string() }));
    assert!(!literal.matches(&TextSource::Clock { format: "%H".to_string() }));

    let command = LoadedTextSource::from_project(
        &TextSource::Command { command: "date".to_string(), interval_secs: 5 },
        false,
    );
    assert!(command.matches(&TextSource::Command { command: "date".to_string(), interval_secs: 5 }));
    assert!(
        !command.matches(&TextSource::Command { command: "date".to_string(), interval_secs: 6 })
    );
}

#[test]
fn run_command_with_timeout_returns_trimmed_stdout_on_success() {
    let outcome = exited(true, b"hello\n");
    assert_eq!(run_command_with_timeout(&outcome), Some("hello".to_string()));
    let mut source = CommandSource::spawn("echo hello".to_string(), 60);
    assert_eq!(source.poll(fixed_now()), "NULL");
    source.record(&outcome);
    assert_eq!(source.poll(fixed_now()), "hello");
}

#[test]
fn run_command_with_timeout_returns_none_on_nonzero_exit() {
    let outcome = exited(false, b"");
    assert_eq!(run_command_with_timeout(&outcome), None);
    let mut source = CommandSource::spawn("sh -c 'exit 1'".to_string(), 60);
    source.record(&outcome);
    assert_eq!(source.poll(fixed_now()), "NULL");
}

#[test]
fn run_command_with_timeout_returns_none_for_empty_output() {
    let outcome = exited(true, b"");
    assert_eq!(run_command_with_timeout(&outcome), None);
    let mut source = CommandSource::spawn("printf ''".to_string(), 60);
    source.record(&outcome);
    assert_eq!(source.poll(fixed_now()), "NULL");
}

#[test]
fn a_run_that_gives_nothing_takes_the_last_output_away() {
    for outcome in [
        CommandOutcome::NotStarted,
        CommandOutcome::WaitFailed,
        CommandOutcome::TimedOut,
        exited(false, b"output"),
        exited(true, b" \n\t"),
    ] {
        let mut source = CommandSource::spawn("date".to_string(), 60);
        source.record(&exited(true, b"first"));
        assert_eq!(source.poll(fixed_now()), "first");
        source.record(&outcome);
        assert_eq!(source.poll(fixed_now()), "NULL");
    }
}

#[test]
fn output_that_is_no_text_is_shown_as_far_as_it_is() {
    assert_eq!(run_command_with_timeout(&exited(true, b"a\xffb\n")), Some("a\u{fffd}b".to_string()));
}

#[test]
fn a_command_pauses_for_a_second_at_least() {
    assert_eq!(CommandSource::spawn("date".to_string(), 0).pause_secs(), 1);
    assert_eq!(CommandSource::spawn("date".to_string(), 60).pause_secs(), 60);
    assert_eq!((sleep_chunk(150), sleep_chunk(200), sleep_chunk(1000)), (150, 200, 200));
}

#[test]
fn only_a_fixed_text_never_changes() {
    let load = |s: &TextSource| LoadedTextSource::from_project(s, true).is_dynamic();
    assert!(!load(&TextSource::Literal { text: "hi".to_string() }));
    assert!(load(&TextSource::Clock { format: "%H".to_string() }));
    assert!(load(&TextSource::Command { command: "date".to_string(), interval_secs: 5 }));
}
