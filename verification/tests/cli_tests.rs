use pomodoro_core::cli::{
    format_status_line, report, Cli, CliOutcome, Commands, DEFAULT_EXTEND_SECS,
};
use pomodoro_core::numfmt::{u32_string, u32_string_padded2};
use pomodoro_core::status::{mode_from_wire, TimerMode};

#[test]
fn a_bare_command_line_carries_no_subcommand() {
    let c = Cli { command: None };
    assert!(c.command.is_none());
    let c = Cli { command: Some(Commands::Status) };
    assert!(matches!(c.command, Some(Commands::Status)));
}

#[test]
fn commands_invoke_their_bus_methods() {
    assert_eq!(Commands::Toggle.bus_method(), Some("Toggle"));
    assert_eq!(Commands::Start.bus_method(), Some("Start"));
    assert_eq!(Commands::Stop.bus_method(), Some("Stop"));
    assert_eq!(Commands::Skip.bus_method(), Some("Skip"));
    assert_eq!(Commands::Reset.bus_method(), Some("Reset"));
    assert_eq!(Commands::Extend { seconds: 5 }.bus_method(), Some("Extend"));
    assert_eq!(Commands::Status.bus_method(), None);
}

#[test]
fn only_extend_sends_an_argument() {
    assert_eq!(Commands::Extend { seconds: 5 }.bus_payload(), Some(5));
    assert_eq!(Commands::Extend { seconds: 0 }.bus_payload(), Some(0));
    assert_eq!(Commands::Toggle.bus_payload(), None);
    assert_eq!(Commands::Status.bus_payload(), None);
}

#[test]
fn confirmation_lines_are_exact() {
    assert_eq!(Commands::Toggle.confirmation().as_deref(), Some("Timer toggled."));
    assert_eq!(Commands::Start.confirmation().as_deref(), Some("Timer started."));
    assert_eq!(Commands::Stop.confirmation().as_deref(), Some("Timer stopped."));
    assert_eq!(Commands::Skip.confirmation().as_deref(), Some("Session skipped."));
    assert_eq!(Commands::Reset.confirmation().as_deref(), Some("Timer reset."));
    assert_eq!(
        Commands::Extend { seconds: DEFAULT_EXTEND_SECS }.confirmation().as_deref(),
        Some("Timer extended by 60 seconds."),
    );
    assert_eq!(
        Commands::Extend { seconds: 0 }.confirmation().as_deref(),
        Some("Timer extended by 0 seconds."),
    );
    assert_eq!(Commands::Status.confirmation(), None);
}

#[test]
fn status_line_of_a_fresh_process() {
    // no push has happened: work, 25:00, paused, zero sessions
    let line = format_status_line("work", 1500, false, 0);
    assert_eq!(line, "Mod: Odaklan | Duraklatıldı | 25:00 | Oturum: 0");
}

#[test]
fn status_line_localizes_each_mode() {
    assert_eq!(
        format_status_line("shortBreak", 65, true, 3),
        "Mod: Kısa Mola | Çalışıyor | 01:05 | Oturum: 3",
    );
    assert_eq!(
        format_status_line("longBreak", 3601, true, 12),
        "Mod: Uzun Mola | Çalışıyor | 60:01 | Oturum: 12",
    );
}

#[test]
fn status_line_shows_an_unknown_mode_verbatim() {
    assert_eq!(
        format_status_line("nap", 0, false, 1),
        "Mod: nap | Duraklatıldı | 00:00 | Oturum: 1",
    );
}

#[test]
fn no_connection_reports_the_not_running_hint() {
    let r = report(CliOutcome::NoConnection);
    assert_ne!(r.exit_code, 0);
    assert_eq!(
        r.error_message.as_deref(),
        Some("Pomodoro uygulaması çalışmıyor. Önce uygulamayı başlatın."),
    );
}

#[test]
fn call_failure_surfaces_the_transport_diagnostic() {
    let r = report(CliOutcome::CallFailed("org.freedesktop.DBus.Error.NoReply".to_string()));
    assert_ne!(r.exit_code, 0);
    assert_eq!(
        r.error_message.as_deref(),
        Some("D-Bus hatası: org.freedesktop.DBus.Error.NoReply"),
    );
}

#[test]
fn completed_outcome_exits_zero_and_silent() {
    let r = report(CliOutcome::Completed);
    assert_eq!(r.exit_code, 0);
    assert_eq!(r.error_message, None);
}

#[test]
fn decimal_rendering_is_exact() {
    assert_eq!(u32_string(0), "0");
    assert_eq!(u32_string(7), "7");
    assert_eq!(u32_string(60), "60");
    assert_eq!(u32_string(4294967295), "4294967295");
    assert_eq!(u32_string_padded2(0), "00");
    assert_eq!(u32_string_padded2(5), "05");
    assert_eq!(u32_string_padded2(59), "59");
    assert_eq!(u32_string_padded2(100), "100");
}

#[test]
fn mode_wire_labels_round_trip() {
    for mode in [TimerMode::Work, TimerMode::ShortBreak, TimerMode::LongBreak] {
        assert_eq!(mode_from_wire(mode.wire_name()), Some(mode));
    }
    assert_eq!(mode_from_wire("Work"), None);
    assert_eq!(mode_from_wire(""), None);
}
