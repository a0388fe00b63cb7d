//! The command-line client's verified half.
//!
//! Every invocation of the client is one connect, one call or property read,
//! one line of output, and an exit code. This module holds the rules of that
//! cycle: which bus method a command invokes, the confirmation line a
//! successful command prints, the one human-readable status line the status
//! query renders, and how each outcome maps to an exit code and diagnostic.
//! The connection itself lives in the embedding program.

use vstd::prelude::*;
use vstd::string::StringExecFns;

use crate::numfmt::{dec_digits, padded2, u32_string, u32_string_padded2};
use crate::strutil::str_eq;

verus! {

/// Seconds the extend command adds when the caller names none.
pub const DEFAULT_EXTEND_SECS: u32 = 60;

/// Parsed command line of the client: one optional subcommand. With none,
/// the embedding program starts the full application instead of the client.
#[derive(Clone, Copy, Debug)]
pub struct Cli {
    pub command: Option<Commands>,
}

/// The seven client commands: six remote commands and the status query.
#[derive(Clone, Copy, Debug, PartialEq, Eq, Structural)]
pub enum Commands {
    Toggle,
    Start,
    Stop,
    Skip,
    Reset,
    Extend { seconds: u32 },
    Status,
}

/// The bus method a command invokes. The status query invokes none: it
/// reads the four properties instead.
pub open spec fn bus_method_spec(c: Commands) -> Option<Seq<char>> {
    match c {
        Commands::Toggle => Some("Toggle"@),
        Commands::Start => Some("Start"@),
        Commands::Stop => Some("Stop"@),
        Commands::Skip => Some("Skip"@),
        Commands::Reset => Some("Reset"@),
        Commands::Extend { .. } => Some("Extend"@),
        Commands::Status => None,
    }
}

/// The confirmation line a successful non-status command prints.
pub open spec fn confirmation_spec(c: Commands) -> Option<Seq<char>> {
    match c {
        Commands::Toggle => Some("Timer toggled."@),
        Commands::Start => Some("Timer started."@),
        Commands::Stop => Some("Timer stopped."@),
        Commands::Skip => Some("Session skipped."@),
        Commands::Reset => Some("Timer reset."@),
        Commands::Extend { seconds } => Some(
            "Timer extended by "@ + dec_digits(seconds as nat) + " seconds."@,
        ),
        Commands::Status => None,
    }
}

impl Commands {
    /// The name of the bus method this command invokes, or nothing for the
    /// status query.
    pub fn bus_method(&self) -> (r: Option<&'static str>)
        ensures
            r is None <==> *self is Status,
            r matches Some(s) ==> Some(s@) == bus_method_spec(*self),
    {
        match self {
            Commands::Toggle => Some("Toggle"),
            Commands::Start => Some("Start"),
            Commands::Stop => Some("Stop"),
            Commands::Skip => Some("Skip"),
            Commands::Reset => Some("Reset"),
            Commands::Extend { .. } => Some("Extend"),
            Commands::Status => None,
        }
    }

    /// The numeric argument the invoked bus method takes: only the extend
    /// command carries one, exactly the caller's seconds.
    pub fn bus_payload(&self) -> (r: Option<u32>)
        ensures
            r == (match *self {
                Commands::Extend { seconds } => Some(seconds),
                _ => None,
            }),
    {
        match self {
            Commands::Extend { seconds } => Some(*seconds),
            _ => None,
        }
    }

    /// The confirmation line this command prints on success, or nothing for
    /// the status query, which prints the status line instead.
    pub fn confirmation(&self) -> (r: Option<String>)
        ensures
            r is None <==> *self is Status,
            r matches Some(s) ==> confirmation_spec(*self) matches Some(t) && s@ =~= t,
    {
        match self {
            Commands::Toggle => Some("Timer toggled.".to_owned()),
            Commands::Start => Some("Timer started.".to_owned()),
            Commands::Stop => Some("Timer stopped.".to_owned()),
            Commands::Skip => Some("Session skipped.".to_owned()),
            Commands::Reset => Some("Timer reset.".to_owned()),
            Commands::Extend { seconds } => {
                let mut s = String::from_str("Timer extended by ");
                s.append(u32_string(*seconds).as_str());
                s.append(" seconds.");
                Some(s)
            },
            Commands::Status => None,
        }
    }
}

/// The localized human label of a wire mode string; an unknown string shows
/// as itself.
pub open spec fn human_mode_spec(state: Seq<char>) -> Seq<char> {
    if state == "work"@ {
        "Odaklan"@
    } else if state == "shortBreak"@ {
        "Kısa Mola"@
    } else if state == "longBreak"@ {
        "Uzun Mola"@
    } else {
        state
    }
}

/// The running/paused label of the status line.
pub open spec fn active_label_spec(is_active: bool) -> Seq<char> {
    if is_active {
        "Çalışıyor"@
    } else {
        "Duraklatıldı"@
    }
}

/// The one status line the client prints: localized mode, running state,
/// minutes and seconds remaining zero-padded to two digits each, and the
/// completed-session count.
pub open spec fn status_line_spec(
    state: Seq<char>,
    time_left: u32,
    is_active: bool,
    sessions: u32,
) -> Seq<char> {
    "Mod: "@ + human_mode_spec(state) + " | "@ + active_label_spec(is_active) + " | "@
        + padded2((time_left / 60) as nat) + ":"@ + padded2((time_left % 60) as nat)
        + " | Oturum: "@ + dec_digits(sessions as nat)
}

/// Renders the status line from the four property values, exactly as
/// [`status_line_spec`] states it.
pub fn format_status_line(state: &str, time_left: u32, is_active: bool, sessions: u32) -> (r:
    String)
    ensures
        r@ =~= status_line_spec(state@, time_left, is_active, sessions),
{
    let mut r = String::from_str("Mod: ");
    if str_eq(state, "work") {
        r.append("Odaklan");
    } else if str_eq(state, "shortBreak") {
        r.append("Kısa Mola");
    } else if str_eq(state, "longBreak") {
        r.append("Uzun Mola");
    } else {
        r.append(state);
    }
    r.append(" | ");
    if is_active {
        r.append("Çalışıyor");
    } else {
        r.append("Duraklatıldı");
    }
    r.append(" | ");
    r.append(u32_string_padded2(time_left / 60).as_str());
    r.append(":");
    r.append(u32_string_padded2(time_left % 60).as_str());
    r.append(" | Oturum: ");
    r.append(u32_string(sessions).as_str());
    r
}

/// The outcome of one client invocation, as the transport reported it.
pub enum CliOutcome {
    /// Connected, and the call or the property reads completed.
    Completed,
    /// No session bus connection could be established (a transport timeout
    /// counts as this too): the application is not running.
    NoConnection,
    /// Connected, but the remote call itself failed; carries the
    /// transport's own diagnostic verbatim.
    CallFailed(String),
}

/// What the client process does with an outcome: its exit code and the
/// diagnostic for standard error, if any.
pub struct CliReport {
    pub exit_code: i32,
    pub error_message: Option<String>,
}

/// Maps an outcome to the client's exit code and diagnostic. Success exits
/// zero with no diagnostic; the two failure kinds both exit non-zero but
/// stay distinguishable: a missing application gets the user-facing hint,
/// a failed call surfaces the transport's diagnostic verbatim.
pub fn report(outcome: CliOutcome) -> (r: CliReport)
    ensures
        outcome is Completed <==> r.exit_code == 0,
        !(outcome is Completed) ==> r.exit_code == 1,
        outcome is Completed <==> r.error_message is None,
        outcome is NoConnection ==> (r.error_message matches Some(m) && m@
            == "Pomodoro uygulaması çalışmıyor. Önce uygulamayı başlatın."@),
        outcome matches CliOutcome::CallFailed(e) ==> (r.error_message matches Some(m) && m@
            =~= "D-Bus hatası: "@ + e@),
{
    match outcome {
        CliOutcome::Completed => CliReport { exit_code: 0, error_message: None },
        CliOutcome::NoConnection => CliReport {
            exit_code: 1,
            error_message: Some("Pomodoro uygulaması çalışmıyor. Önce uygulamayı başlatın.".to_owned()),
        },
        CliOutcome::CallFailed(e) => {
            let mut m = String::from_str("D-Bus hatası: ");
            m.append(e.as_str());
            CliReport { exit_code: 1, error_message: Some(m) }
        },
    }
}

} // verus!
