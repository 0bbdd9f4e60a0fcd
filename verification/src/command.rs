//! The multiplexer command vocabulary the compiler emits, and the exact
//! argument lists each command carries. Targets are strings of the form
//! `<session>:<window>.<pane>` with 0-based indices.

use vstd::prelude::*;

use crate::config::{Direction, Percent};
use crate::digits::{dec_rep, u64_to_string, usize_to_string};

verus! {

/// The mathematical value of one emitted command: what the executable
/// [`TmuxCommand`] views as.
pub enum Step {
    HasSession { session: Seq<char> },
    KillSession { session: Seq<char> },
    NewSession { session: Seq<char>, name: Option<Seq<char>> },
    NewWindow { session: Seq<char>, window: nat, name: Option<Seq<char>> },
    SplitWindow { session: Seq<char>, window: nat, pane: nat, direction: Direction, percent: nat },
    RespawnPane { session: Seq<char>, window: nat, pane: nat, directory: Option<Seq<char>> },
    SendKeys { session: Seq<char>, window: nat, pane: nat, text: Seq<char> },
    AttachSession { session: Seq<char> },
}

/// One command to issue against the multiplexer binary.
#[derive(Debug, Clone, PartialEq, Eq)]
pub enum TmuxCommand {
    HasSession { session: String },
    KillSession { session: String },
    NewSession { session: String, name: Option<String> },
    NewWindow { session: String, window: usize, name: Option<String> },
    SplitWindow { session: String, window: usize, pane: usize, direction: Direction, percent: Percent },
    RespawnPane { session: String, window: usize, pane: usize, directory: Option<String> },
    SendKeys { session: String, window: usize, pane: usize, text: String },
    AttachSession { session: String },
}

pub open spec fn opt_str_view(o: Option<String>) -> Option<Seq<char>> {
    match o {
        Some(s) => Some(s@),
        None => None,
    }
}

impl View for TmuxCommand {
    type V = Step;

    open spec fn view(&self) -> Step {
        match self {
            TmuxCommand::HasSession { session } => Step::HasSession { session: session@ },
            TmuxCommand::KillSession { session } => Step::KillSession { session: session@ },
            TmuxCommand::NewSession { session, name } => Step::NewSession {
                session: session@,
                name: opt_str_view(*name),
            },
            TmuxCommand::NewWindow { session, window, name } => Step::NewWindow {
                session: session@,
                window: *window as nat,
                name: opt_str_view(*name),
            },
            TmuxCommand::SplitWindow { session, window, pane, direction, percent } => Step::SplitWindow {
                session: session@,
                window: *window as nat,
                pane: *pane as nat,
                direction: *direction,
                percent: percent.spec_value(),
            },
            TmuxCommand::RespawnPane { session, window, pane, directory } => Step::RespawnPane {
                session: session@,
                window: *window as nat,
                pane: *pane as nat,
                directory: opt_str_view(*directory),
            },
            TmuxCommand::SendKeys { session, window, pane, text } => Step::SendKeys {
                session: session@,
                window: *window as nat,
                pane: *pane as nat,
                text: text@,
            },
            TmuxCommand::AttachSession { session } => Step::AttachSession { session: session@ },
        }
    }
}

/// The views of a list of argument strings.
pub open spec fn strings_view(v: Seq<String>) -> Seq<Seq<char>> {
    v.map_values(|s: String| s@)
}

/// The views of a list of commands: the plan it denotes.
pub open spec fn plan_view(v: Seq<TmuxCommand>) -> Seq<Step> {
    v.map_values(|c: TmuxCommand| c@)
}

pub broadcast proof fn lemma_plan_view_push(v: Seq<TmuxCommand>, c: TmuxCommand)
    ensures
        #[trigger] plan_view(v.push(c)) == plan_view(v).push(c@),
{
    assert(plan_view(v.push(c)) =~= plan_view(v).push(c@));
}

/// The pane target `<session>:<window>.<pane>`.
pub open spec fn spec_target(session: Seq<char>, window: nat, pane: nat) -> Seq<char> {
    session + ":"@ + dec_rep(window) + "."@ + dec_rep(pane)
}

/// The window target `<session>:<window>`.
pub open spec fn spec_window_target(session: Seq<char>, window: nat) -> Seq<char> {
    session + ":"@ + dec_rep(window)
}

/// The flag a split direction turns into.
pub open spec fn spec_flag(d: Direction) -> Seq<char> {
    match d {
        Direction::Vertical => "-v"@,
        Direction::Horizontal => "-h"@,
    }
}

/// The extra arguments an optional value contributes under `flag`.
pub open spec fn opt_args(flag: Seq<char>, o: Option<Seq<char>>) -> Seq<Seq<char>> {
    match o {
        Some(v) => seq![flag, v],
        None => Seq::empty(),
    }
}

/// The exact argument list (after the binary name) each command runs with.
pub open spec fn step_args(s: Step) -> Seq<Seq<char>> {
    match s {
        Step::HasSession { session } => seq!["has-session"@, "-t"@, session],
        Step::KillSession { session } => seq!["kill-session"@, "-t"@, session],
        Step::NewSession { session, name } => seq!["new-session"@, "-s"@, session, "-d"@]
            + opt_args("-n"@, name),
        Step::NewWindow { session, window, name } => seq![
            "new-window"@,
            "-d"@,
            "-t"@,
            spec_window_target(session, window),
        ] + opt_args("-n"@, name),
        Step::SplitWindow { session, window, pane, direction, percent } => seq![
            "split-window"@,
            "-t"@,
            spec_target(session, window, pane),
            spec_flag(direction),
            "-p"@,
            dec_rep(percent),
        ],
        Step::RespawnPane { session, window, pane, directory } => seq![
            "respawn-pane"@,
            "-k"@,
            "-t"@,
            spec_target(session, window, pane),
        ] + opt_args("-c"@, directory),
        Step::SendKeys { session, window, pane, text } => seq![
            "send-keys"@,
            "-t"@,
            spec_target(session, window, pane),
            "-l"@,
            text,
        ],
        Step::AttachSession { session } => seq!["attach-session"@, "-t"@, session],
    }
}

/// Renders the pane target `<session>:<window>.<pane>`.
pub fn target(session: &str, window: usize, pane: usize) -> (r: String)
    ensures
        r@ == spec_target(session@, window as nat, pane as nat),
{
    let mut r = session.to_owned();
    r.append(":");
    let w = usize_to_string(window);
    r.append(w.as_str());
    r.append(".");
    let p = usize_to_string(pane);
    r.append(p.as_str());
    proof {
        assert(r@ =~= spec_target(session@, window as nat, pane as nat));
    }
    r
}

/// Renders the window target `<session>:<window>`.
pub fn window_target(session: &str, window: usize) -> (r: String)
    ensures
        r@ == spec_window_target(session@, window as nat),
{
    let mut r = session.to_owned();
    r.append(":");
    let w = usize_to_string(window);
    r.append(w.as_str());
    proof {
        assert(r@ =~= spec_window_target(session@, window as nat));
    }
    r
}

/// The flag a split direction runs with.
pub fn direction_flag(d: Direction) -> (r: &'static str)
    ensures
        r@ == spec_flag(d),
{
    match d {
        Direction::Vertical => "-v",
        Direction::Horizontal => "-h",
    }
}

impl TmuxCommand {
    /// The argument list this command runs the multiplexer binary with.
    pub fn args(&self) -> (r: Vec<String>)
        ensures
            strings_view(r@) == step_args(self@),
    {
        let mut v: Vec<String> = Vec::new();
        match self {
            TmuxCommand::HasSession { session } => {
                v.push("has-session".to_owned());
                v.push("-t".to_owned());
                v.push(session.clone());
            },
            TmuxCommand::KillSession { session } => {
                v.push("kill-session".to_owned());
                v.push("-t".to_owned());
                v.push(session.clone());
            },
            TmuxCommand::NewSession { session, name } => {
                v.push("new-session".to_owned());
                v.push("-s".to_owned());
                v.push(session.clone());
                v.push("-d".to_owned());
                if let Some(n) = name {
                    v.push("-n".to_owned());
                    v.push(n.clone());
                }
            },
            TmuxCommand::NewWindow { session, window, name } => {
                v.push("new-window".to_owned());
                v.push("-d".to_owned());
                v.push("-t".to_owned());
                v.push(window_target(session.as_str(), *window));
                if let Some(n) = name {
                    v.push("-n".to_owned());
                    v.push(n.clone());
                }
            },
            TmuxCommand::SplitWindow { session, window, pane, direction, percent } => {
                v.push("split-window".to_owned());
                v.push("-t".to_owned());
                v.push(target(session.as_str(), *window, *pane));
                v.push(direction_flag(*direction).to_owned());
                v.push("-p".to_owned());
                v.push(u64_to_string(percent.get() as u64));
            },
            TmuxCommand::RespawnPane { session, window, pane, directory } => {
                v.push("respawn-pane".to_owned());
                v.push("-k".to_owned());
                v.push("-t".to_owned());
                v.push(target(session.as_str(), *window, *pane));
                if let Some(d) = directory {
                    v.push("-c".to_owned());
                    v.push(d.clone());
                }
            },
            TmuxCommand::SendKeys { session, window, pane, text } => {
                v.push("send-keys".to_owned());
                v.push("-t".to_owned());
                v.push(target(session.as_str(), *window, *pane));
                v.push("-l".to_owned());
                v.push(text.clone());
            },
            TmuxCommand::AttachSession { session } => {
                v.push("attach-session".to_owned());
                v.push("-t".to_owned());
                v.push(session.clone());
            },
        }
        proof {
            assert(strings_view(v@) =~= step_args(self@));
        }
        v
    }
}

/// What `shellwords::join` renders a word list as.
pub uninterp spec fn shell_joined(words: Seq<Seq<char>>) -> Seq<char>;

/// Relies on shellwords::join: each word is shell-escaped and the escaped
/// words are joined with single spaces; the result depends on the words alone.
#[verifier::external_body]
fn shell_join(words: &Vec<String>) -> (r: String)
    ensures
        r@ == shell_joined(strings_view(words@)),
{
    let refs: Vec<&str> = words.iter().map(|w| w.as_str()).collect();
    shellwords::join(&refs)
}

/// The line dry-run mode prints for `c`: the word `tmux` followed by the
/// command's own arguments, shell-quoted exactly as `shellwords::join` quotes
/// them. Live mode runs the very same argument list instead of printing it.
pub fn dry_run_line(c: &TmuxCommand) -> (r: String)
    ensures
        r@ == shell_joined(seq!["tmux"@] + step_args(c@)),
{
    let mut words: Vec<String> = Vec::new();
    words.push("tmux".to_owned());
    let mut rest = c.args();
    words.append(&mut rest);
    proof {
        assert(strings_view(words@) =~= seq!["tmux"@] + step_args(c@));
    }
    shell_join(&words)
}

} // verus!
