//! The session orchestrator: decides, from whether a session of the
//! workspace's name already exists, whether to attach, destroy, or build, and
//! compiles the declared windows in order into one command plan. The caller
//! issues the probe first, then runs the plan's commands one by one, aborting
//! on the first failure with no rollback.

use vstd::prelude::*;

use crate::args::OpenArguments;
use crate::command::{opt_str_view, plan_view, Step, TmuxCommand};
use crate::compile::pane_steps;
use crate::config::{Config, Pane, Window, Workspace};

verus! {

broadcast use crate::command::lemma_plan_view_push;

/// Why an `open` returned nothing to run.
#[derive(Debug, Clone, PartialEq, Eq)]
pub enum OpenError {
    /// No workspace of the requested name is configured.
    LookupError { workspace: String },
    /// The workspace is configured with zero windows.
    EmptyWorkspaceError { workspace: String },
}

pub open spec fn window_name_view(w: Window) -> Option<Seq<char>> {
    match w.name {
        Some(n) => Some(n@),
        None => None,
    }
}

/// The steps that build window `index`: the first window rides on the
/// session's creation, every later one is created by index; immediately after
/// comes the window's compiled pane tree.
pub open spec fn window_steps(w: Window, session: Seq<char>, index: nat, wd: Seq<char>) -> Seq<
    Step,
> {
    (if index == 0 {
        seq![Step::NewSession { session, name: window_name_view(w) }]
    } else {
        seq![Step::NewWindow { session, window: index, name: window_name_view(w) }]
    }) + pane_steps(w.pane, session, index, 0, wd)
}

/// The steps that build the first `n` windows, in declared order.
pub open spec fn windows_steps_upto(
    ws: Seq<Window>,
    session: Seq<char>,
    wd: Seq<char>,
    n: nat,
) -> Seq<Step>
    decreases n,
{
    if n == 0 {
        Seq::empty()
    } else {
        windows_steps_upto(ws, session, wd, (n - 1) as nat) + window_steps(
            ws[n - 1],
            session,
            (n - 1) as nat,
            wd,
        )
    }
}

/// The steps that build every declared window.
pub open spec fn build_steps(ws: Seq<Window>, session: Seq<char>, wd: Seq<char>) -> Seq<Step> {
    windows_steps_upto(ws, session, wd, ws.len())
}

/// The whole plan of an `open`: attach straight away when the session exists
/// in live mode and recreation was not asked for; otherwise destroy it first
/// when it exists in live mode and recreation was asked for, then build every
/// window, then attach.
pub open spec fn open_plan(
    w: Workspace,
    session: Seq<char>,
    recreate: bool,
    dry_run: bool,
    session_exists: bool,
    wd: Seq<char>,
) -> Seq<Step> {
    let exists = session_exists && !dry_run;
    if exists && !recreate {
        seq![Step::AttachSession { session }]
    } else {
        (if exists {
            seq![Step::KillSession { session }]
        } else {
            Seq::<Step>::empty()
        }) + build_steps(w.windows@, session, wd) + seq![Step::AttachSession { session }]
    }
}

fn clone_opt(o: &Option<String>) -> (r: Option<String>)
    ensures
        opt_str_view(r) == opt_str_view(*o),
{
    match o {
        Some(s) => Some(s.clone()),
        None => None,
    }
}

/// The probe the orchestrator issues before planning: does a session of this
/// name already exist?
pub fn has_session_command(session: &String) -> (r: TmuxCommand)
    ensures
        r@ == (Step::HasSession { session: session@ }),
{
    TmuxCommand::HasSession { session: session.clone() }
}

/// The one command the close subcommand issues.
pub fn kill_session_command(session: &String) -> (r: TmuxCommand)
    ensures
        r@ == (Step::KillSession { session: session@ }),
{
    TmuxCommand::KillSession { session: session.clone() }
}

/// True when the looked-up workspace's pane trees are all small enough for
/// every pane to carry a `usize` index; `open` demands this of its caller.
pub fn open_precheck(arguments: &OpenArguments, config: &Config) -> (r: bool)
    ensures
        r == (config.spec_lookup(arguments.workspace@) matches Some(w) ==> w.panes_fit()),
{
    match config.lookup(&arguments.workspace) {
        Some(w) => w.fits(),
        None => true,
    }
}

/// Plans one `open` of the named workspace: either the full ordered command
/// sequence to issue, or the error that aborts before any command is issued.
pub fn open(
    arguments: &OpenArguments,
    config: &Config,
    dry_run: bool,
    session_exists: bool,
    working_dir: &str,
) -> (r: Result<Vec<TmuxCommand>, OpenError>)
    requires
        config.spec_lookup(arguments.workspace@) matches Some(w) ==> w.panes_fit(),
    ensures
        r matches Ok(plan) ==> (config.spec_lookup(arguments.workspace@) matches Some(w)
            && w.windows@.len() > 0 && plan_view(plan@) == open_plan(
            w,
            arguments.workspace@,
            arguments.recreate,
            dry_run,
            session_exists,
            working_dir@,
        )),
        r matches Err(e) ==> match e {
            OpenError::LookupError { workspace } => workspace@ == arguments.workspace@
                && config.spec_lookup(arguments.workspace@) is None,
            OpenError::EmptyWorkspaceError { workspace } => workspace@ == arguments.workspace@
                && (config.spec_lookup(arguments.workspace@) matches Some(w) && w.windows@.len()
                == 0),
        },
{
    let name = &arguments.workspace;
    let w = match config.lookup(name) {
        Some(w) => w,
        None => {
            return Err(OpenError::LookupError { workspace: name.clone() });
        },
    };
    if w.windows.len() == 0 {
        return Err(OpenError::EmptyWorkspaceError { workspace: name.clone() });
    }
    let ghost wspec = config.spec_lookup(name@)->Some_0;
    let mut plan: Vec<TmuxCommand> = Vec::new();
    let exists = session_exists && !dry_run;
    if exists && !arguments.recreate {
        plan.push(TmuxCommand::AttachSession { session: name.clone() });
        proof {
            assert(plan_view(plan@) =~= open_plan(
                wspec,
                name@,
                arguments.recreate,
                dry_run,
                session_exists,
                working_dir@,
            ));
        }
        return Ok(plan);
    }
    if exists {
        plan.push(TmuxCommand::KillSession { session: name.clone() });
    }
    let ghost pre: Seq<Step> = plan_view(plan@);
    let mut i: usize = 0;
    while i < w.windows.len()
        invariant
            i <= w.windows@.len(),
            w.panes_fit(),
            plan_view(plan@) == pre + windows_steps_upto(w.windows@, name@, working_dir@, i as nat),
        decreases w.windows@.len() - i,
    {
        let ghost plan_before: Seq<Step> = plan_view(plan@);
        let window = &w.windows[i];
        if i == 0 {
            plan.push(
                TmuxCommand::NewSession { session: name.clone(), name: clone_opt(&window.name) },
            );
        } else {
            plan.push(
                TmuxCommand::NewWindow {
                    session: name.clone(),
                    window: i,
                    name: clone_opt(&window.name),
                },
            );
        }
        let mut index: usize = 0;
        window.pane.visit_pane(name.as_str(), i, &mut index, &mut plan, working_dir);
        proof {
            assert(plan_view(plan@) =~= pre + windows_steps_upto(
                w.windows@,
                name@,
                working_dir@,
                i as nat + 1,
            ));
        }
        i += 1;
    }
    plan.push(TmuxCommand::AttachSession { session: name.clone() });
    proof {
        assert(plan_view(plan@) =~= open_plan(
            wspec,
            name@,
            arguments.recreate,
            dry_run,
            session_exists,
            working_dir@,
        ));
    }
    Ok(plan)
}

/// Law: opening a workspace whose session already exists, in live mode and
/// without the recreate flag, plans no build or destroy command at all —
/// exactly one attach.
pub proof fn lemma_existing_session_attaches(w: Workspace, session: Seq<char>, wd: Seq<char>)
    ensures
        open_plan(w, session, false, false, true, wd) == seq![Step::AttachSession { session }],
{
}

/// Law: dry-run planning yields the very commands, in the very order, that
/// live planning yields while the session does not yet exist: the mode never
/// changes a command's content or position.
pub proof fn lemma_dry_run_same_plan(
    w: Workspace,
    session: Seq<char>,
    recreate: bool,
    session_exists: bool,
    wd: Seq<char>,
)
    ensures
        open_plan(w, session, recreate, true, session_exists, wd) == open_plan(
            w,
            session,
            recreate,
            false,
            false,
            wd,
        ),
{
}

pub proof fn lemma_pane_steps_no_kill(
    p: Pane,
    session: Seq<char>,
    window: nat,
    index: nat,
    wd: Seq<char>,
)
    ensures
        forall|i: int|
            0 <= i < pane_steps(p, session, window, index, wd).len() ==> !(#[trigger] pane_steps(
                p,
                session,
                window,
                index,
                wd,
            )[i] is KillSession),
    decreases p,
{
    match p {
        Pane::Leaf { command, directory } => {},
        Pane::Split { first, second, direction, percent } => {
            lemma_pane_steps_no_kill(*first, session, window, index, wd);
            lemma_pane_steps_no_kill(
                *second,
                session,
                window,
                index + first.leaf_count(),
                wd,
            );
        },
    }
}

pub proof fn lemma_build_steps_no_kill(ws: Seq<Window>, session: Seq<char>, wd: Seq<char>, n: nat)
    ensures
        forall|i: int|
            0 <= i < windows_steps_upto(ws, session, wd, n).len() ==> !(
            #[trigger] windows_steps_upto(ws, session, wd, n)[i] is KillSession),
    decreases n,
{
    if n > 0 {
        lemma_build_steps_no_kill(ws, session, wd, (n - 1) as nat);
        lemma_pane_steps_no_kill(ws[n - 1].pane, session, (n - 1) as nat, 0, wd);
    }
}

/// Law: opening an existing session in live mode with the recreate flag plans
/// exactly one destroy command, at the very front, before any build command;
/// no other step destroys anything.
pub proof fn lemma_recreate_destroys_first(w: Workspace, session: Seq<char>, wd: Seq<char>)
    ensures
        open_plan(w, session, true, false, true, wd).len() >= 2,
        open_plan(w, session, true, false, true, wd)[0] == (Step::KillSession { session }),
        forall|i: int|
            1 <= i < open_plan(w, session, true, false, true, wd).len() ==> !(#[trigger] open_plan(
                w,
                session,
                true,
                false,
                true,
                wd,
            )[i] is KillSession),
{
    lemma_build_steps_no_kill(w.windows@, session, wd, w.windows@.len());
}

} // verus!
