//! The tree walker: an in-order traversal of a pane tree that emits split and
//! respawn steps while keeping an explicit pane-index accumulator in lockstep
//! with the order in which the multiplexer numbers panes as splits land.
//!
//! The traversal visits `first`, then emits the split for the node, then
//! visits `second`. On a split the accumulator addresses the pane being split
//! and is incremented for the pane the split creates; on a leaf it addresses
//! the respawn of that leaf's pane.

use vstd::prelude::*;

use crate::command::{plan_view, Step, TmuxCommand};
use crate::config::Pane;
use crate::paths::{normalize_path, normalized};

verus! {

broadcast use crate::command::lemma_plan_view_push;

/// The steps the walker emits for tree `p` inside window `window` of
/// `session`, entered with pane-index accumulator `index`; `wd` is the
/// captured startup working directory that relative starting directories
/// resolve against.
pub open spec fn pane_steps(
    p: Pane,
    session: Seq<char>,
    window: nat,
    index: nat,
    wd: Seq<char>,
) -> Seq<Step>
    decreases p,
{
    match p {
        Pane::Leaf { command, directory } => seq![
            Step::RespawnPane {
                session,
                window,
                pane: index,
                directory: match directory {
                    Some(d) => Some(normalized(wd, d@)),
                    None => None,
                },
            },
        ] + (match command {
            Some(c) => seq![
                Step::SendKeys { session, window, pane: index, text: c@ + "\n"@ },
            ],
            None => Seq::empty(),
        }),
        Pane::Split { first, second, direction, percent } => pane_steps(
            *first,
            session,
            window,
            index,
            wd,
        ) + seq![
            Step::SplitWindow {
                session,
                window,
                pane: (index + first.leaf_count() - 1) as nat,
                direction,
                percent: percent.spec_value(),
            },
        ] + pane_steps(*second, session, window, index + first.leaf_count(), wd),
    }
}

impl Pane {
    /// Walks the tree in order, appending the emitted commands to `out` and
    /// threading the pane-index accumulator through `index`.
    pub fn visit_pane(
        &self,
        session: &str,
        window: usize,
        index: &mut usize,
        out: &mut Vec<TmuxCommand>,
        working_dir: &str,
    )
        requires
            *old(index) + self.leaf_count() <= usize::MAX,
        ensures
            plan_view(final(out)@) == plan_view(old(out)@) + pane_steps(
                *self,
                session@,
                window as nat,
                *old(index) as nat,
                working_dir@,
            ),
            *final(index) == *old(index) + self.leaf_count() - 1,
        decreases *self,
    {
        let ghost out0: Seq<TmuxCommand> = out@;
        match self {
            Pane::Leaf { command, directory } => {
                let dir: Option<String> = match directory {
                    Some(d) => Some(normalize_path(d.as_str(), working_dir)),
                    None => None,
                };
                out.push(
                    TmuxCommand::RespawnPane {
                        session: session.to_owned(),
                        window,
                        pane: *index,
                        directory: dir,
                    },
                );
                if let Some(c) = command {
                    let mut text = c.clone();
                    text.append("\n");
                    out.push(
                        TmuxCommand::SendKeys {
                            session: session.to_owned(),
                            window,
                            pane: *index,
                            text,
                        },
                    );
                }
                proof {
                    assert(plan_view(out@) =~= plan_view(out0) + pane_steps(
                        *self,
                        session@,
                        window as nat,
                        *index as nat,
                        working_dir@,
                    ));
                }
            },
            Pane::Split { first, second, direction, percent } => {
                proof {
                    first.lemma_leaf_count_pos();
                    second.lemma_leaf_count_pos();
                }
                first.visit_pane(session, window, index, out, working_dir);
                out.push(
                    TmuxCommand::SplitWindow {
                        session: session.to_owned(),
                        window,
                        pane: *index,
                        direction: *direction,
                        percent: *percent,
                    },
                );
                *index += 1;
                second.visit_pane(session, window, index, out, working_dir);
                proof {
                    assert(plan_view(out@) =~= plan_view(out0) + pane_steps(
                        *self,
                        session@,
                        window as nat,
                        *old(index) as nat,
                        working_dir@,
                    ));
                }
            },
        }
    }
}

/// The pane indices of the respawn steps in `steps`, in emission order.
pub open spec fn respawn_indices(steps: Seq<Step>) -> Seq<nat>
    decreases steps.len(),
{
    if steps.len() == 0 {
        Seq::empty()
    } else if steps[0] is RespawnPane {
        seq![steps[0]->RespawnPane_pane] + respawn_indices(steps.drop_first())
    } else {
        respawn_indices(steps.drop_first())
    }
}

pub proof fn lemma_respawn_indices_single(s: Step)
    ensures
        s is RespawnPane ==> respawn_indices(seq![s]) == seq![s->RespawnPane_pane],
        s !is RespawnPane ==> respawn_indices(seq![s]) == Seq::<nat>::empty(),
{
    assert(seq![s].drop_first() =~= Seq::<Step>::empty());
    assert(respawn_indices(Seq::<Step>::empty()) == Seq::<nat>::empty());
    if s is RespawnPane {
        assert(respawn_indices(seq![s]) =~= seq![s->RespawnPane_pane]);
    }
}

pub proof fn lemma_respawn_indices_add(a: Seq<Step>, b: Seq<Step>)
    ensures
        respawn_indices(a + b) == respawn_indices(a) + respawn_indices(b),
    decreases a.len(),
{
    if a.len() == 0 {
        assert(a + b =~= b);
        assert(respawn_indices(a) + respawn_indices(b) =~= respawn_indices(b));
    } else {
        assert((a + b).drop_first() =~= a.drop_first() + b);
        lemma_respawn_indices_add(a.drop_first(), b);
        if a[0] is RespawnPane {
            assert(respawn_indices(a + b) =~= seq![a[0]->RespawnPane_pane] + (respawn_indices(
                a.drop_first(),
            ) + respawn_indices(b)));
            assert(respawn_indices(a) + respawn_indices(b) =~= seq![a[0]->RespawnPane_pane]
                + (respawn_indices(a.drop_first()) + respawn_indices(b)));
        }
    }
}

/// Law: walking a tree with `k` leaves and entry index `index` respawns the
/// leaves at the pane indices `index`, `index + 1`, ..., `index + k - 1`, in
/// left-to-right order, with no gap and no repeat.
pub proof fn lemma_leaf_indices(p: Pane, session: Seq<char>, window: nat, index: nat, wd: Seq<char>)
    ensures
        respawn_indices(pane_steps(p, session, window, index, wd)) == Seq::new(
            p.leaf_count(),
            |i: int| (index + i) as nat,
        ),
    decreases p,
{
    let goal = Seq::new(p.leaf_count(), |i: int| (index + i) as nat);
    match p {
        Pane::Leaf { command, directory } => {
            let steps = pane_steps(p, session, window, index, wd);
            let r = steps[0];
            assert(r is RespawnPane && r->RespawnPane_pane == index);
            match command {
                Some(c) => {
                    assert(steps.drop_first() =~= seq![steps[1]]);
                    lemma_respawn_indices_single(steps[1]);
                    assert(respawn_indices(steps) =~= goal);
                },
                None => {
                    assert(steps.drop_first() =~= Seq::<Step>::empty());
                    assert(respawn_indices(Seq::<Step>::empty()) == Seq::<nat>::empty());
                    assert(respawn_indices(steps) =~= goal);
                },
            }
        },
        Pane::Split { first, second, direction, percent } => {
            first.lemma_leaf_count_pos();
            second.lemma_leaf_count_pos();
            let a = pane_steps(*first, session, window, index, wd);
            let s = seq![
                Step::SplitWindow {
                    session,
                    window,
                    pane: (index + first.leaf_count() - 1) as nat,
                    direction,
                    percent: percent.spec_value(),
                },
            ];
            let b = pane_steps(*second, session, window, index + first.leaf_count(), wd);
            lemma_leaf_indices(*first, session, window, index, wd);
            lemma_leaf_indices(*second, session, window, index + first.leaf_count(), wd);
            lemma_respawn_indices_add(a + s, b);
            lemma_respawn_indices_add(a, s);
            lemma_respawn_indices_single(s[0]);
            assert(s =~= seq![s[0]]);
            assert(respawn_indices(pane_steps(p, session, window, index, wd)) =~= goal);
        },
    }
}

} // verus!
