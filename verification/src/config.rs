//! The layout model: a workspace is an ordered list of windows, each holding
//! one binary pane-split tree.

use vstd::prelude::*;

verus! {

/// An integer percentage in the closed range 0..=100: the share of space the
/// `second` subtree of a split receives.
#[derive(Clone, Copy, PartialEq, Eq, Debug)]
pub struct Percent {
    value: u8,
}

impl Percent {
    #[verifier::type_invariant]
    pub closed spec fn inv(self) -> bool {
        self.value <= 100
    }

    pub closed spec fn spec_value(self) -> nat {
        self.value as nat
    }

    /// Builds a percentage; values above 100 are rejected.
    pub fn new(value: u8) -> (r: Option<Percent>)
        ensures
            value <= 100 ==> (r matches Some(p) && p.spec_value() == value),
            value > 100 ==> r is None,
    {
        if value <= 100 {
            Some(Percent { value })
        } else {
            None
        }
    }

    pub fn get(&self) -> (r: u8)
        ensures
            r as nat == self.spec_value(),
            r <= 100,
    {
        proof {
            use_type_invariant(self);
        }
        self.value
    }
}

/// The split ratio used when a layout names none.
pub fn pane_default_percent() -> (r: Percent)
    ensures
        r.spec_value() == 50,
{
    Percent::new(50).unwrap()
}

/// Orientation of a split, mirroring the multiplexer's `-v` / `-h` flags.
#[derive(Clone, Copy, PartialEq, Eq, Debug)]
pub enum Direction {
    Vertical,
    Horizontal,
}

/// A pane tree: either a leaf (optional startup command and starting
/// directory) or a split into two subtrees.
pub enum Pane {
    Leaf { command: Option<String>, directory: Option<String> },
    Split { first: Box<Pane>, second: Box<Pane>, direction: Direction, percent: Percent },
}

impl Pane {
    /// Number of leaves in the tree: the window built from it ends up with
    /// exactly this many multiplexer panes.
    pub open spec fn leaf_count(self) -> nat
        decreases self,
    {
        match self {
            Pane::Leaf { .. } => 1,
            Pane::Split { first, second, .. } => first.leaf_count() + second.leaf_count(),
        }
    }

    pub proof fn lemma_leaf_count_pos(self)
        ensures
            self.leaf_count() >= 1,
        decreases self,
    {
        match self {
            Pane::Leaf { .. } => {},
            Pane::Split { first, second, .. } => {
                first.lemma_leaf_count_pos();
                second.lemma_leaf_count_pos();
            },
        }
    }

    /// Counts the leaves, reporting `None` when the count does not fit in a
    /// `usize` and pane indices could not be addressed.
    pub fn leaves(&self) -> (r: Option<usize>)
        ensures
            r matches Some(n) ==> n as nat == self.leaf_count(),
            r is None ==> self.leaf_count() > usize::MAX,
        decreases *self,
    {
        match self {
            Pane::Leaf { .. } => Some(1),
            Pane::Split { first, second, .. } => {
                proof {
                    first.lemma_leaf_count_pos();
                    second.lemma_leaf_count_pos();
                }
                match (first.leaves(), second.leaves()) {
                    (Some(a), Some(b)) => a.checked_add(b),
                    _ => None,
                }
            },
        }
    }
}

impl Default for Pane {
    /// A bare leaf: no startup command, no starting directory.
    fn default() -> (r: Pane)
        ensures
            r == (Pane::Leaf { command: None::<String>, directory: None::<String> }),
    {
        Pane::Leaf { command: None, directory: None }
    }
}

/// One multiplexer window: an optional display name and its pane tree.
pub struct Window {
    pub name: Option<String>,
    pub pane: Pane,
}

/// A named collection of windows; their order is their creation order and so
/// their multiplexer window index.
pub struct Workspace {
    pub windows: Vec<Window>,
}

impl Workspace {
    /// Every window's pane count fits in a `usize`, so every pane can be
    /// addressed by index.
    pub open spec fn panes_fit(self) -> bool {
        forall|i: int|
            0 <= i < self.windows@.len() ==> (#[trigger] self.windows@[i].pane).leaf_count()
                <= usize::MAX
    }

    pub fn fits(&self) -> (r: bool)
        ensures
            r == self.panes_fit(),
    {
        let mut i: usize = 0;
        while i < self.windows.len()
            invariant
                i <= self.windows@.len(),
                forall|k: int|
                    0 <= k < i ==> (#[trigger] self.windows@[k].pane).leaf_count() <= usize::MAX,
            decreases self.windows@.len() - i,
        {
            if self.windows[i].pane.leaves().is_none() {
                return false;
            }
            i += 1;
        }
        true
    }
}

/// The parsed configuration: workspaces by name, in the order the
/// configuration listed them.
pub struct Config {
    pub workspaces: Vec<(String, Workspace)>,
}

impl Config {
    /// First workspace whose name matches, searching from entry `i` on.
    pub open spec fn spec_lookup_at(
        entries: Seq<(String, Workspace)>,
        name: Seq<char>,
        i: nat,
    ) -> Option<Workspace>
        decreases entries.len() - i,
    {
        if i >= entries.len() {
            None
        } else if entries[i as int].0@ == name {
            Some(entries[i as int].1)
        } else {
            Self::spec_lookup_at(entries, name, i + 1)
        }
    }

    /// The workspace registered under `name`, if any.
    pub open spec fn spec_lookup(self, name: Seq<char>) -> Option<Workspace> {
        Self::spec_lookup_at(self.workspaces@, name, 0)
    }

    pub fn lookup(&self, name: &String) -> (r: Option<&Workspace>)
        ensures
            r matches Some(w) ==> self.spec_lookup(name@) == Some(*w),
            r is None ==> self.spec_lookup(name@) is None,
    {
        let mut i: usize = 0;
        while i < self.workspaces.len()
            invariant
                i <= self.workspaces@.len(),
                Self::spec_lookup_at(self.workspaces@, name@, 0) == Self::spec_lookup_at(
                    self.workspaces@,
                    name@,
                    i as nat,
                ),
            decreases self.workspaces@.len() - i,
        {
            if self.workspaces[i].0 == *name {
                return Some(&self.workspaces[i].1);
            }
            proof {
                assert(Self::spec_lookup_at(self.workspaces@, name@, i as nat)
                    == Self::spec_lookup_at(self.workspaces@, name@, i as nat + 1));
            }
            i += 1;
        }
        None
    }
}

} // verus!
