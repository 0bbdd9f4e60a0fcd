//! The tree walker: emission order, pane addressing, and exact argument
//! lists for single leaves, single splits, and nested splits.

use tmuxy::command::TmuxCommand;
use tmuxy::config::{Direction, Pane, Percent};

fn leaf(command: Option<&str>, directory: Option<&str>) -> Pane {
    Pane::Leaf {
        command: command.map(|s| s.to_owned()),
        directory: directory.map(|s| s.to_owned()),
    }
}

fn split(first: Pane, second: Pane, direction: Direction, percent: u8) -> Pane {
    Pane::Split {
        first: Box::new(first),
        second: Box::new(second),
        direction,
        percent: Percent::new(percent).unwrap(),
    }
}

fn walk(p: &Pane) -> Vec<TmuxCommand> {
    let mut index: usize = 0;
    let mut out: Vec<TmuxCommand> = Vec::new();
    p.visit_pane("s", 0, &mut index, &mut out, "/wd");
    out
}

fn argv(commands: &[TmuxCommand]) -> Vec<Vec<String>> {
    commands.iter().map(|c| c.args()).collect()
}

fn strs(words: &[&str]) -> Vec<String> {
    words.iter().map(|w| (*w).to_owned()).collect()
}

fn respawn_indices(commands: &[TmuxCommand]) -> Vec<usize> {
    commands
        .iter()
        .filter_map(|c| match c {
            TmuxCommand::RespawnPane { pane, .. } => Some(*pane),
            _ => None,
        })
        .collect()
}

fn split_count(commands: &[TmuxCommand]) -> usize {
    commands
        .iter()
        .filter(|c| matches!(c, TmuxCommand::SplitWindow { .. }))
        .count()
}

#[test]
fn single_leaf_respawns_index_zero() {
    let out = walk(&leaf(None, None));
    assert_eq!(split_count(&out), 0);
    assert_eq!(argv(&out), vec![strs(&["respawn-pane", "-k", "-t", "s:0.0"])]);
}

#[test]
fn single_leaf_with_command_sends_keys() {
    let out = walk(&leaf(Some("vim"), None));
    assert_eq!(
        argv(&out),
        vec![
            strs(&["respawn-pane", "-k", "-t", "s:0.0"]),
            strs(&["send-keys", "-t", "s:0.0", "-l", "vim\n"]),
        ]
    );
}

#[test]
fn two_leaves_horizontal_seventy() {
    let out = walk(&split(leaf(Some("vim"), None), leaf(None, Some("/tmp")), Direction::Horizontal, 70));
    assert_eq!(
        argv(&out),
        vec![
            strs(&["respawn-pane", "-k", "-t", "s:0.0"]),
            strs(&["send-keys", "-t", "s:0.0", "-l", "vim\n"]),
            strs(&["split-window", "-t", "s:0.0", "-h", "-p", "70"]),
            strs(&["respawn-pane", "-k", "-t", "s:0.1", "-c", "/tmp"]),
        ]
    );
}

#[test]
fn nested_split_left() {
    // Split(Split(Leaf, Leaf, V, 50), Leaf, H, 30): the outer split targets
    // the last pane the first subtree produced.
    let tree = split(
        split(leaf(None, None), leaf(None, None), Direction::Vertical, 50),
        leaf(None, None),
        Direction::Horizontal,
        30,
    );
    let out = walk(&tree);
    assert_eq!(
        argv(&out),
        vec![
            strs(&["respawn-pane", "-k", "-t", "s:0.0"]),
            strs(&["split-window", "-t", "s:0.0", "-v", "-p", "50"]),
            strs(&["respawn-pane", "-k", "-t", "s:0.1"]),
            strs(&["split-window", "-t", "s:0.1", "-h", "-p", "30"]),
            strs(&["respawn-pane", "-k", "-t", "s:0.2"]),
        ]
    );
}

#[test]
fn nested_split_right() {
    let tree = split(
        leaf(None, None),
        split(leaf(None, None), leaf(None, None), Direction::Horizontal, 40),
        Direction::Vertical,
        60,
    );
    let out = walk(&tree);
    assert_eq!(
        argv(&out),
        vec![
            strs(&["respawn-pane", "-k", "-t", "s:0.0"]),
            strs(&["split-window", "-t", "s:0.0", "-v", "-p", "60"]),
            strs(&["respawn-pane", "-k", "-t", "s:0.1"]),
            strs(&["split-window", "-t", "s:0.1", "-h", "-p", "40"]),
            strs(&["respawn-pane", "-k", "-t", "s:0.2"]),
        ]
    );
}

#[test]
fn nested_split_both_sides() {
    let tree = split(
        split(leaf(None, None), leaf(None, None), Direction::Vertical, 50),
        split(leaf(None, None), leaf(None, None), Direction::Horizontal, 50),
        Direction::Horizontal,
        50,
    );
    let out = walk(&tree);
    assert_eq!(
        argv(&out),
        vec![
            strs(&["respawn-pane", "-k", "-t", "s:0.0"]),
            strs(&["split-window", "-t", "s:0.0", "-v", "-p", "50"]),
            strs(&["respawn-pane", "-k", "-t", "s:0.1"]),
            strs(&["split-window", "-t", "s:0.1", "-h", "-p", "50"]),
            strs(&["respawn-pane", "-k", "-t", "s:0.2"]),
            strs(&["split-window", "-t", "s:0.2", "-h", "-p", "50"]),
            strs(&["respawn-pane", "-k", "-t", "s:0.3"]),
        ]
    );
}

#[test]
fn leaf_indices_are_consecutive() {
    // Five leaves in a lopsided tree: indices 0..=4 in order, no gap, no repeat.
    let tree = split(
        split(leaf(None, None), leaf(None, None), Direction::Vertical, 50),
        split(
            leaf(None, None),
            split(leaf(None, None), leaf(None, None), Direction::Horizontal, 50),
            Direction::Vertical,
            50,
        ),
        Direction::Horizontal,
        50,
    );
    let out = walk(&tree);
    assert_eq!(respawn_indices(&out), vec![0, 1, 2, 3, 4]);
    assert_eq!(split_count(&out), 4);
}

#[test]
fn leaves_counts_the_tree() {
    assert_eq!(leaf(None, None).leaves(), Some(1));
    let tree = split(
        split(leaf(None, None), leaf(None, None), Direction::Vertical, 50),
        leaf(None, None),
        Direction::Horizontal,
        30,
    );
    assert_eq!(tree.leaves(), Some(3));
}

#[test]
fn default_pane_is_bare_leaf() {
    let p = Pane::default();
    match p {
        Pane::Leaf { command, directory } => {
            assert!(command.is_none());
            assert!(directory.is_none());
        }
        Pane::Split { .. } => panic!("default pane must be a leaf"),
    }
}

#[test]
fn big_indices_render_in_decimal() {
    let c = TmuxCommand::RespawnPane {
        session: "s".to_owned(),
        window: 12,
        pane: 1234567890,
        directory: None,
    };
    assert_eq!(c.args(), strs(&["respawn-pane", "-k", "-t", "s:12.1234567890"]));
}
