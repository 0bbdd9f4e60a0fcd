//! Percentages, path resolution, dry-run rendering, and the probe and close
//! commands.

use tmuxy::args::default_config_path;
use tmuxy::command::{dry_run_line, TmuxCommand};
use tmuxy::config::{pane_default_percent, Percent};
use tmuxy::paths::normalize_path;
use tmuxy::session::{has_session_command, kill_session_command};

fn strs(words: &[&str]) -> Vec<String> {
    words.iter().map(|w| (*w).to_owned()).collect()
}

#[test]
fn percent_accepts_the_closed_range() {
    assert_eq!(Percent::new(0).unwrap().get(), 0);
    assert_eq!(Percent::new(50).unwrap().get(), 50);
    assert_eq!(Percent::new(100).unwrap().get(), 100);
    assert!(Percent::new(101).is_none());
    assert!(Percent::new(255).is_none());
}

#[test]
fn default_percent_is_fifty() {
    assert_eq!(pane_default_percent().get(), 50);
}

#[test]
fn relative_paths_join_the_working_directory() {
    assert_eq!(normalize_path("proj", "/home/u"), "/home/u/proj");
    assert_eq!(normalize_path("a/b", "/home/u/"), "/home/u/a/b");
    assert_eq!(normalize_path("x", ""), "x");
}

#[test]
fn absolute_paths_stay_as_written() {
    assert_eq!(normalize_path("/etc", "/home/u"), "/etc");
    assert_eq!(normalize_path("/", "/home/u"), "/");
}

#[test]
fn config_file_sits_in_the_config_directory() {
    assert_eq!(
        default_config_path("/home/u/.config/tmuxy"),
        "/home/u/.config/tmuxy/config.toml"
    );
    assert_eq!(default_config_path("/etc/tmuxy/"), "/etc/tmuxy/config.toml");
}

#[test]
fn dry_run_line_prefixes_tmux_and_joins() {
    let c = TmuxCommand::AttachSession { session: "work".to_owned() };
    assert_eq!(dry_run_line(&c), "tmux attach-session -t work");
}

#[test]
fn dry_run_line_escapes_what_the_shell_would_eat() {
    let c = TmuxCommand::AttachSession { session: "my ws".to_owned() };
    assert_eq!(dry_run_line(&c), "tmux attach-session -t my\\ ws");
}

#[test]
fn probe_and_close_commands() {
    assert_eq!(
        has_session_command(&"work".to_owned()).args(),
        strs(&["has-session", "-t", "work"])
    );
    assert_eq!(
        kill_session_command(&"work".to_owned()).args(),
        strs(&["kill-session", "-t", "work"])
    );
}
