use axial::git::GitManager;
use axial::tools::{
    cursor_dry_run, AiderAdapter, ClineAdapter, CodexAdapter, CursorAdapter, Harness, ToolAdapter,
};
use axial::version;

#[test]
fn version_is_the_release() {
    assert_eq!(version(), "0.1.0");
}

#[test]
fn git_manager_keeps_its_path() {
    let g = GitManager::new("/repo");
    assert_eq!(g.repo_path(), "/repo");
}

#[test]
fn harness_keeps_adapters_in_order() {
    let mut h: Harness<Box<dyn ToolAdapter>> = Harness::new();
    h.add_adapter(Box::new(CursorAdapter));
    h.add_adapter(Box::new(CodexAdapter));
    h.add_adapter(Box::new(AiderAdapter));
    h.add_adapter(Box::new(ClineAdapter));
    let names: Vec<&str> = h.adapters().iter().map(|a| a.name()).collect();
    assert_eq!(names, vec!["cursor", "codex", "aider", "cline"]);
}

#[test]
fn cursor_dry_run_runs_nothing() {
    let r = cursor_dry_run();
    assert_eq!(r.stdout, "Cursor dry run successful");
    assert!(r.stderr.is_empty());
    assert_eq!(r.diff.as_deref(), Some("--- a/file\n+++ b/file\n+ change"));
}
