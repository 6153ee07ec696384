//! The coding tools a task can be handed to, and the harness that lists
//! them. Running a tool is a process call, made by the caller.

use vstd::prelude::*;

verus! {

/// Whether a tool is installed, and which version.
pub struct ToolStatus {
    pub name: String,
    pub installed: bool,
    pub version: Option<String>,
}

/// What a tool run printed, and the change it made if known.
pub struct ToolResult {
    pub stdout: String,
    pub stderr: String,
    pub diff: Option<String>,
}

/// A coding tool, known by name.
pub trait ToolAdapter {
    fn name(&self) -> &'static str;
}

pub struct AiderAdapter;

pub struct ClineAdapter;

pub struct CodexAdapter;

pub struct CursorAdapter;

impl ToolAdapter for AiderAdapter {
    fn name(&self) -> &'static str {
        "aider"
    }
}

impl ToolAdapter for ClineAdapter {
    fn name(&self) -> &'static str {
        "cline"
    }
}

impl ToolAdapter for CodexAdapter {
    fn name(&self) -> &'static str {
        "codex"
    }
}

impl ToolAdapter for CursorAdapter {
    fn name(&self) -> &'static str {
        "cursor"
    }
}

/// The output of a dry run of Cursor: nothing is run.
pub fn cursor_dry_run() -> (r: ToolResult)
    ensures
        r.stdout@ == "Cursor dry run successful"@,
        r.stderr@.len() == 0,
        r.diff matches Some(d) && d@ == "--- a/file\n+++ b/file\n+ change"@,
{
    ToolResult {
        stdout: String::from_str("Cursor dry run successful"),
        stderr: String::new(),
        diff: Some(String::from_str("--- a/file\n+++ b/file\n+ change")),
    }
}

/// The tools known to a session, in the order they were added.
pub struct Harness<A> {
    adapters: Vec<A>,
}

impl<A> Harness<A> {
    pub closed spec fn view(&self) -> Seq<A> {
        self.adapters@
    }

    pub fn new() -> (r: Harness<A>)
        ensures
            r.view() == Seq::<A>::empty(),
    {
        Harness { adapters: Vec::new() }
    }

    pub fn add_adapter(&mut self, adapter: A)
        ensures
            final(self).view() == old(self).view().push(adapter),
    {
        self.adapters.push(adapter);
    }

    pub fn adapters(&self) -> (r: &Vec<A>)
        ensures
            r@ == self.view(),
    {
        &self.adapters
    }
}

} // verus!
