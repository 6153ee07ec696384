//! Plans and the records around them. Structured values are held as their
//! canonical JSON text, identifiers as 128-bit integers and instants as
//! RFC 3339 text.

use vstd::prelude::*;

verus! {

/// A plan: a task graph with its title and version.
pub struct PlanPacket {
    pub id: u128,
    pub title: String,
    pub version: String,
    pub graph: TaskGraph,
    /// Key/value pairs, keys unique.
    pub metadata: Vec<(String, String)>,
}

/// Tasks and the order between them.
pub struct TaskGraph {
    pub nodes: Vec<TaskNode>,
    pub edges: Vec<TaskEdge>,
}

/// One task of a plan.
pub struct TaskNode {
    pub id: String,
    pub task_type: String,
    /// JSON text of the task's parameters.
    pub params: String,
    pub invariants: Vec<Invariant>,
    pub approval_gate: Option<ApprovalGate>,
}

/// `from` must finish before `to` starts, when `condition` holds (always,
/// if there is none).
pub struct TaskEdge {
    pub from: String,
    pub to: String,
    pub condition: Option<String>,
}

/// A check a task's outcome must pass.
pub struct Invariant {
    pub id: String,
    pub check_type: String,
    /// JSON text of the check's settings.
    pub config: String,
}

/// Who must approve a task before it runs.
pub struct ApprovalGate {
    pub required_approvers: Vec<String>,
    pub notification_channel: String,
}

/// Something a task produced.
pub struct Artifact {
    pub id: u128,
    pub task_id: String,
    pub artifact_type: String,
    /// JSON text of the artifact.
    pub data: String,
    pub hash: String,
    /// RFC 3339 text.
    pub created_at: String,
}

/// A named set of constraints and preferred tools.
pub struct Profile {
    pub name: String,
    pub constraints: Vec<Constraint>,
    pub preferred_tools: Vec<String>,
}

pub struct Constraint {
    pub key: String,
    /// JSON text of the constraint's value.
    pub value: String,
}

} // verus!
