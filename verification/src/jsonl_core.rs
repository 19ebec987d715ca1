//! Records of the portable JSONL export: the data carried under each `{"type", "data"}` line
//! for boards, columns, dependencies, attachments and task labels, and the closed status
//! vocabularies they use.

use vstd::prelude::*;

verus! {

/// The task statuses that an exported record may carry.
#[derive(Debug, Clone, Copy, PartialEq, Eq, Structural)]
pub enum PortableTaskStatus {
    Triage,
    Todo,
    Scheduled,
    Ready,
    Running,
    Blocked,
    Review,
    Done,
    Archived,
}

/// The run statuses that an exported record may carry.
#[derive(Debug, Clone, Copy, PartialEq, Eq, Structural)]
pub enum PortableRunStatus {
    Running,
    Succeeded,
    Failed,
    Canceled,
    Expired,
}

/// An exported board.
#[derive(Debug, Clone, PartialEq, Eq)]
pub struct BoardJsonlData {
    pub id: String,
    pub slug: String,
    pub name: String,
    pub description: Option<String>,
    pub created_at: i64,
    pub updated_at: i64,
    pub archived_at: Option<i64>,
}

/// An exported board column.
#[derive(Debug, Clone, PartialEq, Eq)]
pub struct ColumnJsonlData {
    pub id: String,
    pub board_id: String,
    pub status: PortableTaskStatus,
    pub title: String,
    pub position: i64,
    pub hidden: bool,
    pub wip_limit: Option<i64>,
    pub created_at: i64,
    pub updated_at: i64,
}

/// An exported dependency edge between two tasks of a board.
#[derive(Debug, Clone, PartialEq, Eq)]
pub struct DependencyJsonlData {
    pub board_id: String,
    pub parent_task_id: String,
    pub child_task_id: String,
    pub created_at: i64,
}

/// An exported attachment of a task.
#[derive(Debug, Clone, PartialEq, Eq)]
pub struct AttachmentJsonlData {
    pub id: String,
    pub board_id: String,
    pub task_id: String,
    pub filename: String,
    pub rel_path: String,
    pub content_type: Option<String>,
    pub size_bytes: i64,
    pub sha256: Option<String>,
    pub created_by: String,
    pub created_at: i64,
}

/// An exported binding of a label to a task.
#[derive(Debug, Clone, PartialEq, Eq)]
pub struct TaskLabelJsonlData {
    pub board_id: String,
    pub task_id: String,
    pub label_id: String,
    pub created_at: i64,
}

} // verus!
