//! Event kinds and the payload shapes they decode to: which shapes a known kind tries, in
//! which order, and which state or status its payload must carry.

use vstd::prelude::*;

use crate::text::{chars_to_string, push_str, str_eq};

verus! {

/// Lifecycle status of a task.
#[derive(Debug, Clone, Copy, PartialEq, Eq, Hash, Structural)]
pub enum TaskStatus {
    Triage,
    Todo,
    Scheduled,
    Ready,
    Running,
    Blocked,
    Review,
    Done,
    Archived,
}

/// Status of a task step.
#[derive(Debug, Clone, Copy, PartialEq, Eq, Hash, Structural)]
pub enum StepStatus {
    Todo,
    Done,
    Skipped,
}

/// Status of a run in an export-sanitised event.
#[derive(Debug, Clone, Copy, PartialEq, Eq, Hash, Structural)]
pub enum RunStatus {
    Canceled,
}

/// State of a task's execution plan.
#[derive(Debug, Clone, Copy, PartialEq, Eq, Hash, Structural)]
pub enum ExecutionPlanState {
    Planned,
    NotRequired,
    Unplanned,
}

/// Review status of a signal.
#[derive(Debug, Clone, Copy, PartialEq, Eq, Hash, Structural)]
pub enum SignalStatus {
    Open,
    Confirmed,
    Rejected,
    Superseded,
    Resolved,
}

/// Status of a label proposal.
#[derive(Debug, Clone, Copy, PartialEq, Eq, Hash, Structural)]
pub enum LabelProposalStatus {
    Proposed,
    Accepted,
    Rejected,
}

/// Kind of a task comment.
#[derive(Debug, Clone, Copy, PartialEq, Eq, Hash, Structural)]
pub enum CommentKind {
    Note,
    Decision,
    Signal,
}

/// Who wrote a task comment.
#[derive(Debug, Clone, Copy, PartialEq, Eq, Hash, Structural)]
pub enum CommentAuthorType {
    User,
    Agent,
}

/// The typed payload shapes of known events, one per payload type.
#[derive(Debug, Clone, Copy, PartialEq, Eq, Hash, Structural)]
pub enum PayloadShape {
    Empty,
    BoardCreated,
    Dependency,
    LabelCreated,
    LabelDeleted,
    SignalRecorded,
    SignalReviewed,
    TaskReason,
    TaskClaimed,
    TaskCommentCreated,
    TaskResult,
    TaskStatus,
    TaskToStatus,
    ExecutionPlan,
    Heartbeat,
    TaskLabel,
    LabelProposal,
    TaskReclaimed,
    TaskRetry,
    TaskReopened,
    RetryPolicy,
    TaskStep,
    TaskExportSanitized,
}

/// What a decoded payload must carry besides its shape.
#[derive(Debug, Clone, Copy, PartialEq, Eq, Hash, Structural)]
pub enum PayloadCheck {
    Any,
    PlanState(ExecutionPlanState),
    ProposalStatus(LabelProposalStatus),
    StepStatus(Option<StepStatus>),
}

/// How a known event kind's payload is decoded: the shapes tried in order (the first that
/// decodes wins), and the check on the decoded payload.
#[derive(Debug, Clone, PartialEq, Eq)]
pub struct DecodePlan {
    pub shapes: Vec<PayloadShape>,
    pub check: PayloadCheck,
}

/// The event kinds with a typed payload.
pub open spec fn known_kinds() -> Seq<&'static str> {
    seq![
        "board.created",
        "board.archived",
        "dependency.added",
        "dependency.removed",
        "label.created",
        "label.deleted",
        "signal.recorded",
        "signal.reviewed",
        "task.archived",
        "task.blocked",
        "task.claimed",
        "task.comment.created",
        "task.completed",
        "task.created",
        "task.execution_plan.not_required",
        "task.execution_plan.planned",
        "task.execution_plan.unplanned",
        "task.heartbeat",
        "task.label.added",
        "task.label.removed",
        "task.label_proposal.accepted",
        "task.label_proposal.proposed",
        "task.label_proposal.rejected",
        "task.promoted",
        "task.reclaimed",
        "task.recomputed",
        "task.released",
        "task.reopened",
        "task.retry_policy.updated",
        "task.specified",
        "task.step.created",
        "task.step.done",
        "task.step.removed",
        "task.step.reopened",
        "task.step.skipped",
        "task.step.updated",
        "task.submitted_for_review",
        "task.unblocked",
        "task.updated",
        "task.export_sanitized",
    ]
}

/// The event kinds with a typed payload.
pub fn known_event_kinds() -> (r: Vec<&'static str>)
    ensures
        r@ == known_kinds(),
{
    let r = vec![
        "board.created",
        "board.archived",
        "dependency.added",
        "dependency.removed",
        "label.created",
        "label.deleted",
        "signal.recorded",
        "signal.reviewed",
        "task.archived",
        "task.blocked",
        "task.claimed",
        "task.comment.created",
        "task.completed",
        "task.created",
        "task.execution_plan.not_required",
        "task.execution_plan.planned",
        "task.execution_plan.unplanned",
        "task.heartbeat",
        "task.label.added",
        "task.label.removed",
        "task.label_proposal.accepted",
        "task.label_proposal.proposed",
        "task.label_proposal.rejected",
        "task.promoted",
        "task.reclaimed",
        "task.recomputed",
        "task.released",
        "task.reopened",
        "task.retry_policy.updated",
        "task.specified",
        "task.step.created",
        "task.step.done",
        "task.step.removed",
        "task.step.reopened",
        "task.step.skipped",
        "task.step.updated",
        "task.submitted_for_review",
        "task.unblocked",
        "task.updated",
        "task.export_sanitized",
    ];
    assert(r@ =~= known_kinds());
    r
}

/// The shapes and check of a known event kind; none for any other kind, whose payload is
/// kept as it is.
pub open spec fn kind_plan(kind: Seq<char>) -> Option<(Seq<PayloadShape>, PayloadCheck)> {
    if kind == "board.created"@ {
        Some((seq![PayloadShape::BoardCreated, PayloadShape::Empty], PayloadCheck::Any))
    } else if kind == "board.archived"@ || kind == "task.archived"@ || kind == "task.updated"@ {
        Some((seq![PayloadShape::Empty], PayloadCheck::Any))
    } else if kind == "dependency.added"@ || kind == "dependency.removed"@ {
        Some((seq![PayloadShape::Dependency], PayloadCheck::Any))
    } else if kind == "label.created"@ {
        Some((seq![PayloadShape::LabelCreated], PayloadCheck::Any))
    } else if kind == "label.deleted"@ {
        Some((seq![PayloadShape::LabelDeleted], PayloadCheck::Any))
    } else if kind == "signal.recorded"@ {
        Some((seq![PayloadShape::SignalRecorded], PayloadCheck::Any))
    } else if kind == "signal.reviewed"@ {
        Some((seq![PayloadShape::SignalReviewed], PayloadCheck::Any))
    } else if kind == "task.blocked"@ {
        Some((seq![PayloadShape::TaskReason, PayloadShape::TaskRetry, PayloadShape::TaskResult], PayloadCheck::Any))
    } else if kind == "task.claimed"@ {
        Some((seq![PayloadShape::TaskClaimed], PayloadCheck::Any))
    } else if kind == "task.comment.created"@ {
        Some((seq![PayloadShape::TaskCommentCreated], PayloadCheck::Any))
    } else if kind == "task.completed"@ || kind == "task.submitted_for_review"@ {
        Some((seq![PayloadShape::TaskResult], PayloadCheck::Any))
    } else if kind == "task.created"@ {
        Some((seq![PayloadShape::TaskStatus], PayloadCheck::Any))
    } else if kind == "task.promoted"@ || kind == "task.recomputed"@ || kind == "task.released"@ || kind == "task.specified"@ || kind == "task.unblocked"@ {
        Some((seq![PayloadShape::TaskToStatus], PayloadCheck::Any))
    } else if kind == "task.execution_plan.not_required"@ {
        Some((seq![PayloadShape::ExecutionPlan], PayloadCheck::PlanState(ExecutionPlanState::NotRequired)))
    } else if kind == "task.execution_plan.planned"@ {
        Some((seq![PayloadShape::ExecutionPlan], PayloadCheck::PlanState(ExecutionPlanState::Planned)))
    } else if kind == "task.execution_plan.unplanned"@ {
        Some((seq![PayloadShape::ExecutionPlan], PayloadCheck::PlanState(ExecutionPlanState::Unplanned)))
    } else if kind == "task.heartbeat"@ {
        Some((seq![PayloadShape::Heartbeat], PayloadCheck::Any))
    } else if kind == "task.label.added"@ || kind == "task.label.removed"@ {
        Some((seq![PayloadShape::TaskLabel], PayloadCheck::Any))
    } else if kind == "task.label_proposal.accepted"@ {
        Some((seq![PayloadShape::LabelProposal], PayloadCheck::ProposalStatus(LabelProposalStatus::Accepted)))
    } else if kind == "task.label_proposal.proposed"@ {
        Some((seq![PayloadShape::LabelProposal], PayloadCheck::ProposalStatus(LabelProposalStatus::Proposed)))
    } else if kind == "task.label_proposal.rejected"@ {
        Some((seq![PayloadShape::LabelProposal], PayloadCheck::ProposalStatus(LabelProposalStatus::Rejected)))
    } else if kind == "task.reclaimed"@ {
        Some((seq![PayloadShape::TaskReclaimed, PayloadShape::TaskRetry], PayloadCheck::Any))
    } else if kind == "task.reopened"@ {
        Some((seq![PayloadShape::TaskReopened], PayloadCheck::Any))
    } else if kind == "task.retry_policy.updated"@ {
        Some((seq![PayloadShape::RetryPolicy], PayloadCheck::Any))
    } else if kind == "task.step.created"@ || kind == "task.step.reopened"@ {
        Some((seq![PayloadShape::TaskStep], PayloadCheck::StepStatus(Some(StepStatus::Todo))))
    } else if kind == "task.step.done"@ {
        Some((seq![PayloadShape::TaskStep], PayloadCheck::StepStatus(Some(StepStatus::Done))))
    } else if kind == "task.step.skipped"@ {
        Some((seq![PayloadShape::TaskStep], PayloadCheck::StepStatus(Some(StepStatus::Skipped))))
    } else if kind == "task.step.removed"@ || kind == "task.step.updated"@ {
        Some((seq![PayloadShape::TaskStep], PayloadCheck::StepStatus(None)))
    } else if kind == "task.export_sanitized"@ {
        Some((seq![PayloadShape::TaskExportSanitized], PayloadCheck::Any))
    } else {
        None
    }
}

/// The decode plan of an event kind; none for an unknown kind.
pub fn decode_plan(kind: &str) -> (r: Option<DecodePlan>)
    ensures
        match r {
            Some(plan) => kind_plan(kind@) == Some((plan.shapes@, plan.check)),
            None => kind_plan(kind@) is None,
        },
{
    if str_eq(kind, "board.created") {
        Some(DecodePlan { shapes: vec![PayloadShape::BoardCreated, PayloadShape::Empty], check: PayloadCheck::Any })
    } else if str_eq(kind, "board.archived") || str_eq(kind, "task.archived") || str_eq(kind, "task.updated") {
        Some(DecodePlan { shapes: vec![PayloadShape::Empty], check: PayloadCheck::Any })
    } else if str_eq(kind, "dependency.added") || str_eq(kind, "dependency.removed") {
        Some(DecodePlan { shapes: vec![PayloadShape::Dependency], check: PayloadCheck::Any })
    } else if str_eq(kind, "label.created") {
        Some(DecodePlan { shapes: vec![PayloadShape::LabelCreated], check: PayloadCheck::Any })
    } else if str_eq(kind, "label.deleted") {
        Some(DecodePlan { shapes: vec![PayloadShape::LabelDeleted], check: PayloadCheck::Any })
    } else if str_eq(kind, "signal.recorded") {
        Some(DecodePlan { shapes: vec![PayloadShape::SignalRecorded], check: PayloadCheck::Any })
    } else if str_eq(kind, "signal.reviewed") {
        Some(DecodePlan { shapes: vec![PayloadShape::SignalReviewed], check: PayloadCheck::Any })
    } else if str_eq(kind, "task.blocked") {
        Some(DecodePlan { shapes: vec![PayloadShape::TaskReason, PayloadShape::TaskRetry, PayloadShape::TaskResult], check: PayloadCheck::Any })
    } else if str_eq(kind, "task.claimed") {
        Some(DecodePlan { shapes: vec![PayloadShape::TaskClaimed], check: PayloadCheck::Any })
    } else if str_eq(kind, "task.comment.created") {
        Some(DecodePlan { shapes: vec![PayloadShape::TaskCommentCreated], check: PayloadCheck::Any })
    } else if str_eq(kind, "task.completed") || str_eq(kind, "task.submitted_for_review") {
        Some(DecodePlan { shapes: vec![PayloadShape::TaskResult], check: PayloadCheck::Any })
    } else if str_eq(kind, "task.created") {
        Some(DecodePlan { shapes: vec![PayloadShape::TaskStatus], check: PayloadCheck::Any })
    } else if str_eq(kind, "task.promoted") || str_eq(kind, "task.recomputed") || str_eq(kind, "task.released") || str_eq(kind, "task.specified") || str_eq(kind, "task.unblocked") {
        Some(DecodePlan { shapes: vec![PayloadShape::TaskToStatus], check: PayloadCheck::Any })
    } else if str_eq(kind, "task.execution_plan.not_required") {
        Some(DecodePlan { shapes: vec![PayloadShape::ExecutionPlan], check: PayloadCheck::PlanState(ExecutionPlanState::NotRequired) })
    } else if str_eq(kind, "task.execution_plan.planned") {
        Some(DecodePlan { shapes: vec![PayloadShape::ExecutionPlan], check: PayloadCheck::PlanState(ExecutionPlanState::Planned) })
    } else if str_eq(kind, "task.execution_plan.unplanned") {
        Some(DecodePlan { shapes: vec![PayloadShape::ExecutionPlan], check: PayloadCheck::PlanState(ExecutionPlanState::Unplanned) })
    } else if str_eq(kind, "task.heartbeat") {
        Some(DecodePlan { shapes: vec![PayloadShape::Heartbeat], check: PayloadCheck::Any })
    } else if str_eq(kind, "task.label.added") || str_eq(kind, "task.label.removed") {
        Some(DecodePlan { shapes: vec![PayloadShape::TaskLabel], check: PayloadCheck::Any })
    } else if str_eq(kind, "task.label_proposal.accepted") {
        Some(DecodePlan { shapes: vec![PayloadShape::LabelProposal], check: PayloadCheck::ProposalStatus(LabelProposalStatus::Accepted) })
    } else if str_eq(kind, "task.label_proposal.proposed") {
        Some(DecodePlan { shapes: vec![PayloadShape::LabelProposal], check: PayloadCheck::ProposalStatus(LabelProposalStatus::Proposed) })
    } else if str_eq(kind, "task.label_proposal.rejected") {
        Some(DecodePlan { shapes: vec![PayloadShape::LabelProposal], check: PayloadCheck::ProposalStatus(LabelProposalStatus::Rejected) })
    } else if str_eq(kind, "task.reclaimed") {
        Some(DecodePlan { shapes: vec![PayloadShape::TaskReclaimed, PayloadShape::TaskRetry], check: PayloadCheck::Any })
    } else if str_eq(kind, "task.reopened") {
        Some(DecodePlan { shapes: vec![PayloadShape::TaskReopened], check: PayloadCheck::Any })
    } else if str_eq(kind, "task.retry_policy.updated") {
        Some(DecodePlan { shapes: vec![PayloadShape::RetryPolicy], check: PayloadCheck::Any })
    } else if str_eq(kind, "task.step.created") || str_eq(kind, "task.step.reopened") {
        Some(DecodePlan { shapes: vec![PayloadShape::TaskStep], check: PayloadCheck::StepStatus(Some(StepStatus::Todo)) })
    } else if str_eq(kind, "task.step.done") {
        Some(DecodePlan { shapes: vec![PayloadShape::TaskStep], check: PayloadCheck::StepStatus(Some(StepStatus::Done)) })
    } else if str_eq(kind, "task.step.skipped") {
        Some(DecodePlan { shapes: vec![PayloadShape::TaskStep], check: PayloadCheck::StepStatus(Some(StepStatus::Skipped)) })
    } else if str_eq(kind, "task.step.removed") || str_eq(kind, "task.step.updated") {
        Some(DecodePlan { shapes: vec![PayloadShape::TaskStep], check: PayloadCheck::StepStatus(None) })
    } else if str_eq(kind, "task.export_sanitized") {
        Some(DecodePlan { shapes: vec![PayloadShape::TaskExportSanitized], check: PayloadCheck::Any })
    } else {
        None
    }
}

/// Whether the kind is one of the known event kinds.
pub open spec fn is_known_kind(kind: Seq<char>) -> bool {
    exists|i: int| 0 <= i < known_kinds().len() && (#[trigger] known_kinds()[i])@ == kind
}

/// An event kind has a typed decode plan exactly when it is a known event kind; every
/// other kind keeps its payload as it is.
pub proof fn lemma_known_kinds_have_plans(kind: Seq<char>)
    ensures
        kind_plan(kind) is Some <==> is_known_kind(kind),
{
    assert(known_kinds()[0] == "board.created");
    assert(known_kinds()[1] == "board.archived");
    assert(known_kinds()[2] == "dependency.added");
    assert(known_kinds()[3] == "dependency.removed");
    assert(known_kinds()[4] == "label.created");
    assert(known_kinds()[5] == "label.deleted");
    assert(known_kinds()[6] == "signal.recorded");
    assert(known_kinds()[7] == "signal.reviewed");
    assert(known_kinds()[8] == "task.archived");
    assert(known_kinds()[9] == "task.blocked");
    assert(known_kinds()[10] == "task.claimed");
    assert(known_kinds()[11] == "task.comment.created");
    assert(known_kinds()[12] == "task.completed");
    assert(known_kinds()[13] == "task.created");
    assert(known_kinds()[14] == "task.execution_plan.not_required");
    assert(known_kinds()[15] == "task.execution_plan.planned");
    assert(known_kinds()[16] == "task.execution_plan.unplanned");
    assert(known_kinds()[17] == "task.heartbeat");
    assert(known_kinds()[18] == "task.label.added");
    assert(known_kinds()[19] == "task.label.removed");
    assert(known_kinds()[20] == "task.label_proposal.accepted");
    assert(known_kinds()[21] == "task.label_proposal.proposed");
    assert(known_kinds()[22] == "task.label_proposal.rejected");
    assert(known_kinds()[23] == "task.promoted");
    assert(known_kinds()[24] == "task.reclaimed");
    assert(known_kinds()[25] == "task.recomputed");
    assert(known_kinds()[26] == "task.released");
    assert(known_kinds()[27] == "task.reopened");
    assert(known_kinds()[28] == "task.retry_policy.updated");
    assert(known_kinds()[29] == "task.specified");
    assert(known_kinds()[30] == "task.step.created");
    assert(known_kinds()[31] == "task.step.done");
    assert(known_kinds()[32] == "task.step.removed");
    assert(known_kinds()[33] == "task.step.reopened");
    assert(known_kinds()[34] == "task.step.skipped");
    assert(known_kinds()[35] == "task.step.updated");
    assert(known_kinds()[36] == "task.submitted_for_review");
    assert(known_kinds()[37] == "task.unblocked");
    assert(known_kinds()[38] == "task.updated");
    assert(known_kinds()[39] == "task.export_sanitized");
}

/// Every decode plan tries at least one shape, and a plan that checks a state or status
/// decodes exactly one shape.
pub proof fn lemma_plans_have_shapes(kind: Seq<char>)
    ensures
        kind_plan(kind) matches Some((shapes, check)) ==> shapes.len() >= 1 && (check != PayloadCheck::Any ==> shapes.len() == 1),
{
}

/// The name of an execution plan state, as its debug form prints it.
pub open spec fn plan_state_name(state: ExecutionPlanState) -> &'static str {
    match state {
        ExecutionPlanState::Planned => "Planned",
        ExecutionPlanState::NotRequired => "NotRequired",
        ExecutionPlanState::Unplanned => "Unplanned",
    }
}

/// The name of a label proposal status, as its debug form prints it.
pub open spec fn proposal_status_name(status: LabelProposalStatus) -> &'static str {
    match status {
        LabelProposalStatus::Proposed => "Proposed",
        LabelProposalStatus::Accepted => "Accepted",
        LabelProposalStatus::Rejected => "Rejected",
    }
}

/// The name of a step status, as its debug form prints it.
pub open spec fn step_status_name(status: StepStatus) -> &'static str {
    match status {
        StepStatus::Todo => "Todo",
        StepStatus::Done => "Done",
        StepStatus::Skipped => "Skipped",
    }
}

/// An execution plan event's payload must carry the state its kind names.
pub fn require_plan_state(expected: ExecutionPlanState, actual: ExecutionPlanState) -> (r: Result<(), String>)
    ensures
        actual == expected ==> r is Ok,
        actual != expected ==> (r matches Err(m) && m@ == "execution plan event requires state "@ + plan_state_name(expected)@),
{
    if actual == expected {
        return Ok(());
    }
    let name = match expected {
        ExecutionPlanState::Planned => "Planned",
        ExecutionPlanState::NotRequired => "NotRequired",
        ExecutionPlanState::Unplanned => "Unplanned",
    };
    let mut out: Vec<char> = Vec::new();
    push_str(&mut out, "execution plan event requires state ");
    push_str(&mut out, name);
    Err(chars_to_string(&out))
}

/// A label proposal event's payload must carry the status its kind names.
pub fn require_proposal_status(expected: LabelProposalStatus, actual: LabelProposalStatus) -> (r: Result<(), String>)
    ensures
        actual == expected ==> r is Ok,
        actual != expected ==> (r matches Err(m) && m@ == "label proposal event requires status "@ + proposal_status_name(expected)@),
{
    if actual == expected {
        return Ok(());
    }
    let name = match expected {
        LabelProposalStatus::Proposed => "Proposed",
        LabelProposalStatus::Accepted => "Accepted",
        LabelProposalStatus::Rejected => "Rejected",
    };
    let mut out: Vec<char> = Vec::new();
    push_str(&mut out, "label proposal event requires status ");
    push_str(&mut out, name);
    Err(chars_to_string(&out))
}

/// A task step event's payload must carry the status its kind names, where it names one;
/// the message prints the optional status in its debug form.
pub fn require_step_status(expected: Option<StepStatus>, actual: StepStatus) -> (r: Result<(), String>)
    ensures
        expected is None || expected == Some(actual) ==> r is Ok,
        match expected {
            Some(e) => e != actual ==> (r matches Err(m) && m@ == "task step event requires status Some("@ + step_status_name(e)@ + ")"@),
            None => true,
        },
{
    match expected {
        None => Ok(()),
        Some(e) => {
            if e == actual {
                return Ok(());
            }
            let name = match e {
                StepStatus::Todo => "Todo",
                StepStatus::Done => "Done",
                StepStatus::Skipped => "Skipped",
            };
            let mut out: Vec<char> = Vec::new();
            push_str(&mut out, "task step event requires status Some(");
            push_str(&mut out, name);
            push_str(&mut out, ")");
            Err(chars_to_string(&out))
        },
    }
}


/// The decode plan of `task.execution_plan.not_required`.
proof fn lemma_task_execution_plan_not_required_plan()
    ensures
        kind_plan("task.execution_plan.not_required"@) == Some((seq![PayloadShape::ExecutionPlan], PayloadCheck::PlanState(ExecutionPlanState::NotRequired))),
{
    reveal_strlit("task.execution_plan.not_required");
    assert("task.execution_plan.not_required"@.len() == 32);
    reveal_strlit("board.created");
    assert("board.created"@.len() == 13);
    reveal_strlit("board.archived");
    assert("board.archived"@.len() == 14);
    reveal_strlit("task.archived");
    assert("task.archived"@.len() == 13);
    reveal_strlit("task.updated");
    assert("task.updated"@.len() == 12);
    reveal_strlit("dependency.added");
    assert("dependency.added"@.len() == 16);
    reveal_strlit("dependency.removed");
    assert("dependency.removed"@.len() == 18);
    reveal_strlit("label.created");
    assert("label.created"@.len() == 13);
    reveal_strlit("label.deleted");
    assert("label.deleted"@.len() == 13);
    reveal_strlit("signal.recorded");
    assert("signal.recorded"@.len() == 15);
    reveal_strlit("signal.reviewed");
    assert("signal.reviewed"@.len() == 15);
    reveal_strlit("task.blocked");
    assert("task.blocked"@.len() == 12);
    reveal_strlit("task.claimed");
    assert("task.claimed"@.len() == 12);
    reveal_strlit("task.comment.created");
    assert("task.comment.created"@.len() == 20);
    reveal_strlit("task.completed");
    assert("task.completed"@.len() == 14);
    reveal_strlit("task.submitted_for_review");
    assert("task.submitted_for_review"@.len() == 25);
    reveal_strlit("task.created");
    assert("task.created"@.len() == 12);
    reveal_strlit("task.promoted");
    assert("task.promoted"@.len() == 13);
    reveal_strlit("task.recomputed");
    assert("task.recomputed"@.len() == 15);
    reveal_strlit("task.released");
    assert("task.released"@.len() == 13);
    reveal_strlit("task.specified");
    assert("task.specified"@.len() == 14);
    reveal_strlit("task.unblocked");
    assert("task.unblocked"@.len() == 14);
}

/// The decode plan of `task.execution_plan.planned`.
proof fn lemma_task_execution_plan_planned_plan()
    ensures
        kind_plan("task.execution_plan.planned"@) == Some((seq![PayloadShape::ExecutionPlan], PayloadCheck::PlanState(ExecutionPlanState::Planned))),
{
    reveal_strlit("task.execution_plan.planned");
    assert("task.execution_plan.planned"@.len() == 27);
    reveal_strlit("board.created");
    assert("board.created"@.len() == 13);
    reveal_strlit("board.archived");
    assert("board.archived"@.len() == 14);
    reveal_strlit("task.archived");
    assert("task.archived"@.len() == 13);
    reveal_strlit("task.updated");
    assert("task.updated"@.len() == 12);
    reveal_strlit("dependency.added");
    assert("dependency.added"@.len() == 16);
    reveal_strlit("dependency.removed");
    assert("dependency.removed"@.len() == 18);
    reveal_strlit("label.created");
    assert("label.created"@.len() == 13);
    reveal_strlit("label.deleted");
    assert("label.deleted"@.len() == 13);
    reveal_strlit("signal.recorded");
    assert("signal.recorded"@.len() == 15);
    reveal_strlit("signal.reviewed");
    assert("signal.reviewed"@.len() == 15);
    reveal_strlit("task.blocked");
    assert("task.blocked"@.len() == 12);
    reveal_strlit("task.claimed");
    assert("task.claimed"@.len() == 12);
    reveal_strlit("task.comment.created");
    assert("task.comment.created"@.len() == 20);
    reveal_strlit("task.completed");
    assert("task.completed"@.len() == 14);
    reveal_strlit("task.submitted_for_review");
    assert("task.submitted_for_review"@.len() == 25);
    reveal_strlit("task.created");
    assert("task.created"@.len() == 12);
    reveal_strlit("task.promoted");
    assert("task.promoted"@.len() == 13);
    reveal_strlit("task.recomputed");
    assert("task.recomputed"@.len() == 15);
    reveal_strlit("task.released");
    assert("task.released"@.len() == 13);
    reveal_strlit("task.specified");
    assert("task.specified"@.len() == 14);
    reveal_strlit("task.unblocked");
    assert("task.unblocked"@.len() == 14);
    reveal_strlit("task.execution_plan.not_required");
    assert("task.execution_plan.not_required"@.len() == 32);
}

/// The decode plan of `task.execution_plan.unplanned`.
proof fn lemma_task_execution_plan_unplanned_plan()
    ensures
        kind_plan("task.execution_plan.unplanned"@) == Some((seq![PayloadShape::ExecutionPlan], PayloadCheck::PlanState(ExecutionPlanState::Unplanned))),
{
    reveal_strlit("task.execution_plan.unplanned");
    assert("task.execution_plan.unplanned"@.len() == 29);
    reveal_strlit("board.created");
    assert("board.created"@.len() == 13);
    reveal_strlit("board.archived");
    assert("board.archived"@.len() == 14);
    reveal_strlit("task.archived");
    assert("task.archived"@.len() == 13);
    reveal_strlit("task.updated");
    assert("task.updated"@.len() == 12);
    reveal_strlit("dependency.added");
    assert("dependency.added"@.len() == 16);
    reveal_strlit("dependency.removed");
    assert("dependency.removed"@.len() == 18);
    reveal_strlit("label.created");
    assert("label.created"@.len() == 13);
    reveal_strlit("label.deleted");
    assert("label.deleted"@.len() == 13);
    reveal_strlit("signal.recorded");
    assert("signal.recorded"@.len() == 15);
    reveal_strlit("signal.reviewed");
    assert("signal.reviewed"@.len() == 15);
    reveal_strlit("task.blocked");
    assert("task.blocked"@.len() == 12);
    reveal_strlit("task.claimed");
    assert("task.claimed"@.len() == 12);
    reveal_strlit("task.comment.created");
    assert("task.comment.created"@.len() == 20);
    reveal_strlit("task.completed");
    assert("task.completed"@.len() == 14);
    reveal_strlit("task.submitted_for_review");
    assert("task.submitted_for_review"@.len() == 25);
    reveal_strlit("task.created");
    assert("task.created"@.len() == 12);
    reveal_strlit("task.promoted");
    assert("task.promoted"@.len() == 13);
    reveal_strlit("task.recomputed");
    assert("task.recomputed"@.len() == 15);
    reveal_strlit("task.released");
    assert("task.released"@.len() == 13);
    reveal_strlit("task.specified");
    assert("task.specified"@.len() == 14);
    reveal_strlit("task.unblocked");
    assert("task.unblocked"@.len() == 14);
    reveal_strlit("task.execution_plan.not_required");
    assert("task.execution_plan.not_required"@.len() == 32);
    reveal_strlit("task.execution_plan.planned");
    assert("task.execution_plan.planned"@.len() == 27);
}

/// The decode plan of `task.label_proposal.accepted`.
proof fn lemma_task_label_proposal_accepted_plan()
    ensures
        kind_plan("task.label_proposal.accepted"@) == Some((seq![PayloadShape::LabelProposal], PayloadCheck::ProposalStatus(LabelProposalStatus::Accepted))),
{
    reveal_strlit("task.label_proposal.accepted");
    assert("task.label_proposal.accepted"@.len() == 28);
    reveal_strlit("board.created");
    assert("board.created"@.len() == 13);
    reveal_strlit("board.archived");
    assert("board.archived"@.len() == 14);
    reveal_strlit("task.archived");
    assert("task.archived"@.len() == 13);
    reveal_strlit("task.updated");
    assert("task.updated"@.len() == 12);
    reveal_strlit("dependency.added");
    assert("dependency.added"@.len() == 16);
    reveal_strlit("dependency.removed");
    assert("dependency.removed"@.len() == 18);
    reveal_strlit("label.created");
    assert("label.created"@.len() == 13);
    reveal_strlit("label.deleted");
    assert("label.deleted"@.len() == 13);
    reveal_strlit("signal.recorded");
    assert("signal.recorded"@.len() == 15);
    reveal_strlit("signal.reviewed");
    assert("signal.reviewed"@.len() == 15);
    reveal_strlit("task.blocked");
    assert("task.blocked"@.len() == 12);
    reveal_strlit("task.claimed");
    assert("task.claimed"@.len() == 12);
    reveal_strlit("task.comment.created");
    assert("task.comment.created"@.len() == 20);
    reveal_strlit("task.completed");
    assert("task.completed"@.len() == 14);
    reveal_strlit("task.submitted_for_review");
    assert("task.submitted_for_review"@.len() == 25);
    reveal_strlit("task.created");
    assert("task.created"@.len() == 12);
    reveal_strlit("task.promoted");
    assert("task.promoted"@.len() == 13);
    reveal_strlit("task.recomputed");
    assert("task.recomputed"@.len() == 15);
    reveal_strlit("task.released");
    assert("task.released"@.len() == 13);
    reveal_strlit("task.specified");
    assert("task.specified"@.len() == 14);
    reveal_strlit("task.unblocked");
    assert("task.unblocked"@.len() == 14);
    reveal_strlit("task.execution_plan.not_required");
    assert("task.execution_plan.not_required"@.len() == 32);
    reveal_strlit("task.execution_plan.planned");
    assert("task.execution_plan.planned"@.len() == 27);
    reveal_strlit("task.execution_plan.unplanned");
    assert("task.execution_plan.unplanned"@.len() == 29);
    reveal_strlit("task.heartbeat");
    assert("task.heartbeat"@.len() == 14);
    reveal_strlit("task.label.added");
    assert("task.label.added"@.len() == 16);
    reveal_strlit("task.label.removed");
    assert("task.label.removed"@.len() == 18);
}

/// The decode plan of `task.label_proposal.proposed`.
proof fn lemma_task_label_proposal_proposed_plan()
    ensures
        kind_plan("task.label_proposal.proposed"@) == Some((seq![PayloadShape::LabelProposal], PayloadCheck::ProposalStatus(LabelProposalStatus::Proposed))),
{
    reveal_strlit("task.label_proposal.proposed");
    assert("task.label_proposal.proposed"@.len() == 28);
    reveal_strlit("board.created");
    assert("board.created"@.len() == 13);
    reveal_strlit("board.archived");
    assert("board.archived"@.len() == 14);
    reveal_strlit("task.archived");
    assert("task.archived"@.len() == 13);
    reveal_strlit("task.updated");
    assert("task.updated"@.len() == 12);
    reveal_strlit("dependency.added");
    assert("dependency.added"@.len() == 16);
    reveal_strlit("dependency.removed");
    assert("dependency.removed"@.len() == 18);
    reveal_strlit("label.created");
    assert("label.created"@.len() == 13);
    reveal_strlit("label.deleted");
    assert("label.deleted"@.len() == 13);
    reveal_strlit("signal.recorded");
    assert("signal.recorded"@.len() == 15);
    reveal_strlit("signal.reviewed");
    assert("signal.reviewed"@.len() == 15);
    reveal_strlit("task.blocked");
    assert("task.blocked"@.len() == 12);
    reveal_strlit("task.claimed");
    assert("task.claimed"@.len() == 12);
    reveal_strlit("task.comment.created");
    assert("task.comment.created"@.len() == 20);
    reveal_strlit("task.completed");
    assert("task.completed"@.len() == 14);
    reveal_strlit("task.submitted_for_review");
    assert("task.submitted_for_review"@.len() == 25);
    reveal_strlit("task.created");
    assert("task.created"@.len() == 12);
    reveal_strlit("task.promoted");
    assert("task.promoted"@.len() == 13);
    reveal_strlit("task.recomputed");
    assert("task.recomputed"@.len() == 15);
    reveal_strlit("task.released");
    assert("task.released"@.len() == 13);
    reveal_strlit("task.specified");
    assert("task.specified"@.len() == 14);
    reveal_strlit("task.unblocked");
    assert("task.unblocked"@.len() == 14);
    reveal_strlit("task.execution_plan.not_required");
    assert("task.execution_plan.not_required"@.len() == 32);
    reveal_strlit("task.execution_plan.planned");
    assert("task.execution_plan.planned"@.len() == 27);
    reveal_strlit("task.execution_plan.unplanned");
    assert("task.execution_plan.unplanned"@.len() == 29);
    reveal_strlit("task.heartbeat");
    assert("task.heartbeat"@.len() == 14);
    reveal_strlit("task.label.added");
    assert("task.label.added"@.len() == 16);
    reveal_strlit("task.label.removed");
    assert("task.label.removed"@.len() == 18);
    reveal_strlit("task.label_proposal.accepted");
    assert("task.label_proposal.accepted"@.len() == 28);
    assert("task.label_proposal.proposed"@[20] == 'p');
    assert("task.label_proposal.accepted"@[20] == 'a');
}

/// The decode plan of `task.label_proposal.rejected`.
proof fn lemma_task_label_proposal_rejected_plan()
    ensures
        kind_plan("task.label_proposal.rejected"@) == Some((seq![PayloadShape::LabelProposal], PayloadCheck::ProposalStatus(LabelProposalStatus::Rejected))),
{
    reveal_strlit("task.label_proposal.rejected");
    assert("task.label_proposal.rejected"@.len() == 28);
    reveal_strlit("board.created");
    assert("board.created"@.len() == 13);
    reveal_strlit("board.archived");
    assert("board.archived"@.len() == 14);
    reveal_strlit("task.archived");
    assert("task.archived"@.len() == 13);
    reveal_strlit("task.updated");
    assert("task.updated"@.len() == 12);
    reveal_strlit("dependency.added");
    assert("dependency.added"@.len() == 16);
    reveal_strlit("dependency.removed");
    assert("dependency.removed"@.len() == 18);
    reveal_strlit("label.created");
    assert("label.created"@.len() == 13);
    reveal_strlit("label.deleted");
    assert("label.deleted"@.len() == 13);
    reveal_strlit("signal.recorded");
    assert("signal.recorded"@.len() == 15);
    reveal_strlit("signal.reviewed");
    assert("signal.reviewed"@.len() == 15);
    reveal_strlit("task.blocked");
    assert("task.blocked"@.len() == 12);
    reveal_strlit("task.claimed");
    assert("task.claimed"@.len() == 12);
    reveal_strlit("task.comment.created");
    assert("task.comment.created"@.len() == 20);
    reveal_strlit("task.completed");
    assert("task.completed"@.len() == 14);
    reveal_strlit("task.submitted_for_review");
    assert("task.submitted_for_review"@.len() == 25);
    reveal_strlit("task.created");
    assert("task.created"@.len() == 12);
    reveal_strlit("task.promoted");
    assert("task.promoted"@.len() == 13);
    reveal_strlit("task.recomputed");
    assert("task.recomputed"@.len() == 15);
    reveal_strlit("task.released");
    assert("task.released"@.len() == 13);
    reveal_strlit("task.specified");
    assert("task.specified"@.len() == 14);
    reveal_strlit("task.unblocked");
    assert("task.unblocked"@.len() == 14);
    reveal_strlit("task.execution_plan.not_required");
    assert("task.execution_plan.not_required"@.len() == 32);
    reveal_strlit("task.execution_plan.planned");
    assert("task.execution_plan.planned"@.len() == 27);
    reveal_strlit("task.execution_plan.unplanned");
    assert("task.execution_plan.unplanned"@.len() == 29);
    reveal_strlit("task.heartbeat");
    assert("task.heartbeat"@.len() == 14);
    reveal_strlit("task.label.added");
    assert("task.label.added"@.len() == 16);
    reveal_strlit("task.label.removed");
    assert("task.label.removed"@.len() == 18);
    reveal_strlit("task.label_proposal.accepted");
    assert("task.label_proposal.accepted"@.len() == 28);
    assert("task.label_proposal.rejected"@[20] == 'r');
    assert("task.label_proposal.accepted"@[20] == 'a');
    reveal_strlit("task.label_proposal.proposed");
    assert("task.label_proposal.proposed"@.len() == 28);
    assert("task.label_proposal.rejected"@[20] == 'r');
    assert("task.label_proposal.proposed"@[20] == 'p');
}

/// The decode plan of `task.step.created`.
proof fn lemma_task_step_created_plan()
    ensures
        kind_plan("task.step.created"@) == Some((seq![PayloadShape::TaskStep], PayloadCheck::StepStatus(Some(StepStatus::Todo)))),
{
    reveal_strlit("task.step.created");
    assert("task.step.created"@.len() == 17);
    reveal_strlit("board.created");
    assert("board.created"@.len() == 13);
    reveal_strlit("board.archived");
    assert("board.archived"@.len() == 14);
    reveal_strlit("task.archived");
    assert("task.archived"@.len() == 13);
    reveal_strlit("task.updated");
    assert("task.updated"@.len() == 12);
    reveal_strlit("dependency.added");
    assert("dependency.added"@.len() == 16);
    reveal_strlit("dependency.removed");
    assert("dependency.removed"@.len() == 18);
    reveal_strlit("label.created");
    assert("label.created"@.len() == 13);
    reveal_strlit("label.deleted");
    assert("label.deleted"@.len() == 13);
    reveal_strlit("signal.recorded");
    assert("signal.recorded"@.len() == 15);
    reveal_strlit("signal.reviewed");
    assert("signal.reviewed"@.len() == 15);
    reveal_strlit("task.blocked");
    assert("task.blocked"@.len() == 12);
    reveal_strlit("task.claimed");
    assert("task.claimed"@.len() == 12);
    reveal_strlit("task.comment.created");
    assert("task.comment.created"@.len() == 20);
    reveal_strlit("task.completed");
    assert("task.completed"@.len() == 14);
    reveal_strlit("task.submitted_for_review");
    assert("task.submitted_for_review"@.len() == 25);
    reveal_strlit("task.created");
    assert("task.created"@.len() == 12);
    reveal_strlit("task.promoted");
    assert("task.promoted"@.len() == 13);
    reveal_strlit("task.recomputed");
    assert("task.recomputed"@.len() == 15);
    reveal_strlit("task.released");
    assert("task.released"@.len() == 13);
    reveal_strlit("task.specified");
    assert("task.specified"@.len() == 14);
    reveal_strlit("task.unblocked");
    assert("task.unblocked"@.len() == 14);
    reveal_strlit("task.execution_plan.not_required");
    assert("task.execution_plan.not_required"@.len() == 32);
    reveal_strlit("task.execution_plan.planned");
    assert("task.execution_plan.planned"@.len() == 27);
    reveal_strlit("task.execution_plan.unplanned");
    assert("task.execution_plan.unplanned"@.len() == 29);
    reveal_strlit("task.heartbeat");
    assert("task.heartbeat"@.len() == 14);
    reveal_strlit("task.label.added");
    assert("task.label.added"@.len() == 16);
    reveal_strlit("task.label.removed");
    assert("task.label.removed"@.len() == 18);
    reveal_strlit("task.label_proposal.accepted");
    assert("task.label_proposal.accepted"@.len() == 28);
    reveal_strlit("task.label_proposal.proposed");
    assert("task.label_proposal.proposed"@.len() == 28);
    reveal_strlit("task.label_proposal.rejected");
    assert("task.label_proposal.rejected"@.len() == 28);
    reveal_strlit("task.reclaimed");
    assert("task.reclaimed"@.len() == 14);
    reveal_strlit("task.reopened");
    assert("task.reopened"@.len() == 13);
    reveal_strlit("task.retry_policy.updated");
    assert("task.retry_policy.updated"@.len() == 25);
}

/// The decode plan of `task.step.reopened`.
proof fn lemma_task_step_reopened_plan()
    ensures
        kind_plan("task.step.reopened"@) == Some((seq![PayloadShape::TaskStep], PayloadCheck::StepStatus(Some(StepStatus::Todo)))),
{
    reveal_strlit("task.step.reopened");
    assert("task.step.reopened"@.len() == 18);
    reveal_strlit("board.created");
    assert("board.created"@.len() == 13);
    reveal_strlit("board.archived");
    assert("board.archived"@.len() == 14);
    reveal_strlit("task.archived");
    assert("task.archived"@.len() == 13);
    reveal_strlit("task.updated");
    assert("task.updated"@.len() == 12);
    reveal_strlit("dependency.added");
    assert("dependency.added"@.len() == 16);
    reveal_strlit("dependency.removed");
    assert("dependency.removed"@.len() == 18);
    assert("task.step.reopened"@[0] == 't');
    assert("dependency.removed"@[0] == 'd');
    reveal_strlit("label.created");
    assert("label.created"@.len() == 13);
    reveal_strlit("label.deleted");
    assert("label.deleted"@.len() == 13);
    reveal_strlit("signal.recorded");
    assert("signal.recorded"@.len() == 15);
    reveal_strlit("signal.reviewed");
    assert("signal.reviewed"@.len() == 15);
    reveal_strlit("task.blocked");
    assert("task.blocked"@.len() == 12);
    reveal_strlit("task.claimed");
    assert("task.claimed"@.len() == 12);
    reveal_strlit("task.comment.created");
    assert("task.comment.created"@.len() == 20);
    reveal_strlit("task.completed");
    assert("task.completed"@.len() == 14);
    reveal_strlit("task.submitted_for_review");
    assert("task.submitted_for_review"@.len() == 25);
    reveal_strlit("task.created");
    assert("task.created"@.len() == 12);
    reveal_strlit("task.promoted");
    assert("task.promoted"@.len() == 13);
    reveal_strlit("task.recomputed");
    assert("task.recomputed"@.len() == 15);
    reveal_strlit("task.released");
    assert("task.released"@.len() == 13);
    reveal_strlit("task.specified");
    assert("task.specified"@.len() == 14);
    reveal_strlit("task.unblocked");
    assert("task.unblocked"@.len() == 14);
    reveal_strlit("task.execution_plan.not_required");
    assert("task.execution_plan.not_required"@.len() == 32);
    reveal_strlit("task.execution_plan.planned");
    assert("task.execution_plan.planned"@.len() == 27);
    reveal_strlit("task.execution_plan.unplanned");
    assert("task.execution_plan.unplanned"@.len() == 29);
    reveal_strlit("task.heartbeat");
    assert("task.heartbeat"@.len() == 14);
    reveal_strlit("task.label.added");
    assert("task.label.added"@.len() == 16);
    reveal_strlit("task.label.removed");
    assert("task.label.removed"@.len() == 18);
    assert("task.step.reopened"@[5] == 's');
    assert("task.label.removed"@[5] == 'l');
    reveal_strlit("task.label_proposal.accepted");
    assert("task.label_proposal.accepted"@.len() == 28);
    reveal_strlit("task.label_proposal.proposed");
    assert("task.label_proposal.proposed"@.len() == 28);
    reveal_strlit("task.label_proposal.rejected");
    assert("task.label_proposal.rejected"@.len() == 28);
    reveal_strlit("task.reclaimed");
    assert("task.reclaimed"@.len() == 14);
    reveal_strlit("task.reopened");
    assert("task.reopened"@.len() == 13);
    reveal_strlit("task.retry_policy.updated");
    assert("task.retry_policy.updated"@.len() == 25);
    reveal_strlit("task.step.created");
    assert("task.step.created"@.len() == 17);
}

/// The decode plan of `task.step.done`.
proof fn lemma_task_step_done_plan()
    ensures
        kind_plan("task.step.done"@) == Some((seq![PayloadShape::TaskStep], PayloadCheck::StepStatus(Some(StepStatus::Done)))),
{
    reveal_strlit("task.step.done");
    assert("task.step.done"@.len() == 14);
    reveal_strlit("board.created");
    assert("board.created"@.len() == 13);
    reveal_strlit("board.archived");
    assert("board.archived"@.len() == 14);
    assert("task.step.done"@[0] == 't');
    assert("board.archived"@[0] == 'b');
    reveal_strlit("task.archived");
    assert("task.archived"@.len() == 13);
    reveal_strlit("task.updated");
    assert("task.updated"@.len() == 12);
    reveal_strlit("dependency.added");
    assert("dependency.added"@.len() == 16);
    reveal_strlit("dependency.removed");
    assert("dependency.removed"@.len() == 18);
    reveal_strlit("label.created");
    assert("label.created"@.len() == 13);
    reveal_strlit("label.deleted");
    assert("label.deleted"@.len() == 13);
    reveal_strlit("signal.recorded");
    assert("signal.recorded"@.len() == 15);
    reveal_strlit("signal.reviewed");
    assert("signal.reviewed"@.len() == 15);
    reveal_strlit("task.blocked");
    assert("task.blocked"@.len() == 12);
    reveal_strlit("task.claimed");
    assert("task.claimed"@.len() == 12);
    reveal_strlit("task.comment.created");
    assert("task.comment.created"@.len() == 20);
    reveal_strlit("task.completed");
    assert("task.completed"@.len() == 14);
    assert("task.step.done"@[5] == 's');
    assert("task.completed"@[5] == 'c');
    reveal_strlit("task.submitted_for_review");
    assert("task.submitted_for_review"@.len() == 25);
    reveal_strlit("task.created");
    assert("task.created"@.len() == 12);
    reveal_strlit("task.promoted");
    assert("task.promoted"@.len() == 13);
    reveal_strlit("task.recomputed");
    assert("task.recomputed"@.len() == 15);
    reveal_strlit("task.released");
    assert("task.released"@.len() == 13);
    reveal_strlit("task.specified");
    assert("task.specified"@.len() == 14);
    assert("task.step.done"@[6] == 't');
    assert("task.specified"@[6] == 'p');
    reveal_strlit("task.unblocked");
    assert("task.unblocked"@.len() == 14);
    assert("task.step.done"@[5] == 's');
    assert("task.unblocked"@[5] == 'u');
    reveal_strlit("task.execution_plan.not_required");
    assert("task.execution_plan.not_required"@.len() == 32);
    reveal_strlit("task.execution_plan.planned");
    assert("task.execution_plan.planned"@.len() == 27);
    reveal_strlit("task.execution_plan.unplanned");
    assert("task.execution_plan.unplanned"@.len() == 29);
    reveal_strlit("task.heartbeat");
    assert("task.heartbeat"@.len() == 14);
    assert("task.step.done"@[5] == 's');
    assert("task.heartbeat"@[5] == 'h');
    reveal_strlit("task.label.added");
    assert("task.label.added"@.len() == 16);
    reveal_strlit("task.label.removed");
    assert("task.label.removed"@.len() == 18);
    reveal_strlit("task.label_proposal.accepted");
    assert("task.label_proposal.accepted"@.len() == 28);
    reveal_strlit("task.label_proposal.proposed");
    assert("task.label_proposal.proposed"@.len() == 28);
    reveal_strlit("task.label_proposal.rejected");
    assert("task.label_proposal.rejected"@.len() == 28);
    reveal_strlit("task.reclaimed");
    assert("task.reclaimed"@.len() == 14);
    assert("task.step.done"@[5] == 's');
    assert("task.reclaimed"@[5] == 'r');
    reveal_strlit("task.reopened");
    assert("task.reopened"@.len() == 13);
    reveal_strlit("task.retry_policy.updated");
    assert("task.retry_policy.updated"@.len() == 25);
    reveal_strlit("task.step.created");
    assert("task.step.created"@.len() == 17);
    reveal_strlit("task.step.reopened");
    assert("task.step.reopened"@.len() == 18);
}

/// The decode plan of `task.step.skipped`.
proof fn lemma_task_step_skipped_plan()
    ensures
        kind_plan("task.step.skipped"@) == Some((seq![PayloadShape::TaskStep], PayloadCheck::StepStatus(Some(StepStatus::Skipped)))),
{
    reveal_strlit("task.step.skipped");
    assert("task.step.skipped"@.len() == 17);
    reveal_strlit("board.created");
    assert("board.created"@.len() == 13);
    reveal_strlit("board.archived");
    assert("board.archived"@.len() == 14);
    reveal_strlit("task.archived");
    assert("task.archived"@.len() == 13);
    reveal_strlit("task.updated");
    assert("task.updated"@.len() == 12);
    reveal_strlit("dependency.added");
    assert("dependency.added"@.len() == 16);
    reveal_strlit("dependency.removed");
    assert("dependency.removed"@.len() == 18);
    reveal_strlit("label.created");
    assert("label.created"@.len() == 13);
    reveal_strlit("label.deleted");
    assert("label.deleted"@.len() == 13);
    reveal_strlit("signal.recorded");
    assert("signal.recorded"@.len() == 15);
    reveal_strlit("signal.reviewed");
    assert("signal.reviewed"@.len() == 15);
    reveal_strlit("task.blocked");
    assert("task.blocked"@.len() == 12);
    reveal_strlit("task.claimed");
    assert("task.claimed"@.len() == 12);
    reveal_strlit("task.comment.created");
    assert("task.comment.created"@.len() == 20);
    reveal_strlit("task.completed");
    assert("task.completed"@.len() == 14);
    reveal_strlit("task.submitted_for_review");
    assert("task.submitted_for_review"@.len() == 25);
    reveal_strlit("task.created");
    assert("task.created"@.len() == 12);
    reveal_strlit("task.promoted");
    assert("task.promoted"@.len() == 13);
    reveal_strlit("task.recomputed");
    assert("task.recomputed"@.len() == 15);
    reveal_strlit("task.released");
    assert("task.released"@.len() == 13);
    reveal_strlit("task.specified");
    assert("task.specified"@.len() == 14);
    reveal_strlit("task.unblocked");
    assert("task.unblocked"@.len() == 14);
    reveal_strlit("task.execution_plan.not_required");
    assert("task.execution_plan.not_required"@.len() == 32);
    reveal_strlit("task.execution_plan.planned");
    assert("task.execution_plan.planned"@.len() == 27);
    reveal_strlit("task.execution_plan.unplanned");
    assert("task.execution_plan.unplanned"@.len() == 29);
    reveal_strlit("task.heartbeat");
    assert("task.heartbeat"@.len() == 14);
    reveal_strlit("task.label.added");
    assert("task.label.added"@.len() == 16);
    reveal_strlit("task.label.removed");
    assert("task.label.removed"@.len() == 18);
    reveal_strlit("task.label_proposal.accepted");
    assert("task.label_proposal.accepted"@.len() == 28);
    reveal_strlit("task.label_proposal.proposed");
    assert("task.label_proposal.proposed"@.len() == 28);
    reveal_strlit("task.label_proposal.rejected");
    assert("task.label_proposal.rejected"@.len() == 28);
    reveal_strlit("task.reclaimed");
    assert("task.reclaimed"@.len() == 14);
    reveal_strlit("task.reopened");
    assert("task.reopened"@.len() == 13);
    reveal_strlit("task.retry_policy.updated");
    assert("task.retry_policy.updated"@.len() == 25);
    reveal_strlit("task.step.created");
    assert("task.step.created"@.len() == 17);
    assert("task.step.skipped"@[10] == 's');
    assert("task.step.created"@[10] == 'c');
    reveal_strlit("task.step.reopened");
    assert("task.step.reopened"@.len() == 18);
    reveal_strlit("task.step.done");
    assert("task.step.done"@.len() == 14);
}

/// The decode plan of `task.step.removed`.
proof fn lemma_task_step_removed_plan()
    ensures
        kind_plan("task.step.removed"@) == Some((seq![PayloadShape::TaskStep], PayloadCheck::StepStatus(None))),
{
    reveal_strlit("task.step.removed");
    assert("task.step.removed"@.len() == 17);
    reveal_strlit("board.created");
    assert("board.created"@.len() == 13);
    reveal_strlit("board.archived");
    assert("board.archived"@.len() == 14);
    reveal_strlit("task.archived");
    assert("task.archived"@.len() == 13);
    reveal_strlit("task.updated");
    assert("task.updated"@.len() == 12);
    reveal_strlit("dependency.added");
    assert("dependency.added"@.len() == 16);
    reveal_strlit("dependency.removed");
    assert("dependency.removed"@.len() == 18);
    reveal_strlit("label.created");
    assert("label.created"@.len() == 13);
    reveal_strlit("label.deleted");
    assert("label.deleted"@.len() == 13);
    reveal_strlit("signal.recorded");
    assert("signal.recorded"@.len() == 15);
    reveal_strlit("signal.reviewed");
    assert("signal.reviewed"@.len() == 15);
    reveal_strlit("task.blocked");
    assert("task.blocked"@.len() == 12);
    reveal_strlit("task.claimed");
    assert("task.claimed"@.len() == 12);
    reveal_strlit("task.comment.created");
    assert("task.comment.created"@.len() == 20);
    reveal_strlit("task.completed");
    assert("task.completed"@.len() == 14);
    reveal_strlit("task.submitted_for_review");
    assert("task.submitted_for_review"@.len() == 25);
    reveal_strlit("task.created");
    assert("task.created"@.len() == 12);
    reveal_strlit("task.promoted");
    assert("task.promoted"@.len() == 13);
    reveal_strlit("task.recomputed");
    assert("task.recomputed"@.len() == 15);
    reveal_strlit("task.released");
    assert("task.released"@.len() == 13);
    reveal_strlit("task.specified");
    assert("task.specified"@.len() == 14);
    reveal_strlit("task.unblocked");
    assert("task.unblocked"@.len() == 14);
    reveal_strlit("task.execution_plan.not_required");
    assert("task.execution_plan.not_required"@.len() == 32);
    reveal_strlit("task.execution_plan.planned");
    assert("task.execution_plan.planned"@.len() == 27);
    reveal_strlit("task.execution_plan.unplanned");
    assert("task.execution_plan.unplanned"@.len() == 29);
    reveal_strlit("task.heartbeat");
    assert("task.heartbeat"@.len() == 14);
    reveal_strlit("task.label.added");
    assert("task.label.added"@.len() == 16);
    reveal_strlit("task.label.removed");
    assert("task.label.removed"@.len() == 18);
    reveal_strlit("task.label_proposal.accepted");
    assert("task.label_proposal.accepted"@.len() == 28);
    reveal_strlit("task.label_proposal.proposed");
    assert("task.label_proposal.proposed"@.len() == 28);
    reveal_strlit("task.label_proposal.rejected");
    assert("task.label_proposal.rejected"@.len() == 28);
    reveal_strlit("task.reclaimed");
    assert("task.reclaimed"@.len() == 14);
    reveal_strlit("task.reopened");
    assert("task.reopened"@.len() == 13);
    reveal_strlit("task.retry_policy.updated");
    assert("task.retry_policy.updated"@.len() == 25);
    reveal_strlit("task.step.created");
    assert("task.step.created"@.len() == 17);
    assert("task.step.removed"@[10] == 'r');
    assert("task.step.created"@[10] == 'c');
    reveal_strlit("task.step.reopened");
    assert("task.step.reopened"@.len() == 18);
    reveal_strlit("task.step.done");
    assert("task.step.done"@.len() == 14);
    reveal_strlit("task.step.skipped");
    assert("task.step.skipped"@.len() == 17);
    assert("task.step.removed"@[10] == 'r');
    assert("task.step.skipped"@[10] == 's');
}

/// The decode plan of `task.step.updated`.
proof fn lemma_task_step_updated_plan()
    ensures
        kind_plan("task.step.updated"@) == Some((seq![PayloadShape::TaskStep], PayloadCheck::StepStatus(None))),
{
    reveal_strlit("task.step.updated");
    assert("task.step.updated"@.len() == 17);
    reveal_strlit("board.created");
    assert("board.created"@.len() == 13);
    reveal_strlit("board.archived");
    assert("board.archived"@.len() == 14);
    reveal_strlit("task.archived");
    assert("task.archived"@.len() == 13);
    reveal_strlit("task.updated");
    assert("task.updated"@.len() == 12);
    reveal_strlit("dependency.added");
    assert("dependency.added"@.len() == 16);
    reveal_strlit("dependency.removed");
    assert("dependency.removed"@.len() == 18);
    reveal_strlit("label.created");
    assert("label.created"@.len() == 13);
    reveal_strlit("label.deleted");
    assert("label.deleted"@.len() == 13);
    reveal_strlit("signal.recorded");
    assert("signal.recorded"@.len() == 15);
    reveal_strlit("signal.reviewed");
    assert("signal.reviewed"@.len() == 15);
    reveal_strlit("task.blocked");
    assert("task.blocked"@.len() == 12);
    reveal_strlit("task.claimed");
    assert("task.claimed"@.len() == 12);
    reveal_strlit("task.comment.created");
    assert("task.comment.created"@.len() == 20);
    reveal_strlit("task.completed");
    assert("task.completed"@.len() == 14);
    reveal_strlit("task.submitted_for_review");
    assert("task.submitted_for_review"@.len() == 25);
    reveal_strlit("task.created");
    assert("task.created"@.len() == 12);
    reveal_strlit("task.promoted");
    assert("task.promoted"@.len() == 13);
    reveal_strlit("task.recomputed");
    assert("task.recomputed"@.len() == 15);
    reveal_strlit("task.released");
    assert("task.released"@.len() == 13);
    reveal_strlit("task.specified");
    assert("task.specified"@.len() == 14);
    reveal_strlit("task.unblocked");
    assert("task.unblocked"@.len() == 14);
    reveal_strlit("task.execution_plan.not_required");
    assert("task.execution_plan.not_required"@.len() == 32);
    reveal_strlit("task.execution_plan.planned");
    assert("task.execution_plan.planned"@.len() == 27);
    reveal_strlit("task.execution_plan.unplanned");
    assert("task.execution_plan.unplanned"@.len() == 29);
    reveal_strlit("task.heartbeat");
    assert("task.heartbeat"@.len() == 14);
    reveal_strlit("task.label.added");
    assert("task.label.added"@.len() == 16);
    reveal_strlit("task.label.removed");
    assert("task.label.removed"@.len() == 18);
    reveal_strlit("task.label_proposal.accepted");
    assert("task.label_proposal.accepted"@.len() == 28);
    reveal_strlit("task.label_proposal.proposed");
    assert("task.label_proposal.proposed"@.len() == 28);
    reveal_strlit("task.label_proposal.rejected");
    assert("task.label_proposal.rejected"@.len() == 28);
    reveal_strlit("task.reclaimed");
    assert("task.reclaimed"@.len() == 14);
    reveal_strlit("task.reopened");
    assert("task.reopened"@.len() == 13);
    reveal_strlit("task.retry_policy.updated");
    assert("task.retry_policy.updated"@.len() == 25);
    reveal_strlit("task.step.created");
    assert("task.step.created"@.len() == 17);
    assert("task.step.updated"@[10] == 'u');
    assert("task.step.created"@[10] == 'c');
    reveal_strlit("task.step.reopened");
    assert("task.step.reopened"@.len() == 18);
    reveal_strlit("task.step.done");
    assert("task.step.done"@.len() == 14);
    reveal_strlit("task.step.skipped");
    assert("task.step.skipped"@.len() == 17);
    assert("task.step.updated"@[10] == 'u');
    assert("task.step.skipped"@[10] == 's');
    reveal_strlit("task.step.removed");
    assert("task.step.removed"@.len() == 17);
    assert("task.step.updated"@[10] == 'u');
    assert("task.step.removed"@[10] == 'r');
}

/// The wire name of a step status.
pub open spec fn step_status_wire(status: StepStatus) -> &'static str {
    match status {
        StepStatus::Todo => "todo",
        StepStatus::Done => "done",
        StepStatus::Skipped => "skipped",
    }
}

/// The wire name of an execution plan state.
pub open spec fn plan_state_wire(state: ExecutionPlanState) -> &'static str {
    match state {
        ExecutionPlanState::Planned => "planned",
        ExecutionPlanState::NotRequired => "not_required",
        ExecutionPlanState::Unplanned => "unplanned",
    }
}

/// The wire name of a label proposal status.
pub open spec fn proposal_status_wire(status: LabelProposalStatus) -> &'static str {
    match status {
        LabelProposalStatus::Proposed => "proposed",
        LabelProposalStatus::Accepted => "accepted",
        LabelProposalStatus::Rejected => "rejected",
    }
}

/// The kinds `task.step.<status>` written with a status's wire name.
proof fn lemma_step_kind_names()
    ensures
        "task.step."@ + step_status_wire(StepStatus::Done)@ == "task.step.done"@,
        "task.step."@ + step_status_wire(StepStatus::Skipped)@ == "task.step.skipped"@,
        "task.step."@ + step_status_wire(StepStatus::Todo)@ != "task.step.done"@,
        "task.step."@ + step_status_wire(StepStatus::Todo)@ != "task.step.skipped"@,
{
    reveal_strlit("task.step.");
    reveal_strlit("done");
    reveal_strlit("skipped");
    reveal_strlit("todo");
    reveal_strlit("task.step.done");
    reveal_strlit("task.step.skipped");
    assert("task.step."@ + "done"@ =~= "task.step.done"@);
    assert("task.step."@ + "skipped"@ =~= "task.step.skipped"@);
    assert(("task.step."@ + "todo"@)[10] == 't');
    assert("task.step.done"@[10] == 'd');
    assert("task.step.skipped"@[10] == 's');
}

/// The kinds `task.execution_plan.<state>` written with a state's wire name.
proof fn lemma_plan_kind_names()
    ensures
        "task.execution_plan."@ + plan_state_wire(ExecutionPlanState::Planned)@ == "task.execution_plan.planned"@,
        "task.execution_plan."@ + plan_state_wire(ExecutionPlanState::NotRequired)@
            == "task.execution_plan.not_required"@,
        "task.execution_plan."@ + plan_state_wire(ExecutionPlanState::Unplanned)@ == "task.execution_plan.unplanned"@,
{
    reveal_strlit("task.execution_plan.");
    reveal_strlit("planned");
    reveal_strlit("not_required");
    reveal_strlit("unplanned");
    reveal_strlit("task.execution_plan.planned");
    reveal_strlit("task.execution_plan.not_required");
    reveal_strlit("task.execution_plan.unplanned");
    assert("task.execution_plan."@ + "planned"@ =~= "task.execution_plan.planned"@);
    assert("task.execution_plan."@ + "not_required"@ =~= "task.execution_plan.not_required"@);
    assert("task.execution_plan."@ + "unplanned"@ =~= "task.execution_plan.unplanned"@);
}

/// The kinds `task.label_proposal.<status>` written with a status's wire name.
proof fn lemma_proposal_kind_names()
    ensures
        "task.label_proposal."@ + proposal_status_wire(LabelProposalStatus::Proposed)@
            == "task.label_proposal.proposed"@,
        "task.label_proposal."@ + proposal_status_wire(LabelProposalStatus::Accepted)@
            == "task.label_proposal.accepted"@,
        "task.label_proposal."@ + proposal_status_wire(LabelProposalStatus::Rejected)@
            == "task.label_proposal.rejected"@,
{
    reveal_strlit("task.label_proposal.");
    reveal_strlit("proposed");
    reveal_strlit("accepted");
    reveal_strlit("rejected");
    reveal_strlit("task.label_proposal.proposed");
    reveal_strlit("task.label_proposal.accepted");
    reveal_strlit("task.label_proposal.rejected");
    assert("task.label_proposal."@ + "proposed"@ =~= "task.label_proposal.proposed"@);
    assert("task.label_proposal."@ + "accepted"@ =~= "task.label_proposal.accepted"@);
    assert("task.label_proposal."@ + "rejected"@ =~= "task.label_proposal.rejected"@);
}

/// A task step event kind checks the step status that it names: `task.step.<status>` decodes
/// a task step and requires that status, for the done and skipped statuses; the created and
/// reopened events require an open (todo) step; the removed and updated events accept any
/// status; and no other kind checks a step status.
pub proof fn lemma_step_kinds_check_their_status(kind: Seq<char>, status: StepStatus)
    ensures
        status != StepStatus::Todo ==> ((kind_plan(kind) matches Some((_, PayloadCheck::StepStatus(Some(s))))
            && s == status) <==> kind == "task.step."@ + step_status_wire(status)@),
        (kind_plan(kind) matches Some((_, PayloadCheck::StepStatus(Some(StepStatus::Todo))))) <==> (kind
            == "task.step.created"@ || kind == "task.step.reopened"@),
        (kind_plan(kind) matches Some((_, PayloadCheck::StepStatus(None)))) <==> (kind == "task.step.removed"@
            || kind == "task.step.updated"@),
        kind_plan(kind) matches Some((shapes, PayloadCheck::StepStatus(_))) ==> shapes == seq![PayloadShape::TaskStep],
{
    lemma_step_kind_names();
    lemma_task_step_created_plan();
    lemma_task_step_reopened_plan();
    lemma_task_step_done_plan();
    lemma_task_step_skipped_plan();
    lemma_task_step_removed_plan();
    lemma_task_step_updated_plan();
}

/// An execution plan event kind checks the state that it names: `task.execution_plan.<state>`
/// decodes an execution plan and requires that state, and no other kind checks a plan state.
pub proof fn lemma_plan_kinds_check_their_state(kind: Seq<char>, state: ExecutionPlanState)
    ensures
        (kind_plan(kind) matches Some((_, PayloadCheck::PlanState(s))) && s == state) <==> kind
            == "task.execution_plan."@ + plan_state_wire(state)@,
        kind_plan(kind) matches Some((shapes, PayloadCheck::PlanState(_))) ==> shapes == seq![PayloadShape::ExecutionPlan],
{
    lemma_plan_kind_names();
    lemma_task_execution_plan_not_required_plan();
    lemma_task_execution_plan_planned_plan();
    lemma_task_execution_plan_unplanned_plan();
}

/// A label proposal event kind checks the status that it names:
/// `task.label_proposal.<status>` decodes a label proposal and requires that status, and no
/// other kind checks a proposal status.
pub proof fn lemma_proposal_kinds_check_their_status(kind: Seq<char>, status: LabelProposalStatus)
    ensures
        (kind_plan(kind) matches Some((_, PayloadCheck::ProposalStatus(s))) && s == status) <==> kind
            == "task.label_proposal."@ + proposal_status_wire(status)@,
        kind_plan(kind) matches Some((shapes, PayloadCheck::ProposalStatus(_))) ==> shapes == seq![PayloadShape::LabelProposal],
{
    lemma_proposal_kind_names();
    lemma_task_label_proposal_accepted_plan();
    lemma_task_label_proposal_proposed_plan();
    lemma_task_label_proposal_rejected_plan();
}

} // verus!
