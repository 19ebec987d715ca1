use kanban_protocol::event_payload::{
    decode_plan, known_event_kinds, require_plan_state, require_proposal_status,
    require_step_status, ExecutionPlanState, LabelProposalStatus, PayloadCheck, PayloadShape,
    StepStatus,
};

#[test]
fn every_known_kind_has_a_plan_and_others_do_not() {
    let kinds = known_event_kinds();
    assert_eq!(kinds.len(), 40);
    for kind in &kinds {
        assert!(decode_plan(kind).is_some(), "{kind}");
    }
    assert!(decode_plan("plugin.future.event").is_none());
    assert!(decode_plan("").is_none());
}

#[test]
fn fallback_shapes_are_tried_in_order() {
    let blocked = decode_plan("task.blocked").expect("plan");
    assert_eq!(
        blocked.shapes,
        vec![PayloadShape::TaskReason, PayloadShape::TaskRetry, PayloadShape::TaskResult]
    );
    assert_eq!(blocked.check, PayloadCheck::Any);
    let created = decode_plan("board.created").expect("plan");
    assert_eq!(created.shapes, vec![PayloadShape::BoardCreated, PayloadShape::Empty]);
    let reclaimed = decode_plan("task.reclaimed").expect("plan");
    assert_eq!(reclaimed.shapes, vec![PayloadShape::TaskReclaimed, PayloadShape::TaskRetry]);
    assert_eq!(decode_plan("task.updated").expect("plan").shapes, vec![PayloadShape::Empty]);
}

#[test]
fn kind_suffix_names_the_required_state() {
    assert_eq!(
        decode_plan("task.execution_plan.not_required").expect("plan").check,
        PayloadCheck::PlanState(ExecutionPlanState::NotRequired)
    );
    assert_eq!(
        decode_plan("task.label_proposal.rejected").expect("plan").check,
        PayloadCheck::ProposalStatus(LabelProposalStatus::Rejected)
    );
    assert_eq!(
        decode_plan("task.step.reopened").expect("plan").check,
        PayloadCheck::StepStatus(Some(StepStatus::Todo))
    );
    assert_eq!(
        decode_plan("task.step.updated").expect("plan").check,
        PayloadCheck::StepStatus(None)
    );
}

#[test]
fn mismatched_states_are_refused_with_their_messages() {
    assert_eq!(require_plan_state(ExecutionPlanState::Planned, ExecutionPlanState::Planned), Ok(()));
    assert_eq!(
        require_plan_state(ExecutionPlanState::NotRequired, ExecutionPlanState::Planned),
        Err("execution plan event requires state NotRequired".to_string())
    );
    assert_eq!(
        require_proposal_status(LabelProposalStatus::Accepted, LabelProposalStatus::Proposed),
        Err("label proposal event requires status Accepted".to_string())
    );
    assert_eq!(
        require_proposal_status(LabelProposalStatus::Accepted, LabelProposalStatus::Accepted),
        Ok(())
    );
    assert_eq!(
        require_step_status(Some(StepStatus::Done), StepStatus::Todo),
        Err("task step event requires status Some(Done)".to_string())
    );
    assert_eq!(require_step_status(None, StepStatus::Skipped), Ok(()));
    assert_eq!(require_step_status(Some(StepStatus::Skipped), StepStatus::Skipped), Ok(()));
}
