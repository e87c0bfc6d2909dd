use secrets_portal::approval::{
    ApprovalLevel, DbAction, DbEvent, DbStage, Decision, DecisionError, DecisionPhase, DecisionRun,
    DecisionStep, LockedRequest, Status,
};

/// An in-memory request: requester, status, resolved flag and the recorded approvals.
#[derive(Clone, Debug, PartialEq)]
struct Row {
    requester: u128,
    status: Status,
    resolved: bool,
    l1: Option<(u128, Decision, String, Option<String>)>,
    l2: Option<(u128, Decision, String, Option<String>)>,
}

/// Runs a decision against `row` (None: no such request), failing at step `fail_at`
/// if given. Returns the outcome, the committed row and the actions taken.
fn run(
    row: Option<Row>,
    approver: u128,
    decision: Decision,
    fail_at: Option<usize>,
) -> (Result<(), DecisionError>, Option<Row>, Vec<DbAction>) {
    let (mut machine, mut action) =
        DecisionRun::start(7, approver, GROUP.to_string(), Some(NOTE.to_string()), decision);
    let mut staged = row.clone();
    let mut actions = Vec::new();
    let mut step_index = 0;
    loop {
        actions.push(action.clone());
        let event = if Some(step_index) == fail_at {
            DbEvent::Failed
        } else {
            match action {
                DbAction::Begin => DbEvent::Begun,
                DbAction::LockRequest { request_id } => {
                    assert_eq!(request_id, 7);
                    DbEvent::Locked(staged.as_ref().map(|r| LockedRequest {
                        requester_user_id: r.requester,
                        status: r.status,
                    }))
                }
                DbAction::FetchL1Approver { .. } => {
                    DbEvent::L1Approver(staged.as_ref().and_then(|r| r.l1.as_ref().map(|(a, _, _, _)| *a)))
                }
                DbAction::InsertApproval { level, decision, approver_user_id, approver_group, note, .. } => {
                    let r = staged.as_mut().unwrap();
                    let slot = match level {
                        ApprovalLevel::L1 => &mut r.l1,
                        ApprovalLevel::L2 => &mut r.l2,
                    };
                    if slot.is_some() {
                        // one approval row per level
                        DbEvent::Failed
                    } else {
                        *slot = Some((approver_user_id, decision, approver_group, note));
                        DbEvent::Inserted
                    }
                }
                DbAction::UpdateStatus { status, terminal, .. } => {
                    let r = staged.as_mut().unwrap();
                    r.status = status;
                    r.resolved = terminal;
                    DbEvent::Updated
                }
                DbAction::Commit => DbEvent::Committed,
            }
        };
        step_index += 1;
        match machine.advance(event) {
            DecisionStep::Perform(next) => action = next,
            DecisionStep::Finish(outcome) => {
                assert!(machine.is_done());
                let committed = if outcome.is_ok() { staged } else { row };
                return (outcome, committed, actions);
            }
        }
    }
}

const GROUP: &str = "payments-leads";
const NOTE: &str = "value checked";

fn row(who: u128, d: Decision) -> Option<(u128, Decision, String, Option<String>)> {
    Some((who, d, GROUP.to_string(), Some(NOTE.to_string())))
}

const ALICE: u128 = 1;
const BOB: u128 = 2;
const CAROL: u128 = 3;

fn fresh() -> Row {
    Row { requester: ALICE, status: Status::PendingL1, resolved: false, l1: None, l2: None }
}

#[test]
fn happy_path_l1_then_l2() {
    let (outcome, after_l1, actions) = run(Some(fresh()), BOB, Decision::Approved, None);
    assert_eq!(outcome, Ok(()));
    let after_l1 = after_l1.unwrap();
    assert_eq!(after_l1.status, Status::PendingL2);
    assert!(!after_l1.resolved);
    assert_eq!(after_l1.l1, row(BOB, Decision::Approved));
    assert_eq!(actions.len(), 5);
    assert_eq!(
        actions[2],
        DbAction::InsertApproval {
            request_id: 7,
            level: ApprovalLevel::L1,
            decision: Decision::Approved,
            approver_user_id: BOB,
            approver_group: GROUP.to_string(),
            note: Some(NOTE.to_string()),
        }
    );
    assert_eq!(actions[3], DbAction::UpdateStatus { request_id: 7, status: Status::PendingL2, terminal: false });

    let (outcome, after_l2, actions) = run(Some(after_l1), CAROL, Decision::Approved, None);
    assert_eq!(outcome, Ok(()));
    let after_l2 = after_l2.unwrap();
    assert_eq!(after_l2.status, Status::Approved);
    assert!(after_l2.resolved);
    assert_eq!(after_l2.l2, row(CAROL, Decision::Approved));
    assert_eq!(after_l2.l1, row(BOB, Decision::Approved));
    assert_eq!(actions.len(), 6);
    assert_eq!(actions[2], DbAction::FetchL1Approver { request_id: 7 });
}

#[test]
fn rejection_at_l1_is_terminal() {
    let (outcome, after, _) = run(Some(fresh()), BOB, Decision::Rejected, None);
    assert_eq!(outcome, Ok(()));
    let after = after.unwrap();
    assert_eq!(after.status, Status::Rejected);
    assert!(after.resolved);
    let (outcome, again, _) = run(Some(after.clone()), CAROL, Decision::Approved, None);
    assert_eq!(outcome, Err(DecisionError::AlreadyResolved));
    assert_eq!(again, Some(after));
}

#[test]
fn rejection_at_l2() {
    let pending_l2 = Row { status: Status::PendingL2, l1: row(BOB, Decision::Approved), ..fresh() };
    let (outcome, after, _) = run(Some(pending_l2), CAROL, Decision::Rejected, None);
    assert_eq!(outcome, Ok(()));
    let after = after.unwrap();
    assert_eq!(after.status, Status::Rejected);
    assert!(after.resolved);
    assert_eq!(after.l2, row(CAROL, Decision::Rejected));
}

#[test]
fn self_approval_is_blocked() {
    let (outcome, after, actions) = run(Some(fresh()), ALICE, Decision::Approved, None);
    assert_eq!(outcome, Err(DecisionError::SelfApproval));
    assert_eq!(after, Some(fresh()));
    assert_eq!(actions.len(), 2);
    let pending_l2 = Row { status: Status::PendingL2, l1: row(BOB, Decision::Approved), ..fresh() };
    let (outcome, _, _) = run(Some(pending_l2), ALICE, Decision::Rejected, None);
    assert_eq!(outcome, Err(DecisionError::SelfApproval));
}

#[test]
fn l2_approver_cannot_be_l1_approver() {
    let pending_l2 = Row { status: Status::PendingL2, l1: row(BOB, Decision::Approved), ..fresh() };
    let (outcome, after, _) = run(Some(pending_l2.clone()), BOB, Decision::Approved, None);
    assert_eq!(outcome, Err(DecisionError::L2ApproverIsL1Approver));
    assert_eq!(after, Some(pending_l2));
}

#[test]
fn missing_l1_approval_and_missing_request() {
    let broken = Row { status: Status::PendingL2, ..fresh() };
    let (outcome, _, _) = run(Some(broken), CAROL, Decision::Approved, None);
    assert_eq!(outcome, Err(DecisionError::L1ApprovalMissing));
    let (outcome, after, _) = run(None, CAROL, Decision::Approved, None);
    assert_eq!(outcome, Err(DecisionError::RequestNotFound));
    assert_eq!(after, None);
}

#[test]
fn approved_request_takes_no_decision() {
    let approved = Row {
        status: Status::Approved,
        resolved: true,
        l1: row(BOB, Decision::Approved),
        l2: row(CAROL, Decision::Approved),
        ..fresh()
    };
    let (outcome, _, _) = run(Some(approved), 9, Decision::Rejected, None);
    assert_eq!(outcome, Err(DecisionError::AlreadyResolved));
}

#[test]
fn database_failure_at_each_step_commits_nothing() {
    let stages = [
        DbStage::Begin,
        DbStage::LockRequest,
        DbStage::InsertApproval,
        DbStage::UpdateStatus,
        DbStage::Commit,
    ];
    for (i, stage) in stages.iter().enumerate() {
        let (outcome, after, _) = run(Some(fresh()), BOB, Decision::Approved, Some(i));
        assert_eq!(outcome, Err(DecisionError::Database(*stage)));
        assert_eq!(after, Some(fresh()));
    }
    let pending_l2 = Row { status: Status::PendingL2, l1: row(BOB, Decision::Approved), ..fresh() };
    let (outcome, _, _) = run(Some(pending_l2), CAROL, Decision::Approved, Some(2));
    assert_eq!(outcome, Err(DecisionError::Database(DbStage::FetchL1Approver)));
}

#[test]
fn out_of_turn_answer_counts_as_failure() {
    let (mut machine, _) = DecisionRun::start(1, BOB, GROUP.to_string(), None, Decision::Approved);
    match machine.advance(DbEvent::Inserted) {
        DecisionStep::Finish(Err(e)) => assert_eq!(e, DecisionError::Database(DbStage::Begin)),
        other => panic!("unexpected {:?}", other),
    }
    assert_eq!(machine.phase, DecisionPhase::Done);
}

#[test]
fn pending_statuses() {
    assert!(Status::PendingL1.is_pending());
    assert!(Status::PendingL2.is_pending());
    assert!(!Status::Approved.is_pending());
    assert!(!Status::Rejected.is_pending());
}

#[test]
fn occupied_level_fails_the_insert() {
    let stray = Row { l1: row(9, Decision::Approved), ..fresh() };
    let (outcome, after, _) = run(Some(stray.clone()), BOB, Decision::Approved, None);
    assert_eq!(outcome, Err(DecisionError::Database(DbStage::InsertApproval)));
    assert_eq!(after, Some(stray));
}

#[test]
fn rejection_row_keeps_group_and_note() {
    let (outcome, after, _) = run(Some(fresh()), BOB, Decision::Rejected, None);
    assert_eq!(outcome, Ok(()));
    assert_eq!(after.unwrap().l1, row(BOB, Decision::Rejected));
}

#[test]
fn decision_error_texts() {
    assert_eq!(DecisionError::SelfApproval.message(), "self-approval forbidden");
    assert_eq!(DecisionError::AlreadyResolved.message(), "request already resolved");
    assert_eq!(DecisionError::L1ApprovalMissing.message(), "L1 approval missing");
    assert_eq!(DecisionError::L2ApproverIsL1Approver.message(), "L2 approver cannot also be L1 approver");
    assert_eq!(DecisionError::RequestNotFound.message(), "request not found");
    assert_eq!(DecisionError::Database(DbStage::Begin).message(), "begin tx");
    assert_eq!(DecisionError::Database(DbStage::Commit).message(), "commit");
}
