//! Two-level approval of secret-change requests.
//!
//! A request starts at `PendingL1`. A member of the L1 approver group who is
//! not the requester moves it to `PendingL2` (approve) or `Rejected`
//! (reject). A member of the L2 approver group who is neither the requester
//! nor the L1 approver moves it to `Approved` or `Rejected`. Resolved requests
//! take no further decisions.
//!
//! Recording a decision is one database transaction whose queries alternate
//! with decisions. `DecisionRun` holds those decisions: it is fed the answer
//! of each database step and names the next step, until the run finishes.
use vstd::prelude::*;

verus! {

/// Where a request stands on the approval ladder.
#[derive(Clone, Copy, Debug, PartialEq, Eq, Structural)]
pub enum Status {
    PendingL1,
    PendingL2,
    Approved,
    Rejected,
}

/// What an approver decided.
#[derive(Clone, Copy, Debug, PartialEq, Eq, Structural)]
pub enum Decision {
    Approved,
    Rejected,
}

/// The rung of the ladder an approval was recorded at.
#[derive(Clone, Copy, Debug, PartialEq, Eq, Structural)]
pub enum ApprovalLevel {
    L1,
    L2,
}

impl Status {
    /// A request still waits for a decision.
    pub open spec fn pending(self) -> bool {
        self is PendingL1 || self is PendingL2
    }

    pub fn is_pending(&self) -> (r: bool)
        ensures
            r == self.pending(),
    {
        match self {
            Status::PendingL1 => true,
            Status::PendingL2 => true,
            Status::Approved => false,
            Status::Rejected => false,
        }
    }
}


/// What the database holds for a request when the decision transaction locks it.
#[derive(Clone, Copy, Debug, PartialEq, Eq, Structural)]
pub struct LockedRequest {
    pub requester_user_id: u128,
    pub status: Status,
}

/// The database step of a decision transaction.
#[derive(Clone, Copy, Debug, PartialEq, Eq, Structural)]
pub enum DbStage {
    Begin,
    LockRequest,
    FetchL1Approver,
    InsertApproval,
    UpdateStatus,
    Commit,
}

/// Why recording a decision failed. Nothing is committed in any of these cases.
#[derive(Clone, Copy, Debug, PartialEq, Eq, Structural)]
pub enum DecisionError {
    /// The database failed, or answered out of turn, at the given step.
    Database(DbStage),
    /// No request has the given id.
    RequestNotFound,
    /// The approver is the requester.
    SelfApproval,
    /// The request waits for L2 but no L1 approval is on record.
    L1ApprovalMissing,
    /// The L2 approver already decided the request at L1.
    L2ApproverIsL1Approver,
    /// The request is already approved or rejected.
    AlreadyResolved,
}

/// A database step the decision run asks for.
#[derive(Clone, Debug, PartialEq, Eq)]
pub enum DbAction {
    /// Open the transaction.
    Begin,
    /// Lock the request row and read its requester and status.
    LockRequest { request_id: u128 },
    /// Read who recorded the L1 approval of the request.
    FetchL1Approver { request_id: u128 },
    /// Insert the approval row at `level`, with the group the approver acted
    /// for and the approver's note.
    InsertApproval {
        request_id: u128,
        level: ApprovalLevel,
        decision: Decision,
        approver_user_id: u128,
        approver_group: String,
        note: Option<String>,
    },
    /// Set the request's status; `terminal` also sets its resolution time.
    UpdateStatus { request_id: u128, status: Status, terminal: bool },
    /// Commit the transaction.
    Commit,
}

/// The database's answer to the last step.
#[derive(Clone, Copy, Debug, PartialEq, Eq, Structural)]
pub enum DbEvent {
    Begun,
    Locked(Option<LockedRequest>),
    L1Approver(Option<u128>),
    Inserted,
    Updated,
    Committed,
    /// The step failed.
    Failed,
}

/// Which answer the run waits for.
#[derive(Clone, Copy, Debug, PartialEq, Eq, Structural)]
pub enum DecisionPhase {
    Opening,
    Locking,
    CheckingL1,
    Recording { next_on_approve: Status },
    Updating,
    Committing,
    Done,
}

/// What the run does after an answer: ask for a step, or end with an outcome.
#[derive(Debug)]
pub enum DecisionStep {
    Perform(DbAction),
    Finish(Result<(), DecisionError>),
}

/// One recording of `decision` on request `request_id` by
/// `approver_user_id`, acting for `approver_group`, with `note`.
#[derive(Clone, Debug)]
pub struct DecisionRun {
    pub request_id: u128,
    pub approver_user_id: u128,
    pub approver_group: String,
    pub note: Option<String>,
    pub decision: Decision,
    pub phase: DecisionPhase,
}

/// The database step whose answer a phase waits for.
pub open spec fn stage_of(phase: DecisionPhase) -> DbStage {
    match phase {
        DecisionPhase::Opening => DbStage::Begin,
        DecisionPhase::Locking => DbStage::LockRequest,
        DecisionPhase::CheckingL1 => DbStage::FetchL1Approver,
        DecisionPhase::Recording { .. } => DbStage::InsertApproval,
        DecisionPhase::Updating => DbStage::UpdateStatus,
        DecisionPhase::Committing => DbStage::Commit,
        DecisionPhase::Done => DbStage::Commit,
    }
}

/// The status a request takes when `decision` is recorded and an approval
/// would move it to `next_on_approve`.
pub open spec fn status_after(decision: Decision, next_on_approve: Status) -> Status {
    match decision {
        Decision::Approved => next_on_approve,
        Decision::Rejected => Status::Rejected,
    }
}

impl DecisionRun {
    /// The run's transition: the phase it moves to and the step it takes
    /// after `event`. An answer that does not fit the phase counts as a
    /// failure of the awaited step.
    pub open spec fn next(self, event: DbEvent) -> (DecisionPhase, DecisionStep) {
        let fail = (DecisionPhase::Done, DecisionStep::Finish(Err(DecisionError::Database(stage_of(self.phase)))));
        let stop = |e: DecisionError| (DecisionPhase::Done, DecisionStep::Finish(Err(e)));
        match (self.phase, event) {
            (DecisionPhase::Opening, DbEvent::Begun) => (
                DecisionPhase::Locking,
                DecisionStep::Perform(DbAction::LockRequest { request_id: self.request_id }),
            ),
            (DecisionPhase::Locking, DbEvent::Locked(row)) => match row {
                None => stop(DecisionError::RequestNotFound),
                Some(row) => if row.requester_user_id == self.approver_user_id {
                    stop(DecisionError::SelfApproval)
                } else {
                    match row.status {
                        Status::PendingL1 => (
                            DecisionPhase::Recording { next_on_approve: Status::PendingL2 },
                            DecisionStep::Perform(self.insert_action(ApprovalLevel::L1)),
                        ),
                        Status::PendingL2 => (
                            DecisionPhase::CheckingL1,
                            DecisionStep::Perform(DbAction::FetchL1Approver { request_id: self.request_id }),
                        ),
                        _ => stop(DecisionError::AlreadyResolved),
                    }
                },
            },
            (DecisionPhase::CheckingL1, DbEvent::L1Approver(l1)) => match l1 {
                None => stop(DecisionError::L1ApprovalMissing),
                Some(l1) => if l1 == self.approver_user_id {
                    stop(DecisionError::L2ApproverIsL1Approver)
                } else {
                    (
                        DecisionPhase::Recording { next_on_approve: Status::Approved },
                        DecisionStep::Perform(self.insert_action(ApprovalLevel::L2)),
                    )
                },
            },
            (DecisionPhase::Recording { next_on_approve }, DbEvent::Inserted) => {
                let status = status_after(self.decision, next_on_approve);
                (
                    DecisionPhase::Updating,
                    DecisionStep::Perform(DbAction::UpdateStatus {
                        request_id: self.request_id,
                        status,
                        terminal: !status.pending(),
                    }),
                )
            },
            (DecisionPhase::Updating, DbEvent::Updated) => (
                DecisionPhase::Committing,
                DecisionStep::Perform(DbAction::Commit),
            ),
            (DecisionPhase::Committing, DbEvent::Committed) => (
                DecisionPhase::Done,
                DecisionStep::Finish(Ok(())),
            ),
            _ => fail,
        }
    }

    /// The approval row this run inserts at `level`.
    pub open spec fn insert_action(self, level: ApprovalLevel) -> DbAction {
        DbAction::InsertApproval {
            request_id: self.request_id,
            level,
            decision: self.decision,
            approver_user_id: self.approver_user_id,
            approver_group: self.approver_group,
            note: self.note,
        }
    }

    /// Starts recording `decision`; the first step opens the transaction.
    pub fn start(
        request_id: u128,
        approver_user_id: u128,
        approver_group: String,
        note: Option<String>,
        decision: Decision,
    ) -> (r: (DecisionRun, DbAction))
        ensures
            r.0 == (DecisionRun {
                request_id,
                approver_user_id,
                approver_group,
                note,
                decision,
                phase: DecisionPhase::Opening,
            }),
            r.1 == DbAction::Begin,
    {
        (
            DecisionRun { request_id, approver_user_id, approver_group, note, decision, phase: DecisionPhase::Opening },
            DbAction::Begin,
        )
    }

    /// The approval row this run inserts at `level`.
    fn make_insert(&self, level: ApprovalLevel) -> (r: DbAction)
        ensures
            r == self.insert_action(level),
    {
        let note = match &self.note {
            Some(n) => Some(n.clone()),
            None => None,
        };
        DbAction::InsertApproval {
            request_id: self.request_id,
            level,
            decision: self.decision,
            approver_user_id: self.approver_user_id,
            approver_group: self.approver_group.clone(),
            note,
        }
    }

    /// The run has ended.
    pub fn is_done(&self) -> (r: bool)
        ensures
            r == (self.phase is Done),
    {
        match self.phase {
            DecisionPhase::Done => true,
            _ => false,
        }
    }

    /// Feeds the answer to the last step and returns what to do next.
    pub fn advance(&mut self, event: DbEvent) -> (step: DecisionStep)
        requires
            !(old(self).phase is Done),
        ensures
            (final(self).phase, step) == old(self).next(event),
            final(self).request_id == old(self).request_id,
            final(self).approver_user_id == old(self).approver_user_id,
            final(self).decision == old(self).decision,
            final(self).approver_group == old(self).approver_group,
            final(self).note == old(self).note,
            step matches DecisionStep::Finish(Ok(_)) ==> old(self).phase == DecisionPhase::Committing && event
                == DbEvent::Committed,
            step matches DecisionStep::Perform(DbAction::Commit) ==> old(self).phase == DecisionPhase::Updating
                && event == DbEvent::Updated,
            step matches DecisionStep::Perform(DbAction::UpdateStatus { .. }) ==> (old(self).phase is Recording
                && event == DbEvent::Inserted),
    {
        let stage = match self.phase {
            DecisionPhase::Opening => DbStage::Begin,
            DecisionPhase::Locking => DbStage::LockRequest,
            DecisionPhase::CheckingL1 => DbStage::FetchL1Approver,
            DecisionPhase::Recording { .. } => DbStage::InsertApproval,
            DecisionPhase::Updating => DbStage::UpdateStatus,
            DecisionPhase::Committing => DbStage::Commit,
            DecisionPhase::Done => DbStage::Commit,
        };
        let (phase, step) = match (self.phase, event) {
            (DecisionPhase::Opening, DbEvent::Begun) => (
                DecisionPhase::Locking,
                DecisionStep::Perform(DbAction::LockRequest { request_id: self.request_id }),
            ),
            (DecisionPhase::Locking, DbEvent::Locked(row)) => match row {
                None => (DecisionPhase::Done, DecisionStep::Finish(Err(DecisionError::RequestNotFound))),
                Some(row) => if row.requester_user_id == self.approver_user_id {
                    (DecisionPhase::Done, DecisionStep::Finish(Err(DecisionError::SelfApproval)))
                } else {
                    match row.status {
                        Status::PendingL1 => (
                            DecisionPhase::Recording { next_on_approve: Status::PendingL2 },
                            DecisionStep::Perform(self.make_insert(ApprovalLevel::L1)),
                        ),
                        Status::PendingL2 => (
                            DecisionPhase::CheckingL1,
                            DecisionStep::Perform(DbAction::FetchL1Approver { request_id: self.request_id }),
                        ),
                        _ => (DecisionPhase::Done, DecisionStep::Finish(Err(DecisionError::AlreadyResolved))),
                    }
                },
            },
            (DecisionPhase::CheckingL1, DbEvent::L1Approver(l1)) => match l1 {
                None => (DecisionPhase::Done, DecisionStep::Finish(Err(DecisionError::L1ApprovalMissing))),
                Some(l1) => if l1 == self.approver_user_id {
                    (DecisionPhase::Done, DecisionStep::Finish(Err(DecisionError::L2ApproverIsL1Approver)))
                } else {
                    (
                        DecisionPhase::Recording { next_on_approve: Status::Approved },
                        DecisionStep::Perform(self.make_insert(ApprovalLevel::L2)),
                    )
                },
            },
            (DecisionPhase::Recording { next_on_approve }, DbEvent::Inserted) => {
                let status = match self.decision {
                    Decision::Approved => next_on_approve,
                    Decision::Rejected => Status::Rejected,
                };
                let terminal = !status.is_pending();
                (
                    DecisionPhase::Updating,
                    DecisionStep::Perform(DbAction::UpdateStatus { request_id: self.request_id, status, terminal }),
                )
            },
            (DecisionPhase::Updating, DbEvent::Updated) => (
                DecisionPhase::Committing,
                DecisionStep::Perform(DbAction::Commit),
            ),
            (DecisionPhase::Committing, DbEvent::Committed) => (DecisionPhase::Done, DecisionStep::Finish(Ok(()))),
            _ => (DecisionPhase::Done, DecisionStep::Finish(Err(DecisionError::Database(stage)))),
        };
        self.phase = phase;
        step
    }
}


/// An approval row as stored: who decided what, for which group, with which note.
pub struct RecordedApproval {
    pub approver_user_id: u128,
    pub decision: Decision,
    pub approver_group: Seq<char>,
    pub note: Option<Seq<char>>,
}

/// The rows the database holds for one request: the request itself and the
/// approval row recorded at each level.
pub struct StoredRequest {
    pub requester_user_id: u128,
    pub status: Status,
    /// The resolution time is set.
    pub resolved: bool,
    pub l1: Option<RecordedApproval>,
    pub l2: Option<RecordedApproval>,
}

/// The text of an optional note.
pub open spec fn note_text(note: Option<String>) -> Option<Seq<char>> {
    match note {
        Some(n) => Some(n@),
        None => None,
    }
}

/// The rules a request's rows obey at every commit: a request is resolved
/// exactly when it is no longer pending, it carries one approval per level it
/// has passed, the L1 approver is not the requester, and the L2 approver is
/// neither the requester nor the L1 approver.
pub open spec fn ladder_consistent(s: StoredRequest) -> bool {
    &&& s.resolved == !s.status.pending()
    &&& match s.status {
        Status::PendingL1 => s.l1 is None && s.l2 is None,
        Status::PendingL2 => match s.l1 {
            Some(a) => a.decision == Decision::Approved && a.approver_user_id != s.requester_user_id && s.l2 is None,
            None => false,
        },
        Status::Approved => match (s.l1, s.l2) {
            (Some(a), Some(b)) => a.decision == Decision::Approved && b.decision == Decision::Approved
                && a.approver_user_id != s.requester_user_id && b.approver_user_id != s.requester_user_id
                && a.approver_user_id != b.approver_user_id,
            _ => false,
        },
        Status::Rejected => match (s.l1, s.l2) {
            (Some(a), None) => a.decision == Decision::Rejected && a.approver_user_id != s.requester_user_id,
            (Some(a), Some(b)) => a.decision == Decision::Approved && b.decision == Decision::Rejected
                && a.approver_user_id != s.requester_user_id && b.approver_user_id != s.requester_user_id
                && a.approver_user_id != b.approver_user_id,
            _ => false,
        },
    }
}

/// What recording `decision` by `approver`, acting for `group`, with `note`,
/// does to the request `store` (`None`: no such request): the rows after the
/// commit, or the refusal. An approval row already at the level being
/// decided makes the insert fail, as the table's one-row-per-level rule does.
pub open spec fn decision_outcome(
    store: Option<StoredRequest>,
    approver: u128,
    group: Seq<char>,
    note: Option<Seq<char>>,
    decision: Decision,
) -> Result<StoredRequest, DecisionError> {
    let row = RecordedApproval { approver_user_id: approver, decision, approver_group: group, note };
    match store {
        None => Err(DecisionError::RequestNotFound),
        Some(s) => if s.requester_user_id == approver {
            Err(DecisionError::SelfApproval)
        } else {
            match s.status {
                Status::PendingL1 => if s.l1 is Some {
                    Err(DecisionError::Database(DbStage::InsertApproval))
                } else {
                    let status = status_after(decision, Status::PendingL2);
                    Ok(StoredRequest { status, resolved: !status.pending(), l1: Some(row), ..s })
                },
                Status::PendingL2 => match s.l1 {
                    None => Err(DecisionError::L1ApprovalMissing),
                    Some(a) => if a.approver_user_id == approver {
                        Err(DecisionError::L2ApproverIsL1Approver)
                    } else if s.l2 is Some {
                        Err(DecisionError::Database(DbStage::InsertApproval))
                    } else {
                        let status = status_after(decision, Status::Approved);
                        Ok(StoredRequest { status, resolved: true, l2: Some(row), ..s })
                    },
                },
                _ => Err(DecisionError::AlreadyResolved),
            }
        },
    }
}

/// The answer a database holding `store` gives to `action`, when nothing
/// outside the request fails. An approval insert fails where the level
/// already holds a row, or the request does not exist.
pub open spec fn respond(store: Option<StoredRequest>, action: DbAction) -> DbEvent {
    match action {
        DbAction::Begin => DbEvent::Begun,
        DbAction::LockRequest { .. } => DbEvent::Locked(
            match store {
                Some(s) => Some(LockedRequest { requester_user_id: s.requester_user_id, status: s.status }),
                None => None,
            },
        ),
        DbAction::FetchL1Approver { .. } => DbEvent::L1Approver(
            match store {
                Some(s) => match s.l1 {
                    Some(a) => Some(a.approver_user_id),
                    None => None,
                },
                None => None,
            },
        ),
        DbAction::InsertApproval { level, .. } => match store {
            Some(s) => if (level == ApprovalLevel::L1 && s.l1 is Some) || (level == ApprovalLevel::L2
                && s.l2 is Some) {
                DbEvent::Failed
            } else {
                DbEvent::Inserted
            },
            None => DbEvent::Failed,
        },
        DbAction::UpdateStatus { .. } => DbEvent::Updated,
        DbAction::Commit => DbEvent::Committed,
    }
}

/// The rows after `action` is written into the open transaction.
pub open spec fn apply_write(store: Option<StoredRequest>, action: DbAction) -> Option<StoredRequest> {
    match store {
        None => None,
        Some(s) => match action {
            DbAction::InsertApproval { level, decision, approver_user_id, approver_group, note, .. } => {
                let row = RecordedApproval {
                    approver_user_id,
                    decision,
                    approver_group: approver_group@,
                    note: note_text(note),
                };
                match level {
                    ApprovalLevel::L1 => if s.l1 is Some {
                        store
                    } else {
                        Some(StoredRequest { l1: Some(row), ..s })
                    },
                    ApprovalLevel::L2 => if s.l2 is Some {
                        store
                    } else {
                        Some(StoredRequest { l2: Some(row), ..s })
                    },
                }
            },
            DbAction::UpdateStatus { status, terminal, .. } => Some(
                StoredRequest { status, resolved: terminal, ..s },
            ),
            _ => store,
        },
    }
}

/// Drives `run` against a database that answers every step from its rows.
/// `action` is the pending step; `committed` are the rows others see;
/// `staged` are the rows inside the open transaction, if `open`; and the step
/// `fail_at` steps from now fails (none fails when `fail_at` is negative).
/// `Begin` opens a transaction on the committed rows; writes go to the
/// staged rows only; a `Commit` answered `Committed` makes the staged rows
/// the committed ones and closes the transaction; with no transaction open
/// every step but `Begin` fails. Yields the run's outcome and the committed
/// rows when it ends: whatever was not committed is rolled back.
pub open spec fn simulate(
    run: DecisionRun,
    action: DbAction,
    committed: Option<StoredRequest>,
    staged: Option<StoredRequest>,
    open: bool,
    fail_at: int,
    fuel: nat,
) -> (Result<(), DecisionError>, Option<StoredRequest>)
    decreases fuel,
{
    if fuel == 0 {
        (Err(DecisionError::Database(stage_of(run.phase))), committed)
    } else {
        let event = if fail_at == 0 {
            DbEvent::Failed
        } else if action is Begin {
            DbEvent::Begun
        } else if !open {
            DbEvent::Failed
        } else {
            respond(staged, action)
        };
        let (committed_after, staged_after, open_after) = if event is Failed {
            (committed, staged, open)
        } else {
            match action {
                DbAction::Begin => (committed, committed, true),
                DbAction::Commit => (staged, staged, false),
                _ => (committed, apply_write(staged, action), open),
            }
        };
        let (phase, step) = run.next(event);
        match step {
            DecisionStep::Finish(Ok(())) => (Ok(()), committed_after),
            DecisionStep::Finish(Err(e)) => (Err(e), committed_after),
            DecisionStep::Perform(next_action) => simulate(
                DecisionRun { phase, ..run },
                next_action,
                committed_after,
                staged_after,
                open_after,
                fail_at - 1,
                (fuel - 1) as nat,
            ),
        }
    }
}

/// The run that `DecisionRun::start` begins, driven to its end.
pub open spec fn run_from_start(
    store: Option<StoredRequest>,
    request_id: u128,
    approver: u128,
    group: String,
    note: Option<String>,
    decision: Decision,
    fail_at: int,
) -> (Result<(), DecisionError>, Option<StoredRequest>) {
    simulate(
        DecisionRun {
            request_id,
            approver_user_id: approver,
            approver_group: group,
            note,
            decision,
            phase: DecisionPhase::Opening,
        },
        DbAction::Begin,
        store,
        store,
        false,
        fail_at,
        6,
    )
}

/// A decision run started by `DecisionRun::start` against a database that
/// holds `store` and does not fail on its own ends as `decision_outcome`
/// says: on success the committed rows are exactly the outcome's (the
/// request's new status and the one new approval row, with the approver's
/// group and note), on refusal nothing changes.
pub proof fn lemma_run_follows_outcome(
    store: Option<StoredRequest>,
    request_id: u128,
    approver: u128,
    group: String,
    note: Option<String>,
    decision: Decision,
)
    ensures
        run_from_start(store, request_id, approver, group, note, decision, -1) == match decision_outcome(
            store,
            approver,
            group@,
            note_text(note),
            decision,
        ) {
            Ok(after) => (Ok::<(), DecisionError>(()), Some(after)),
            Err(e) => (Err(e), store),
        },
{
    reveal_with_fuel(simulate, 7);
}

/// The order of a decision's last steps: the status update is asked for
/// only once the approval row is in, the commit only once the status update
/// is in, and success only once the commit is in; after the commit nothing
/// more is asked for.
pub proof fn lemma_commit_ends_the_run(run: DecisionRun, event: DbEvent)
    ensures
        run.next(event).1 matches DecisionStep::Finish(Ok(_)) ==> run.phase == DecisionPhase::Committing && event
            == DbEvent::Committed,
        run.next(event).1 matches DecisionStep::Perform(DbAction::Commit) ==> run.phase == DecisionPhase::Updating
            && event == DbEvent::Updated,
        run.next(event).1 matches DecisionStep::Perform(DbAction::UpdateStatus { .. }) ==> (run.phase is Recording
            && event == DbEvent::Inserted),
        run.phase == DecisionPhase::Committing ==> run.next(event).1 is Finish,
{
}

/// A run whose transaction fails at any of its steps commits nothing and
/// ends in an error; a run that fails nowhere never ends for want of steps.
pub proof fn lemma_failed_run_commits_nothing(
    store: Option<StoredRequest>,
    request_id: u128,
    approver: u128,
    group: String,
    note: Option<String>,
    decision: Decision,
    fail_at: int,
)
    ensures
        run_from_start(store, request_id, approver, group, note, decision, fail_at).0 is Err ==> run_from_start(
            store,
            request_id,
            approver,
            group,
            note,
            decision,
            fail_at,
        ).1 == store,
        0 <= fail_at < 5 ==> run_from_start(store, request_id, approver, group, note, decision, fail_at).0 is Err,
{
    reveal_with_fuel(simulate, 7);
}

/// Recording a decision keeps a request's rows consistent.
pub proof fn lemma_decision_keeps_ladder_consistent(
    s: StoredRequest,
    approver: u128,
    group: Seq<char>,
    note: Option<Seq<char>>,
    decision: Decision,
)
    requires
        ladder_consistent(s),
    ensures
        decision_outcome(Some(s), approver, group, note, decision) matches Ok(after) ==> ladder_consistent(after),
{
}

/// The cross-row rules of a request's rows: resolved exactly when no longer
/// pending, the L1 approver is not the requester, and the L2 approver is
/// neither the requester nor the L1 approver.
pub open spec fn cross_row_rules(s: StoredRequest) -> bool {
    &&& s.resolved == !s.status.pending()
    &&& (s.l1 matches Some(a) ==> a.approver_user_id != s.requester_user_id)
    &&& (s.l2 matches Some(b) ==> b.approver_user_id != s.requester_user_id)
    &&& (s.l1 matches Some(a) ==> (s.l2 matches Some(b) ==> a.approver_user_id != b.approver_user_id))
}

/// Recording a decision keeps the cross-row rules, whatever else the rows
/// hold, except on a request still pending at L1 that already carries an L2
/// row: there the new L1 approver may be that row's approver.
pub proof fn lemma_decision_keeps_cross_row_rules(
    s: StoredRequest,
    approver: u128,
    group: Seq<char>,
    note: Option<Seq<char>>,
    decision: Decision,
)
    requires
        cross_row_rules(s),
        !(s.status == Status::PendingL1 && s.l2 is Some),
    ensures
        decision_outcome(Some(s), approver, group, note, decision) matches Ok(after) ==> cross_row_rules(after),
{
}

/// No one approves a request they made, nobody decides both levels of one
/// request, resolved requests take no decision, and a rejection resolves the
/// request.
pub proof fn lemma_approver_rules(
    s: StoredRequest,
    approver: u128,
    group: Seq<char>,
    note: Option<Seq<char>>,
    decision: Decision,
)
    ensures
        s.requester_user_id == approver ==> decision_outcome(Some(s), approver, group, note, decision)
            == Err::<StoredRequest, DecisionError>(DecisionError::SelfApproval),
        !s.status.pending() && s.requester_user_id != approver ==> decision_outcome(
            Some(s),
            approver,
            group,
            note,
            decision,
        ) == Err::<StoredRequest, DecisionError>(DecisionError::AlreadyResolved),
        (s.status == Status::PendingL2 && (s.l1 matches Some(a) && a.approver_user_id == approver))
            ==> decision_outcome(Some(s), approver, group, note, decision) is Err,
        decision == Decision::Rejected ==> (decision_outcome(Some(s), approver, group, note, decision) matches Ok(
            after,
        ) ==> after.status == Status::Rejected && after.resolved),
{
}

/// The rung a status stands on: pending L1, pending L2, resolved.
pub open spec fn rung(s: Status) -> int {
    match s {
        Status::PendingL1 => 0,
        Status::PendingL2 => 1,
        Status::Approved => 2,
        Status::Rejected => 2,
    }
}

/// A recorded decision moves a request one or two rungs up and never back:
/// approvals climb one rung, a rejection resolves the request at once.
pub proof fn lemma_status_moves_forward(
    s: StoredRequest,
    approver: u128,
    group: Seq<char>,
    note: Option<Seq<char>>,
    decision: Decision,
)
    requires
        ladder_consistent(s),
    ensures
        decision_outcome(Some(s), approver, group, note, decision) matches Ok(after) ==> {
            &&& rung(after.status) > rung(s.status)
            &&& (decision == Decision::Approved ==> rung(after.status) == rung(s.status) + 1)
        },
{
}

/// A recorded decision appends exactly one approval row, at the level the
/// request was pending at, holding the approver, the decision, the group and
/// the note; the requester and any earlier row are untouched.
pub proof fn lemma_one_row_appended(
    s: StoredRequest,
    approver: u128,
    group: Seq<char>,
    note: Option<Seq<char>>,
    decision: Decision,
)
    ensures
        decision_outcome(Some(s), approver, group, note, decision) matches Ok(after) ==> {
            let row = RecordedApproval { approver_user_id: approver, decision, approver_group: group, note };
            &&& after.requester_user_id == s.requester_user_id
            &&& s.status == Status::PendingL1 ==> s.l1 is None && after.l1 == Some(row) && after.l2 == s.l2
            &&& s.status == Status::PendingL2 ==> s.l2 is None && after.l2 == Some(row) && after.l1 == s.l1
            &&& s.status == Status::PendingL1 || s.status == Status::PendingL2
        },
{
}

/// The text that reports a failed decision: the step for a database
/// failure, the rule for a refusal.
pub open spec fn decision_error_text(e: DecisionError) -> Seq<char> {
    match e {
        DecisionError::Database(DbStage::Begin) => "begin tx"@,
        DecisionError::Database(DbStage::LockRequest) => "lock request"@,
        DecisionError::Database(DbStage::FetchL1Approver) => "fetch L1 approver"@,
        DecisionError::Database(DbStage::InsertApproval) => "insert approval"@,
        DecisionError::Database(DbStage::UpdateStatus) => "update status"@,
        DecisionError::Database(DbStage::Commit) => "commit"@,
        DecisionError::RequestNotFound => "request not found"@,
        DecisionError::SelfApproval => "self-approval forbidden"@,
        DecisionError::L1ApprovalMissing => "L1 approval missing"@,
        DecisionError::L2ApproverIsL1Approver => "L2 approver cannot also be L1 approver"@,
        DecisionError::AlreadyResolved => "request already resolved"@,
    }
}

impl DecisionError {
    /// The text that reports this error.
    pub fn message(&self) -> (r: String)
        ensures
            r@ == decision_error_text(*self),
    {
        match self {
            DecisionError::Database(DbStage::Begin) => String::from_str("begin tx"),
            DecisionError::Database(DbStage::LockRequest) => String::from_str("lock request"),
            DecisionError::Database(DbStage::FetchL1Approver) => String::from_str("fetch L1 approver"),
            DecisionError::Database(DbStage::InsertApproval) => String::from_str("insert approval"),
            DecisionError::Database(DbStage::UpdateStatus) => String::from_str("update status"),
            DecisionError::Database(DbStage::Commit) => String::from_str("commit"),
            DecisionError::RequestNotFound => String::from_str("request not found"),
            DecisionError::SelfApproval => String::from_str("self-approval forbidden"),
            DecisionError::L1ApprovalMissing => String::from_str("L1 approval missing"),
            DecisionError::L2ApproverIsL1Approver => String::from_str("L2 approver cannot also be L1 approver"),
            DecisionError::AlreadyResolved => String::from_str("request already resolved"),
        }
    }
}

} // verus!
