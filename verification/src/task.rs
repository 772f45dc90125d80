//! Migration tasks: a finite-state lifecycle with progress tracking.
//!
//! The transition table is the contract: every lifecycle method states
//! exactly which states it accepts, what the task looks like afterwards, and
//! that a disallowed operation reports `InvalidTransition` and leaves the
//! task untouched. Instants are carried as milliseconds, supplied by the
//! caller's clock.

use vstd::prelude::*;
use vstd::string::StringExecFns;
use crate::errors::MigrationError;
use crate::ident::new_uuid_string;
use crate::string_map::ExactClone;
use crate::strategy::MigrationStrategyEnum;

verus! {

/// The lifecycle states of a task. `Completed` and `Canceled` are terminal;
/// `Failed` can be retried.
#[derive(Clone, Copy, Debug, PartialEq, Eq, Structural)]
pub enum TaskStatus {
    Created,
    Running,
    Paused,
    Completed,
    Failed,
    Canceled,
}

/// The operations of the transition table.
#[derive(Clone, Copy, Debug, PartialEq, Eq, Structural)]
pub enum TaskOperation {
    Start,
    Pause,
    Cancel,
    Complete,
    Fail,
    Retry,
}

/// The transition table: from which states each operation is allowed.
pub open spec fn transition_allowed(s: TaskStatus, op: TaskOperation) -> bool {
    match op {
        TaskOperation::Start => s is Created || s is Paused || s is Failed,
        TaskOperation::Pause => s is Running,
        TaskOperation::Cancel => !(s is Completed || s is Canceled),
        TaskOperation::Complete => s is Running,
        TaskOperation::Fail => !(s is Completed || s is Canceled),
        TaskOperation::Retry => true,
    }
}

/// The display name of a state.
pub open spec fn spec_status_name(s: TaskStatus) -> Seq<char> {
    match s {
        TaskStatus::Created => "Created"@,
        TaskStatus::Running => "Running"@,
        TaskStatus::Paused => "Paused"@,
        TaskStatus::Completed => "Completed"@,
        TaskStatus::Failed => "Failed"@,
        TaskStatus::Canceled => "Canceled"@,
    }
}

/// The verb used in rejection messages for each operation.
pub open spec fn spec_operation_name(op: TaskOperation) -> Seq<char> {
    match op {
        TaskOperation::Start => "start"@,
        TaskOperation::Pause => "pause"@,
        TaskOperation::Cancel => "cancel"@,
        TaskOperation::Complete => "complete"@,
        TaskOperation::Fail => "fail"@,
        TaskOperation::Retry => "retry"@,
    }
}

/// The message reported when `op` is attempted from state `s`.
pub open spec fn spec_cannot_message(op: TaskOperation, s: TaskStatus) -> Seq<char> {
    "Cannot "@ + spec_operation_name(op) + " task in "@ + spec_status_name(s) + " status"@
}

/// How a lifecycle method answers an operation the transition table
/// disallows: `InvalidTransition` naming the current state, the task as it
/// was.
pub open spec fn rejects_when_disallowed(
    op: TaskOperation,
    before: MigrationTask,
    after: MigrationTask,
    r: Result<(), MigrationError>,
) -> bool {
    !transition_allowed(before.status, op) ==> after == before && (r matches Err(e)
        && e matches MigrationError::InvalidTransition(m) && m@ == spec_cannot_message(
        op,
        before.status,
    ))
}

/// Law: for every (state, operation) pair outside the transition table, a
/// lifecycle method that meets its contract fails with `InvalidTransition`
/// carrying the current state name, and the task is exactly as it was.
pub proof fn lemma_disallowed_operation_rejected(
    op: TaskOperation,
    before: MigrationTask,
    after: MigrationTask,
    r: Result<(), MigrationError>,
)
    requires
        rejects_when_disallowed(op, before, after, r),
        !transition_allowed(before.status, op),
    ensures
        after == before,
        r matches Err(e) && e matches MigrationError::InvalidTransition(m) && m@
            == spec_cannot_message(op, before.status),
{
}

fn status_name_str(s: TaskStatus) -> (r: &'static str)
    ensures
        r@ == spec_status_name(s),
{
    match s {
        TaskStatus::Created => "Created",
        TaskStatus::Running => "Running",
        TaskStatus::Paused => "Paused",
        TaskStatus::Completed => "Completed",
        TaskStatus::Failed => "Failed",
        TaskStatus::Canceled => "Canceled",
    }
}

fn cannot_message(op: TaskOperation, s: TaskStatus) -> (r: String)
    ensures
        r@ == spec_cannot_message(op, s),
{
    let verb = match op {
        TaskOperation::Start => "start",
        TaskOperation::Pause => "pause",
        TaskOperation::Cancel => "cancel",
        TaskOperation::Complete => "complete",
        TaskOperation::Fail => "fail",
        TaskOperation::Retry => "retry",
    };
    let mut m = String::from_str("Cannot ");
    m.append(verb);
    m.append(" task in ");
    m.append(status_name_str(s));
    m.append(" status");
    m
}

/// Progress of one task: a completed-item counter, an optional total, a
/// free-text label, and millisecond instants for the start of the run and
/// the latest update.
pub struct TaskProgress {
    pub completed_items: u64,
    pub total_items: Option<u64>,
    pub current_operation: String,
    pub start_ms: u64,
    pub last_update_ms: u64,
}

/// The integer percentage derived from a progress value: defined only when
/// the total is known and positive, and capped at `u64::MAX`.
pub open spec fn spec_percentage(p: TaskProgress) -> Option<u64> {
    match p.total_items {
        Some(t) => if t > 0 {
            if p.completed_items * 100 / (t as int) > u64::MAX {
                Some(u64::MAX)
            } else {
                Some((p.completed_items * 100 / (t as int)) as u64)
            }
        } else {
            None
        },
        None => None,
    }
}

impl TaskProgress {
    /// Fresh progress at instant `now_ms`.
    pub fn new(now_ms: u64) -> (p: Self)
        ensures
            p.completed_items == 0,
            p.total_items is None,
            p.current_operation@ == "Initializing"@,
            p.start_ms == now_ms,
            p.last_update_ms == now_ms,
    {
        TaskProgress {
            completed_items: 0,
            total_items: None,
            current_operation: String::from_str("Initializing"),
            start_ms: now_ms,
            last_update_ms: now_ms,
        }
    }

    /// Record new progress at instant `now_ms`.
    pub fn update(&mut self, completed_items: u64, current_operation: String, now_ms: u64)
        ensures
            final(self).completed_items == completed_items,
            final(self).current_operation == current_operation,
            final(self).last_update_ms == now_ms,
            final(self).total_items == old(self).total_items,
            final(self).start_ms == old(self).start_ms,
    {
        self.completed_items = completed_items;
        self.current_operation = current_operation;
        self.last_update_ms = now_ms;
    }

    /// Record how many items the run will transfer in all.
    pub fn set_total_items(&mut self, total_items: u64)
        ensures
            final(self).total_items == Some(total_items),
            final(self).completed_items == old(self).completed_items,
            final(self).current_operation == old(self).current_operation,
            final(self).start_ms == old(self).start_ms,
            final(self).last_update_ms == old(self).last_update_ms,
    {
        self.total_items = Some(total_items);
    }

    /// The completed percentage, defined only when the total is known and
    /// positive.
    pub fn get_percentage(&self) -> (r: Option<u64>)
        ensures
            r == spec_percentage(*self),
    {
        match self.total_items {
            Some(t) => {
                if t > 0 {
                    let v: u128 = (self.completed_items as u128) * 100 / (t as u128);
                    if v > u64::MAX as u128 {
                        Some(u64::MAX)
                    } else {
                        Some(v as u64)
                    }
                } else {
                    None
                }
            },
            None => None,
        }
    }

    /// Milliseconds between the start of the run and the latest update,
    /// never negative.
    pub fn get_duration(&self) -> (r: u64)
        ensures
            r == if self.last_update_ms >= self.start_ms {
                self.last_update_ms - self.start_ms
            } else {
                0
            },
    {
        if self.last_update_ms >= self.start_ms {
            self.last_update_ms - self.start_ms
        } else {
            0
        }
    }
}

impl ExactClone for TaskProgress {
    fn exact_clone(&self) -> (r: Self) {
        TaskProgress {
            completed_items: self.completed_items,
            total_items: self.total_items,
            current_operation: self.current_operation.clone(),
            start_ms: self.start_ms,
            last_update_ms: self.last_update_ms,
        }
    }
}

/// A migration task: two connection ids, one strategy, a lifecycle state,
/// progress, and millisecond timestamps.
pub struct MigrationTask {
    pub id: String,
    pub name: String,
    pub description: String,
    pub source_db_id: String,
    pub target_db_id: String,
    pub strategy: MigrationStrategyEnum,
    pub status: TaskStatus,
    pub progress: TaskProgress,
    pub error: Option<String>,
    pub created_at: u64,
    pub updated_at: u64,
    pub started_at: Option<u64>,
    pub completed_at: Option<u64>,
}

/// The fields no lifecycle operation may touch.
pub open spec fn same_task_identity(a: MigrationTask, b: MigrationTask) -> bool {
    &&& a.id == b.id
    &&& a.name == b.name
    &&& a.description == b.description
    &&& a.source_db_id == b.source_db_id
    &&& a.target_db_id == b.target_db_id
    &&& a.strategy == b.strategy
    &&& a.created_at == b.created_at
}

/// What a successful `start` at instant `now` makes of a task.
pub open spec fn spec_started_from(t0: MigrationTask, t1: MigrationTask, now: u64) -> bool {
    &&& same_task_identity(t1, t0)
    &&& t1.status is Running
    &&& t1.started_at == (if t0.started_at is Some {
        t0.started_at
    } else {
        Some(now)
    })
    &&& t1.updated_at == now
    &&& t1.progress.completed_items == 0
    &&& t1.progress.current_operation@ == "Starting migration"@
    &&& t1.progress.last_update_ms == now
    &&& t1.progress.total_items == t0.progress.total_items
    &&& t1.progress.start_ms == t0.progress.start_ms
    &&& t1.error == t0.error
    &&& t1.completed_at == t0.completed_at
}

/// What a successful `pause` at instant `now` makes of a task.
pub open spec fn spec_paused_from(t0: MigrationTask, t1: MigrationTask, now: u64) -> bool {
    &&& same_task_identity(t1, t0)
    &&& t1.status is Paused
    &&& t1.updated_at == now
    &&& t1.progress.completed_items == t0.progress.completed_items
    &&& t1.progress.current_operation@ == "Migration paused"@
    &&& t1.progress.last_update_ms == now
    &&& t1.progress.total_items == t0.progress.total_items
    &&& t1.progress.start_ms == t0.progress.start_ms
    &&& t1.error == t0.error
    &&& t1.started_at == t0.started_at
    &&& t1.completed_at == t0.completed_at
}

/// What a successful `cancel` at instant `now` makes of a task.
pub open spec fn spec_canceled_from(t0: MigrationTask, t1: MigrationTask, now: u64) -> bool {
    &&& same_task_identity(t1, t0)
    &&& t1.status is Canceled
    &&& t1.updated_at == now
    &&& t1.progress.completed_items == t0.progress.completed_items
    &&& t1.progress.current_operation@ == "Migration canceled"@
    &&& t1.progress.last_update_ms == now
    &&& t1.progress.total_items == t0.progress.total_items
    &&& t1.progress.start_ms == t0.progress.start_ms
    &&& t1.error == t0.error
    &&& t1.started_at == t0.started_at
    &&& t1.completed_at == t0.completed_at
}

/// What a successful `complete` at instant `now` makes of a task.
pub open spec fn spec_completed_from(t0: MigrationTask, t1: MigrationTask, now: u64) -> bool {
    &&& same_task_identity(t1, t0)
    &&& t1.status is Completed
    &&& t1.updated_at == now
    &&& t1.completed_at == Some(now)
    &&& t1.progress.completed_items == t0.progress.completed_items
    &&& t1.progress.current_operation@ == "Migration completed"@
    &&& t1.progress.last_update_ms == now
    &&& t1.progress.total_items == t0.progress.total_items
    &&& t1.progress.start_ms == t0.progress.start_ms
    &&& t1.error == t0.error
    &&& t1.started_at == t0.started_at
}

/// What a successful `fail` at instant `now` makes of a task; `error` is the
/// message recorded.
pub open spec fn spec_failed_from(
    t0: MigrationTask,
    t1: MigrationTask,
    error: Seq<char>,
    now: u64,
) -> bool {
    &&& same_task_identity(t1, t0)
    &&& t1.status is Failed
    &&& (t1.error matches Some(m) && m@ == error)
    &&& t1.updated_at == now
    &&& t1.progress.completed_items == t0.progress.completed_items
    &&& t1.progress.current_operation@ == "Migration failed"@
    &&& t1.progress.last_update_ms == now
    &&& t1.progress.total_items == t0.progress.total_items
    &&& t1.progress.start_ms == t0.progress.start_ms
    &&& t1.started_at == t0.started_at
    &&& t1.completed_at == t0.completed_at
}

/// What a retry at instant `now` makes of a task: a fresh `Created` cycle,
/// immediately re-entered through `start`.
pub open spec fn spec_retried_from(t0: MigrationTask, t1: MigrationTask, now: u64) -> bool {
    &&& same_task_identity(t1, t0)
    &&& t1.status is Running
    &&& t1.error is None
    &&& t1.progress.completed_items == 0
    &&& t1.progress.current_operation@ == "Starting migration"@
    &&& t1.progress.total_items is None
    &&& t1.progress.start_ms == now
    &&& t1.progress.last_update_ms == now
    &&& t1.started_at == Some(now)
    &&& t1.completed_at is None
    &&& t1.updated_at == now
}

impl MigrationTask {
    /// A fresh task in state `Created`, with a generated id.
    pub fn new(
        name: String,
        description: String,
        source_db_id: String,
        target_db_id: String,
        strategy: MigrationStrategyEnum,
        now_ms: u64,
    ) -> (t: Self)
        ensures
            t.id@.len() == 36,
            t.name == name,
            t.description == description,
            t.source_db_id == source_db_id,
            t.target_db_id == target_db_id,
            t.strategy == strategy,
            t.status == TaskStatus::Created,
            t.progress.completed_items == 0,
            t.progress.total_items is None,
            t.progress.current_operation@ == "Initializing"@,
            t.progress.start_ms == now_ms,
            t.progress.last_update_ms == now_ms,
            t.error is None,
            t.created_at == now_ms,
            t.updated_at == now_ms,
            t.started_at is None,
            t.completed_at is None,
    {
        MigrationTask {
            id: new_uuid_string(),
            name,
            description,
            source_db_id,
            target_db_id,
            strategy,
            status: TaskStatus::Created,
            progress: TaskProgress::new(now_ms),
            error: None,
            created_at: now_ms,
            updated_at: now_ms,
            started_at: None,
            completed_at: None,
        }
    }

    /// Enter `Running` from `Created`, `Paused` or `Failed`; set `started_at`
    /// once per run cycle and reset the progress counter and label.
    pub fn start(&mut self, now_ms: u64) -> (r: Result<(), MigrationError>)
        ensures
            r is Ok <==> transition_allowed(old(self).status, TaskOperation::Start),
            rejects_when_disallowed(TaskOperation::Start, *old(self), *final(self), r),
            r is Ok ==> spec_started_from(*old(self), *final(self), now_ms),
    {
        if !(matches!(self.status, TaskStatus::Created | TaskStatus::Paused | TaskStatus::Failed)) {
            return Err(MigrationError::InvalidTransition(
                cannot_message(TaskOperation::Start, self.status),
            ));
        }
        self.status = TaskStatus::Running;
        if self.started_at.is_none() {
            self.started_at = Some(now_ms);
        }
        self.updated_at = now_ms;
        self.progress.update(0, String::from_str("Starting migration"), now_ms);
        Ok(())
    }

    /// Enter `Paused` from `Running`.
    pub fn pause(&mut self, now_ms: u64) -> (r: Result<(), MigrationError>)
        ensures
            r is Ok <==> transition_allowed(old(self).status, TaskOperation::Pause),
            rejects_when_disallowed(TaskOperation::Pause, *old(self), *final(self), r),
            r is Ok ==> spec_paused_from(*old(self), *final(self), now_ms),
    {
        if !(matches!(self.status, TaskStatus::Running)) {
            return Err(MigrationError::InvalidTransition(
                cannot_message(TaskOperation::Pause, self.status),
            ));
        }
        self.status = TaskStatus::Paused;
        self.updated_at = now_ms;
        let completed = self.progress.completed_items;
        self.progress.update(completed, String::from_str("Migration paused"), now_ms);
        Ok(())
    }

    /// Enter `Canceled` from any state but `Completed` and `Canceled`.
    pub fn cancel(&mut self, now_ms: u64) -> (r: Result<(), MigrationError>)
        ensures
            r is Ok <==> transition_allowed(old(self).status, TaskOperation::Cancel),
            rejects_when_disallowed(TaskOperation::Cancel, *old(self), *final(self), r),
            r is Ok ==> spec_canceled_from(*old(self), *final(self), now_ms),
    {
        if matches!(self.status, TaskStatus::Completed | TaskStatus::Canceled) {
            return Err(MigrationError::InvalidTransition(
                cannot_message(TaskOperation::Cancel, self.status),
            ));
        }
        self.status = TaskStatus::Canceled;
        self.updated_at = now_ms;
        let completed = self.progress.completed_items;
        self.progress.update(completed, String::from_str("Migration canceled"), now_ms);
        Ok(())
    }

    /// Enter `Completed` from `Running`; the only operation that sets
    /// `completed_at`.
    pub fn complete(&mut self, now_ms: u64) -> (r: Result<(), MigrationError>)
        ensures
            r is Ok <==> transition_allowed(old(self).status, TaskOperation::Complete),
            rejects_when_disallowed(TaskOperation::Complete, *old(self), *final(self), r),
            r is Ok ==> spec_completed_from(*old(self), *final(self), now_ms),
    {
        if !(matches!(self.status, TaskStatus::Running)) {
            return Err(MigrationError::InvalidTransition(
                cannot_message(TaskOperation::Complete, self.status),
            ));
        }
        self.status = TaskStatus::Completed;
        self.updated_at = now_ms;
        self.completed_at = Some(now_ms);
        let completed = self.progress.completed_items;
        self.progress.update(completed, String::from_str("Migration completed"), now_ms);
        Ok(())
    }

    /// Enter `Failed` from any state but `Completed` and `Canceled`; the only
    /// operation that sets `error`.
    pub fn fail(&mut self, error: String, now_ms: u64) -> (r: Result<(), MigrationError>)
        ensures
            r is Ok <==> transition_allowed(old(self).status, TaskOperation::Fail),
            rejects_when_disallowed(TaskOperation::Fail, *old(self), *final(self), r),
            r is Ok ==> final(self).error == Some(error),
            r is Ok ==> spec_failed_from(*old(self), *final(self), error@, now_ms),
    {
        if matches!(self.status, TaskStatus::Completed | TaskStatus::Canceled) {
            return Err(MigrationError::InvalidTransition(
                cannot_message(TaskOperation::Fail, self.status),
            ));
        }
        self.status = TaskStatus::Failed;
        self.error = Some(error);
        self.updated_at = now_ms;
        let completed = self.progress.completed_items;
        self.progress.update(completed, String::from_str("Migration failed"), now_ms);
        Ok(())
    }

    /// The display name of the task's current state.
    pub fn status_to_string(&self) -> (r: String)
        ensures
            r@ == spec_status_name(self.status),
    {
        status_name_str(self.status).to_owned()
    }
}

impl ExactClone for MigrationTask {
    fn exact_clone(&self) -> (r: Self) {
        MigrationTask {
            id: self.id.clone(),
            name: self.name.clone(),
            description: self.description.clone(),
            source_db_id: self.source_db_id.clone(),
            target_db_id: self.target_db_id.clone(),
            strategy: self.strategy.exact_clone(),
            status: self.status,
            progress: self.progress.exact_clone(),
            error: match &self.error {
                Some(e) => Some(e.clone()),
                None => None,
            },
            created_at: self.created_at,
            updated_at: self.updated_at,
            started_at: self.started_at,
            completed_at: self.completed_at,
        }
    }
}

} // verus!
