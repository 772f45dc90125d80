//! The pipeline: the table of migration tasks and the operations that drive
//! them through their lifecycle.
//!
//! The synchronous transitions live here; the application schedules the
//! background execution unit that calls `execute_task` after a successful
//! `start_task`, and polls `get_task` to observe its outcome. The connection
//! registry is handed in by reference where an operation needs it, so the
//! task table and the registry can be guarded independently.

use vstd::prelude::*;
use vstd::string::StringExecFns;
use crate::connection::UnifiedConnectionManager;
use crate::errors::MigrationError;
use crate::strategy::{execute_result_matches, spec_execute_error_message};
use crate::string_map::{is_value_of, ExactClone, StringMap};
use crate::task::{
    spec_canceled_from, spec_completed_from, spec_failed_from, spec_paused_from,
    spec_retried_from, spec_started_from, spec_cannot_message, transition_allowed, MigrationTask,
    TaskOperation, TaskProgress, TaskStatus,
};

verus! {

fn task_not_found(id: &str) -> (r: MigrationError)
    ensures
        r matches MigrationError::ConnectionNotFound(m) && m@ == "Task not found: "@ + id@,
{
    let mut m = String::from_str("Task not found: ");
    m.append(id);
    MigrationError::ConnectionNotFound(m)
}

/// The table of migration tasks, keyed by task id.
pub struct MigrationPipeline {
    tasks: StringMap<MigrationTask>,
}

impl View for MigrationPipeline {
    type V = Map<Seq<char>, MigrationTask>;

    closed spec fn view(&self) -> Map<Seq<char>, MigrationTask> {
        self.tasks@
    }
}

impl MigrationPipeline {
    #[verifier::type_invariant]
    spec fn wf(&self) -> bool {
        forall|k: Seq<char>| #[trigger] self.tasks@.contains_key(k) ==> self.tasks@[k].id@ == k
    }

    /// An empty pipeline.
    pub fn new() -> (p: Self)
        ensures
            p@ == Map::<Seq<char>, MigrationTask>::empty(),
    {
        MigrationPipeline { tasks: StringMap::new() }
    }

    /// Store `task` under its own id, replacing any task already stored
    /// there, and hand the id back.
    pub fn add_task(&mut self, task: MigrationTask) -> (r: String)
        ensures
            r@ == task.id@,
            final(self)@ == old(self)@.insert(task.id@, task),
    {
        proof {
            use_type_invariant(&*self);
        }
        let id = task.id.clone();
        let mut tasks = StringMap::new();
        core::mem::swap(&mut tasks, &mut self.tasks);
        tasks.insert(task.id.clone(), task);
        core::mem::swap(&mut tasks, &mut self.tasks);
        id
    }

    /// A snapshot of the task under `id`.
    pub fn get_task(&self, id: &str) -> (r: Option<MigrationTask>)
        ensures
            match r {
                Some(t) => self@.contains_key(id@) && t == self@[id@],
                None => !self@.contains_key(id@),
            },
    {
        let key = id.to_owned();
        match self.tasks.get(&key) {
            Some(t) => Some(t.exact_clone()),
            None => None,
        }
    }

    /// Snapshots of all tasks, one for each entry of the table.
    pub fn get_all_tasks(&self) -> (r: Vec<MigrationTask>)
        ensures
            r@.len() == self@.dom().len(),
            forall|i: int|
                #![trigger r@[i]]
                0 <= i < r@.len() ==> self@.contains_key(r@[i].id@) && self@[r@[i].id@] == r@[i],
            forall|k: Seq<char>|
                self@.contains_key(k) ==> exists|i: int| 0 <= i < r@.len() && #[trigger] r@[i].id@
                    == k,
    {
        proof {
            use_type_invariant(&*self);
        }
        let r = self.tasks.values_cloned();
        proof {
            assert forall|i: int| #![trigger r@[i]] 0 <= i < r@.len() implies self@.contains_key(
                r@[i].id@,
            ) && self@[r@[i].id@] == r@[i] by {
                assert(is_value_of(self.tasks@, r@[i]));
                let k = choose|k: Seq<char>| #[trigger]
                    self.tasks@.contains_key(k) && self.tasks@[k] == r@[i];
                assert(self.tasks@[k].id@ == k);
            }
            assert forall|k: Seq<char>| self@.contains_key(k) implies exists|i: int|
                0 <= i < r@.len() && #[trigger] r@[i].id@ == k by {
                let i = choose|i: int| 0 <= i < r@.len() && #[trigger] r@[i] == self.tasks@[k];
                assert(r@[i].id@ == k);
            }
        }
        r
    }

    /// Replace the stored task that shares `task`'s id; a task id the table
    /// does not know is reported, and the table left as it was.
    pub fn update_task(&mut self, task: MigrationTask) -> (r: Result<(), MigrationError>)
        ensures
            r is Ok <==> old(self)@.contains_key(task.id@),
            r is Ok ==> final(self)@ == old(self)@.insert(task.id@, task),
            r matches Err(e) ==> final(self)@ == old(self)@ && (e
                matches MigrationError::ConnectionNotFound(m) && m@ == "Task not found: "@
                + task.id@),
    {
        proof {
            use_type_invariant(&*self);
        }
        if !self.tasks.contains_key(&task.id) {
            return Err(task_not_found(task.id.as_str()));
        }
        let mut tasks = StringMap::new();
        core::mem::swap(&mut tasks, &mut self.tasks);
        tasks.insert(task.id.clone(), task);
        core::mem::swap(&mut tasks, &mut self.tasks);
        Ok(())
    }

    /// Start the task under `id`: the synchronous transition to `Running`.
    /// The caller then schedules the execution unit that performs
    /// `execute_task`.
    pub fn start_task(&mut self, id: &str, now_ms: u64) -> (r: Result<(), MigrationError>)
        ensures
            r is Ok <==> old(self)@.contains_key(id@) && transition_allowed(
                old(self)@[id@].status,
                TaskOperation::Start,
            ),
            r is Ok ==> final(self)@ == old(self)@.insert(id@, final(self)@[id@])
                && spec_started_from(old(self)@[id@], final(self)@[id@], now_ms),
            r is Err ==> final(self)@ == old(self)@,
            !old(self)@.contains_key(id@) ==> (r matches Err(e) && (e
                matches MigrationError::ConnectionNotFound(m) && m@ == "Task not found: "@ + id@)),
            old(self)@.contains_key(id@) && !transition_allowed(
                old(self)@[id@].status,
                TaskOperation::Start,
            ) ==> (r matches Err(e) && (e matches MigrationError::InvalidTransition(m) && m@
                == spec_cannot_message(TaskOperation::Start, old(self)@[id@].status))),
    {
        proof {
            use_type_invariant(&*self);
        }
        let mut task = match self.get_task(id) {
            Some(t) => t,
            None => {
                return Err(task_not_found(id));
            },
        };
        match task.start(now_ms) {
            Ok(_) => (),
            Err(e) => {
                return Err(e);
            },
        }
        match self.update_task(task) {
            Ok(_) => (),
            Err(e) => {
                return Err(e);
            },
        }
        Ok(())
    }

    /// Pause the task under `id`.
    pub fn pause_task(&mut self, id: &str, now_ms: u64) -> (r: Result<(), MigrationError>)
        ensures
            r is Ok <==> old(self)@.contains_key(id@) && transition_allowed(
                old(self)@[id@].status,
                TaskOperation::Pause,
            ),
            r is Ok ==> final(self)@ == old(self)@.insert(id@, final(self)@[id@])
                && spec_paused_from(old(self)@[id@], final(self)@[id@], now_ms),
            r is Err ==> final(self)@ == old(self)@,
            !old(self)@.contains_key(id@) ==> (r matches Err(e) && (e
                matches MigrationError::ConnectionNotFound(m) && m@ == "Task not found: "@ + id@)),
            old(self)@.contains_key(id@) && !transition_allowed(
                old(self)@[id@].status,
                TaskOperation::Pause,
            ) ==> (r matches Err(e) && (e matches MigrationError::InvalidTransition(m) && m@
                == spec_cannot_message(TaskOperation::Pause, old(self)@[id@].status))),
    {
        proof {
            use_type_invariant(&*self);
        }
        let mut task = match self.get_task(id) {
            Some(t) => t,
            None => {
                return Err(task_not_found(id));
            },
        };
        match task.pause(now_ms) {
            Ok(_) => (),
            Err(e) => {
                return Err(e);
            },
        }
        match self.update_task(task) {
            Ok(_) => (),
            Err(e) => {
                return Err(e);
            },
        }
        Ok(())
    }

    /// Cancel the task under `id`. The report is immediate even though a
    /// background unit may still be running; its late write is rejected by
    /// the transition table.
    pub fn cancel_task(&mut self, id: &str, now_ms: u64) -> (r: Result<(), MigrationError>)
        ensures
            r is Ok <==> old(self)@.contains_key(id@) && transition_allowed(
                old(self)@[id@].status,
                TaskOperation::Cancel,
            ),
            r is Ok ==> final(self)@ == old(self)@.insert(id@, final(self)@[id@])
                && spec_canceled_from(old(self)@[id@], final(self)@[id@], now_ms),
            r is Err ==> final(self)@ == old(self)@,
            !old(self)@.contains_key(id@) ==> (r matches Err(e) && (e
                matches MigrationError::ConnectionNotFound(m) && m@ == "Task not found: "@ + id@)),
            old(self)@.contains_key(id@) && !transition_allowed(
                old(self)@[id@].status,
                TaskOperation::Cancel,
            ) ==> (r matches Err(e) && (e matches MigrationError::InvalidTransition(m) && m@
                == spec_cannot_message(TaskOperation::Cancel, old(self)@[id@].status))),
    {
        proof {
            use_type_invariant(&*self);
        }
        let mut task = match self.get_task(id) {
            Some(t) => t,
            None => {
                return Err(task_not_found(id));
            },
        };
        match task.cancel(now_ms) {
            Ok(_) => (),
            Err(e) => {
                return Err(e);
            },
        }
        match self.update_task(task) {
            Ok(_) => (),
            Err(e) => {
                return Err(e);
            },
        }
        Ok(())
    }

    /// Return the task under `id` to a fresh `Created` cycle — no error, no
    /// progress, no timestamps — and immediately re-enter `start`: the task
    /// ends `Running` with a new `started_at`.
    pub fn retry_task(&mut self, id: &str, now_ms: u64) -> (r: Result<(), MigrationError>)
        ensures
            r is Ok <==> old(self)@.contains_key(id@),
            r is Ok ==> final(self)@ == old(self)@.insert(id@, final(self)@[id@])
                && spec_retried_from(old(self)@[id@], final(self)@[id@], now_ms),
            r matches Err(e) ==> final(self)@ == old(self)@ && (e
                matches MigrationError::ConnectionNotFound(m) && m@ == "Task not found: "@ + id@),
    {
        proof {
            use_type_invariant(&*self);
        }
        let mut task = match self.get_task(id) {
            Some(t) => t,
            None => {
                return Err(task_not_found(id));
            },
        };
        task.status = TaskStatus::Created;
        task.error = None;
        task.progress = TaskProgress::new(now_ms);
        task.started_at = None;
        task.completed_at = None;
        match task.start(now_ms) {
            Ok(_) => (),
            Err(e) => {
                return Err(e);
            },
        }
        match self.update_task(task) {
            Ok(_) => (),
            Err(e) => {
                return Err(e);
            },
        }
        Ok(())
    }

    /// The body of the background execution unit: re-read the task, check it
    /// is still `Running`, run its strategy against the registry, and write
    /// `Completed` or `Failed` with the captured error back into the table.
    pub fn execute_task(
        &mut self,
        conn_manager: &UnifiedConnectionManager,
        id: &str,
        now_ms: u64,
    ) -> (r: Result<(), MigrationError>)
        ensures
            r is Ok <==> old(self)@.contains_key(id@) && old(self)@[id@].status is Running,
            r is Err ==> final(self)@ == old(self)@,
            !old(self)@.contains_key(id@) ==> (r matches Err(e) && (e
                matches MigrationError::ConnectionNotFound(m) && m@ == "Task not found: "@ + id@)),
            old(self)@.contains_key(id@) && !(old(self)@[id@].status is Running) ==> (r
                matches Err(e) && (e matches MigrationError::InvalidTransition(m) && m@
                == "Task is not running: "@ + id@)),
            r is Ok ==> final(self)@ == old(self)@.insert(id@, final(self)@[id@]),
            r is Ok && conn_manager@.contains_key(old(self)@[id@].source_db_id@)
                && conn_manager@.contains_key(old(self)@[id@].target_db_id@) ==> spec_completed_from(
                old(self)@[id@],
                final(self)@[id@],
                now_ms,
            ),
            r is Ok && !(conn_manager@.contains_key(old(self)@[id@].source_db_id@)
                && conn_manager@.contains_key(old(self)@[id@].target_db_id@)) ==> spec_failed_from(
                old(self)@[id@],
                final(self)@[id@],
                spec_execute_error_message(
                    conn_manager@,
                    old(self)@[id@].source_db_id@,
                    old(self)@[id@].target_db_id@,
                ),
                now_ms,
            ),
    {
        proof {
            use_type_invariant(&*self);
        }
        let mut task = match self.get_task(id) {
            Some(t) => t,
            None => {
                return Err(task_not_found(id));
            },
        };
        if !(matches!(task.status, TaskStatus::Running)) {
            let mut m = String::from_str("Task is not running: ");
            m.append(id);
            return Err(MigrationError::InvalidTransition(m));
        }
        let outcome = task.strategy.execute(
            task.source_db_id.as_str(),
            task.target_db_id.as_str(),
            conn_manager,
        );
        match outcome {
            Ok(_) => {
                match task.complete(now_ms) {
                    Ok(_) => (),
                    Err(e) => {
                        return Err(e);
                    },
                }
            },
            Err(e) => {
                let message = e.message().to_owned();
                match task.fail(message, now_ms) {
                    Ok(_) => (),
                    Err(e2) => {
                        return Err(e2);
                    },
                }
            },
        }
        match self.update_task(task) {
            Ok(_) => (),
            Err(e) => {
                return Err(e);
            },
        }
        Ok(())
    }
}

} // verus!
