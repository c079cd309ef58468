//! The worker engine's decision steps.
//!
//! The driver's loop is plain plumbing: it pops a snapshot, re-reads the
//! durable record, races the processor against the cancellation channel, and
//! sleeps between attempts. Every decision in that loop — when to discard a
//! snapshot, what each race outcome does to the task, when to requeue and
//! when to give up — is a function here, verified against the model.

use crate::model::{
    queue_inv, record_inv, snapshot_inv, store_inv, SystemModel,
};
use crate::processors::TaskProcessor;
use crate::store::{
    lemma_find_first_match, lemma_find_props, spec_contains_id, spec_find, spec_index_of_id,
};
use crate::strutil::str_eq;
use crate::task::{
    is_terminal, same_identity, stamps_preserved, task_like, Task, TaskStatus, TaskType,
    PROGRESS_SCALE,
};
use vstd::prelude::*;

verus! {

/// The store after writing `t` over the record carrying its id; writing a
/// record that does not exist changes nothing.
pub open spec fn store_after_update(pre: Seq<Task>, post: Seq<Task>, t: Task) -> bool {
    if spec_contains_id(pre, t.id@) {
        let i = spec_index_of_id(pre, t.id@);
        &&& post.len() == pre.len()
        &&& task_like(post[i], t)
        &&& forall|j: int| 0 <= j < pre.len() && j != i ==> post[j] == pre[j]
    } else {
        post == pre
    }
}

/// What the pre-flight read of the durable record decides.
#[derive(Debug, Clone, Copy, PartialEq, Eq, Structural)]
pub enum PreflightOutcome {
    MissingRecord,
    AlreadyFinished,
    Proceed,
}

/// Decide whether a dequeued snapshot is still worth working on: discard it
/// when the record is gone, already terminal, or being cancelled.
pub fn preflight(record: &Option<Task>) -> (r: PreflightOutcome)
    ensures
        match record {
            None => r == PreflightOutcome::MissingRecord,
            Some(t) => r == (if is_terminal(t.status) || t.status == TaskStatus::Cancelling {
                PreflightOutcome::AlreadyFinished
            } else {
                PreflightOutcome::Proceed
            }),
        },
{
    match record {
        None => PreflightOutcome::MissingRecord,
        Some(t) => match t.status {
            TaskStatus::Completed
            | TaskStatus::Failed
            | TaskStatus::Cancelled
            | TaskStatus::Cancelling => PreflightOutcome::AlreadyFinished,
            _ => PreflightOutcome::Proceed,
        },
    }
}

/// What ended the in-flight attempt: the processor's own result, or a
/// message from the cancellation channel winning the race.
#[derive(Debug)]
pub enum AttemptEvent {
    Finished(Result<(), String>),
    CancelSignal(String),
}

/// What the engine did with the attempt.
#[derive(Debug, Clone, Copy, PartialEq, Eq, Structural)]
pub enum ConcludeAction {
    CompletedTask,
    Requeued,
    FailedPermanently,
    CancelledTask,
    Ignored,
}

/// How the race between the processor and the cancellation channel ends,
/// as one turn of the worker loop sees it.
#[derive(Debug)]
pub enum AttemptOutcome {
    Completes,
    Fails(String),
    CancelledBySignal,
}

/// What one turn of the worker loop did.
#[derive(Debug, Clone, Copy, PartialEq, Eq, Structural)]
pub enum StepResult {
    NoTask,
    Skipped,
    CompletedTask,
    Requeued,
    FailedTask,
    CancelledTask,
}

impl SystemModel {
    /// Take the snapshot at the tail of the queue for `task_type`, if any.
    pub fn worker_dequeue(&mut self, task_type: &TaskType) -> (r: Option<Task>)
        requires
            old(self).inv(),
        ensures
            final(self).inv(),
            final(self).store == old(self).store,
            final(self).metrics == old(self).metrics,
            *task_type != TaskType::VideoCompression ==> final(self).video_queue == old(self).video_queue,
            *task_type != TaskType::AudioProcessing ==> final(self).audio_queue == old(self).audio_queue,
            *task_type != TaskType::ImageOptimization ==> final(self).image_queue == old(self).image_queue,
            match r {
                Some(snap) => {
                    &&& old(self).queue_seq(*task_type).len() > 0
                    &&& snap == old(self).queue_seq(*task_type).last()
                    &&& final(self).queue_seq(*task_type) == old(self).queue_seq(
                        *task_type,
                    ).drop_last()
                    &&& snapshot_inv(snap)
                    &&& snap.task_type == *task_type
                },
                None => old(self).queue_seq(*task_type).len() == 0 && final(self).queue_seq(
                    *task_type,
                ) == old(self).queue_seq(*task_type),
            },
    {
        let r = self.pop_queue(task_type);
        proof {
            if r is Some {
                let q0 = old(self).queue_seq(*task_type);
                let n = q0.len() as int;
                if *task_type == TaskType::VideoCompression {
                    assert(snapshot_inv(old(self).video_queue.items@[n - 1]));
                } else if *task_type == TaskType::AudioProcessing {
                    assert(snapshot_inv(old(self).audio_queue.items@[n - 1]));
                } else {
                    assert(snapshot_inv(old(self).image_queue.items@[n - 1]));
                }
                assert(q0[n - 1] == q0.last());
                assert forall|j: int|
                    0 <= j < self.queue_seq(*task_type).len() implies snapshot_inv(
                    #[trigger] self.queue_seq(*task_type)[j],
                ) && self.queue_seq(*task_type)[j].task_type == *task_type by {
                    assert(self.queue_seq(*task_type)[j] == q0[j]);
                    if *task_type == TaskType::VideoCompression {
                        assert(snapshot_inv(old(self).video_queue.items@[j]));
                    } else if *task_type == TaskType::AudioProcessing {
                        assert(snapshot_inv(old(self).audio_queue.items@[j]));
                    } else {
                        assert(snapshot_inv(old(self).image_queue.items@[j]));
                    }
                }
                assert(queue_inv(self.queue_seq(*task_type), *task_type));
            }
        }
        r
    }

    /// Begin an attempt: move the task to `Processing` and persist it, so
    /// the durable record shows the attempt.
    pub fn worker_begin(&mut self, task: &mut Task, now: i64)
        requires
            old(self).inv(),
            old(task).wf(),
            old(task).retry_count < old(task).max_retries,
            old(task).completed_at is None,
        ensures
            final(self).inv(),
            final(self).video_queue == old(self).video_queue,
            final(self).audio_queue == old(self).audio_queue,
            final(self).image_queue == old(self).image_queue,
            final(self).metrics == old(self).metrics,
            final(task).status == TaskStatus::Processing,
            final(task).updated_at == now,
            final(task).started_at == (if old(task).started_at is None {
                Some(now)
            } else {
                old(task).started_at
            }),
            final(task).completed_at == old(task).completed_at,
            final(task).progress == old(task).progress,
            final(task).error == old(task).error,
            final(task).output_path == old(task).output_path,
            final(task).retry_count == old(task).retry_count,
            same_identity(*old(task), *final(task)),
            stamps_preserved(*old(task), *final(task)),
            store_after_update(old(self).store.tasks@, final(self).store.tasks@, *final(task)),
    {
        task.update_status(TaskStatus::Processing, now);
        self.store.update_one(task);
        proof {
            if spec_contains_id(old(self).store.tasks@, task.id@) {
                let i = spec_index_of_id(old(self).store.tasks@, task.id@);
                assert forall|j: int|
                    0 <= j < self.store.tasks@.len() implies record_inv(
                    #[trigger] self.store.tasks@[j],
                ) by {
                    if j != i {
                        assert(self.store.tasks@[j] == old(self).store.tasks@[j]);
                    }
                }
            }
        }
    }

    /// Persist a progress reading for a task, as the fire-and-forget
    /// progress callback does; a missing record is left missing.
    pub fn update_task_progress(&mut self, task_id: &str, progress: i64, now: i64)
        requires
            old(self).inv(),
        ensures
            final(self).inv(),
            final(self).video_queue == old(self).video_queue,
            final(self).audio_queue == old(self).audio_queue,
            final(self).image_queue == old(self).image_queue,
            final(self).metrics == old(self).metrics,
            !spec_contains_id(old(self).store.tasks@, task_id@) ==> final(self).store == old(self).store,
            spec_contains_id(old(self).store.tasks@, task_id@) ==> {
                let i = spec_index_of_id(old(self).store.tasks@, task_id@);
                let r0 = old(self).store.tasks@[i];
                let r1 = final(self).store.tasks@[i];
                &&& final(self).store.tasks@.len() == old(self).store.tasks@.len()
                &&& forall|j: int|
                    0 <= j < old(self).store.tasks@.len() && j != i ==> final(self).store.tasks@[j]
                        == old(self).store.tasks@[j]
                &&& r1.id == r0.id
                &&& r1.task_type == r0.task_type
                &&& crate::media::media_like(r1.media, r0.media)
                &&& r1.status == r0.status
                &&& r1.progress == crate::task::clamp_progress(progress as int)
                &&& r1.error == r0.error
                &&& r1.output_path == r0.output_path
                &&& r1.created_at == r0.created_at
                &&& r1.updated_at == now
                &&& r1.started_at == r0.started_at
                &&& r1.completed_at == r0.completed_at
                &&& r1.retry_count == r0.retry_count
                &&& r1.max_retries == r0.max_retries
            },
    {
        match self.store.find_one(task_id) {
            None => {}
            Some(t) => {
                proof {
                    lemma_find_props(self.store.tasks@, task_id@);
                }
                let mut t = t;
                t.update_progress(progress, now);
                self.store.update_one(&t);
                proof {
                    let i = spec_index_of_id(old(self).store.tasks@, task_id@);
                    assert forall|j: int|
                        0 <= j < self.store.tasks@.len() implies record_inv(
                        #[trigger] self.store.tasks@[j],
                    ) by {
                        if j != i {
                            assert(self.store.tasks@[j] == old(self).store.tasks@[j]);
                        }
                    }
                }
            }
        }
    }

    /// Conclude an attempt from what ended it. A success persists the
    /// completed task; a processor error counts the attempt and either
    /// requeues the task (a retry is left) or persists it as permanently
    /// failed; a matching cancellation signal persists the task as
    /// cancelled; a signal for another task changes nothing.
    pub fn worker_conclude(&mut self, task: &mut Task, event: AttemptEvent, now: i64) -> (r:
        ConcludeAction)
        requires
            old(self).inv(),
            old(task).wf(),
            old(task).retry_count < old(task).max_retries,
            (event matches AttemptEvent::Finished(res) && res is Ok) ==> old(task).status
                == TaskStatus::Completed && old(task).output_path is Some && old(task).completed_at
                is Some,
            (event matches AttemptEvent::Finished(res) && res is Err) ==> old(task).completed_at
                is None,
        ensures
            final(self).inv(),
            final(self).metrics == old(self).metrics,
            match event {
                AttemptEvent::Finished(res) => match res {
                    Ok(()) => {
                        &&& r == ConcludeAction::CompletedTask
                        &&& *final(task) == *old(task)
                        &&& store_after_update(
                            old(self).store.tasks@,
                            final(self).store.tasks@,
                            *old(task),
                        )
                        &&& final(self).video_queue == old(self).video_queue
                        &&& final(self).audio_queue == old(self).audio_queue
                        &&& final(self).image_queue == old(self).image_queue
                    },
                    Err(msg) => {
                        &&& final(task).retry_count == old(task).retry_count + 1
                        &&& final(task).error == Some(msg)
                        &&& final(task).updated_at == now
                        &&& same_identity(*old(task), *final(task))
                        &&& stamps_preserved(*old(task), *final(task))
                        &&& final(task).progress == old(task).progress
                        &&& final(task).output_path == old(task).output_path
                        &&& final(task).started_at == old(task).started_at
                        &&& if old(task).retry_count + 1 < old(task).max_retries {
                            &&& r == ConcludeAction::Requeued
                            &&& final(task).status == TaskStatus::Pending
                            &&& final(task).completed_at == old(task).completed_at
                            &&& final(self).store == old(self).store
                            &&& final(self).queue_seq(old(task).task_type).len() == old(self).queue_seq(old(task).task_type).len() + 1
                            &&& task_like(
                                final(self).queue_seq(old(task).task_type)[0],
                                *final(task),
                            )
                            &&& final(self).queue_seq(old(task).task_type).skip(1) == old(self).queue_seq(old(task).task_type)
                            &&& forall|u: TaskType|
                                u != old(task).task_type ==> final(self).queue_seq(u) == old(self).queue_seq(u)
                        } else {
                            &&& r == ConcludeAction::FailedPermanently
                            &&& final(task).status == TaskStatus::Failed
                            &&& final(task).retry_count == old(task).max_retries
                            &&& final(task).completed_at is Some
                            &&& store_after_update(
                                old(self).store.tasks@,
                                final(self).store.tasks@,
                                *final(task),
                            )
                            &&& final(self).video_queue == old(self).video_queue
                            &&& final(self).audio_queue == old(self).audio_queue
                            &&& final(self).image_queue == old(self).image_queue
                        }
                    },
                },
                AttemptEvent::CancelSignal(id) => {
                    if id@ == old(task).id@ {
                        &&& r == ConcludeAction::CancelledTask
                        &&& final(task).status == TaskStatus::Cancelled
                        &&& final(task).updated_at == now
                        &&& final(task).completed_at == (if old(task).completed_at is None {
                            Some(now)
                        } else {
                            old(task).completed_at
                        })
                        &&& same_identity(*old(task), *final(task))
                        &&& stamps_preserved(*old(task), *final(task))
                        &&& final(task).progress == old(task).progress
                        &&& final(task).error == old(task).error
                        &&& final(task).output_path == old(task).output_path
                        &&& final(task).retry_count == old(task).retry_count
                        &&& final(task).started_at == old(task).started_at
                        &&& store_after_update(
                            old(self).store.tasks@,
                            final(self).store.tasks@,
                            *final(task),
                        )
                        &&& final(self).video_queue == old(self).video_queue
                        &&& final(self).audio_queue == old(self).audio_queue
                        &&& final(self).image_queue == old(self).image_queue
                    } else {
                        &&& r == ConcludeAction::Ignored
                        &&& *final(task) == *old(task)
                        &&& *final(self) == *old(self)
                    }
                },
            },
    {
        match event {
            AttemptEvent::Finished(res) => match res {
                Ok(()) => {
                    self.store.update_one(task);
                    proof {
                        self.lemma_update_preserves_records(*old(self), *task);
                    }
                    ConcludeAction::CompletedTask
                }
                Err(msg) => {
                    task.increment_retry(now);
                    task.error = Some(msg);
                    if task.should_retry() {
                        task.update_status(TaskStatus::Pending, now);
                        let tt = task.task_type;
                        let snap = task.duplicate();
                        self.push_queue(&tt, snap);
                        proof {
                            let q0 = old(self).queue_seq(tt);
                            let q1 = self.queue_seq(tt);
                            assert(q1.skip(1) =~= q0);
                            assert forall|j: int|
                                0 <= j < q1.len() implies snapshot_inv(#[trigger] q1[j])
                                && q1[j].task_type == tt by {
                                if j > 0 {
                                    assert(q1[j] == q0[j - 1]);
                                }
                            }
                            assert(queue_inv(self.queue_seq(tt), tt));
                        }
                        ConcludeAction::Requeued
                    } else {
                        task.update_status(TaskStatus::Failed, now);
                        self.store.update_one(task);
                        proof {
                            self.lemma_update_preserves_records(*old(self), *task);
                        }
                        ConcludeAction::FailedPermanently
                    }
                }
            },
            AttemptEvent::CancelSignal(id) => {
                if str_eq(id.as_str(), task.id.as_str()) {
                    task.update_status(TaskStatus::Cancelled, now);
                    self.store.update_one(task);
                    proof {
                        self.lemma_update_preserves_records(*old(self), *task);
                    }
                    ConcludeAction::CancelledTask
                } else {
                    ConcludeAction::Ignored
                }
            }
        }
    }

    /// One turn of the worker loop: dequeue, pre-flight, execute, conclude.
    ///
    /// The driver reports how the race ended: the processor finished on
    /// its own (`Completes`), the processor failed (`Fails`), or the
    /// cancellation signal arrived first (`CancelledBySignal`).
    pub fn process_next_task<P: TaskProcessor>(
        &mut self,
        processor: &P,
        task_type: &TaskType,
        outcome: AttemptOutcome,
        now: i64,
    ) -> (r: StepResult)
        requires
            old(self).inv(),
        ensures
            final(self).inv(),
            final(self).metrics == old(self).metrics,
            (r == StepResult::NoTask) <==> old(self).queue_seq(*task_type).len() == 0,
            r == StepResult::NoTask ==> final(self).store == old(self).store && final(self).queue_seq(*task_type) == old(self).queue_seq(*task_type),
            r != StepResult::NoTask ==> {
                let snap = old(self).queue_seq(*task_type).last();
                let q1 = old(self).queue_seq(*task_type).drop_last();
                let found = spec_contains_id(old(self).store.tasks@, snap.id@);
                let rec = spec_find(old(self).store.tasks@, snap.id@)->Some_0;
                let live = found && !is_terminal(rec.status) && rec.status
                    != TaskStatus::Cancelling;
                let i = spec_index_of_id(old(self).store.tasks@, snap.id@);
                let t1 = final(self).store.tasks@[i];
                &&& ((r == StepResult::Skipped) <==> !live)
                &&& (r == StepResult::Skipped ==> final(self).store == old(self).store && final(self).queue_seq(*task_type) == q1)
                &&& (live ==> {
                    &&& final(self).store.tasks@.len() == old(self).store.tasks@.len()
                    &&& (forall|j: int|
                        0 <= j < old(self).store.tasks@.len() && j != i ==> final(self).store.tasks@[j] == old(self).store.tasks@[j])
                    &&& t1.id@ == snap.id@
                    &&& t1.started_at is Some
                    &&& match outcome {
                        AttemptOutcome::Completes => {
                            &&& r == StepResult::CompletedTask
                            &&& t1.status == TaskStatus::Completed
                            &&& t1.progress == PROGRESS_SCALE
                            &&& (t1.output_path matches Some(p) && p@ == processor.spec_output_path(
                                snap,
                            ))
                            &&& t1.completed_at is Some
                            &&& t1.retry_count == snap.retry_count
                            &&& final(self).queue_seq(*task_type) == q1
                        },
                        AttemptOutcome::Fails(msg) => {
                            if snap.retry_count + 1 < snap.max_retries {
                                &&& r == StepResult::Requeued
                                &&& t1.status == TaskStatus::Processing
                                &&& final(self).queue_seq(*task_type).len() == q1.len() + 1
                                &&& {
                                    let s1 = final(self).queue_seq(*task_type)[0];
                                    &&& s1.id == snap.id
                                    &&& s1.task_type == snap.task_type
                                    &&& crate::media::media_like(s1.media, snap.media)
                                    &&& s1.status == TaskStatus::Pending
                                    &&& s1.retry_count == snap.retry_count + 1
                                    &&& s1.retry_count > snap.retry_count
                                    &&& s1.max_retries == snap.max_retries
                                    &&& s1.error == Some(msg)
                                    &&& s1.progress == snap.progress
                                    &&& s1.created_at == snap.created_at
                                    &&& s1.updated_at == now
                                    &&& s1.started_at is Some
                                    &&& s1.completed_at is None
                                }
                                &&& final(self).queue_seq(*task_type).skip(1) == q1
                            } else {
                                &&& r == StepResult::FailedTask
                                &&& t1.status == TaskStatus::Failed
                                &&& t1.retry_count == snap.max_retries
                                &&& t1.error == Some(msg)
                                &&& t1.completed_at is Some
                                &&& final(self).queue_seq(*task_type) == q1
                            }
                        },
                        AttemptOutcome::CancelledBySignal => {
                            &&& r == StepResult::CancelledTask
                            &&& t1.status == TaskStatus::Cancelled
                            &&& t1.completed_at is Some
                            &&& t1.retry_count == snap.retry_count
                            &&& final(self).queue_seq(*task_type) == q1
                        },
                    }
                })
            },
    {
        let mut task = match self.worker_dequeue(task_type) {
            None => {
                return StepResult::NoTask;
            }
            Some(t) => t,
        };
        let db_task = self.store.find_one(task.id.as_str());
        match preflight(&db_task) {
            PreflightOutcome::MissingRecord | PreflightOutcome::AlreadyFinished => {
                return StepResult::Skipped;
            }
            PreflightOutcome::Proceed => {}
        }
        proof {
            lemma_find_props(old(self).store.tasks@, task.id@);
        }
        let ghost snap = task;
        self.worker_begin(&mut task, now);
        match outcome {
            AttemptOutcome::Completes => {
                let ghost t_entry = task;
                let res = processor.process(&mut task, None, now);
                match res {
                    Ok(()) => {}
                    Err(_) => {
                        proof {
                            assert(false);
                        }
                    }
                }
                proof {
                    processor.output_path_congruence(t_entry, snap);
                    lemma_find_first_match(
                        self.store.tasks@,
                        spec_index_of_id(old(self).store.tasks@, snap.id@),
                        snap.id@,
                    );
                }
                let a = self.worker_conclude(&mut task, AttemptEvent::Finished(Ok(())), now);
                proof {
                    assert(a == ConcludeAction::CompletedTask);
                }
                StepResult::CompletedTask
            }
            AttemptOutcome::Fails(msg) => {
                proof {
                    lemma_find_first_match(
                        self.store.tasks@,
                        spec_index_of_id(old(self).store.tasks@, snap.id@),
                        snap.id@,
                    );
                }
                let a = self.worker_conclude(&mut task, AttemptEvent::Finished(Err(msg)), now);
                match a {
                    ConcludeAction::Requeued => StepResult::Requeued,
                    ConcludeAction::FailedPermanently => StepResult::FailedTask,
                    _ => {
                        proof {
                            assert(false);
                        }
                        StepResult::Skipped
                    }
                }
            }
            AttemptOutcome::CancelledBySignal => {
                proof {
                    lemma_find_first_match(
                        self.store.tasks@,
                        spec_index_of_id(old(self).store.tasks@, snap.id@),
                        snap.id@,
                    );
                }
                let id = task.id.clone();
                let a = self.worker_conclude(&mut task, AttemptEvent::CancelSignal(id), now);
                proof {
                    assert(a == ConcludeAction::CancelledTask);
                }
                StepResult::CancelledTask
            }
        }
    }

    /// After overwriting one record with a well-formed one, every record is
    /// still well formed.
    proof fn lemma_update_preserves_records(self, pre: SystemModel, t: Task)
        requires
            store_inv(pre.store.tasks@),
            record_inv(t),
            store_after_update(pre.store.tasks@, self.store.tasks@, t),
        ensures
            store_inv(self.store.tasks@),
    {
        if spec_contains_id(pre.store.tasks@, t.id@) {
            let i = spec_index_of_id(pre.store.tasks@, t.id@);
            lemma_find_props(pre.store.tasks@, t.id@);
            assert forall|j: int|
                0 <= j < self.store.tasks@.len() implies record_inv(
                #[trigger] self.store.tasks@[j],
            ) by {
                if j != i {
                    assert(self.store.tasks@[j] == pre.store.tasks@[j]);
                }
            }
        }
    }
}

} // verus!
