//! System-wide properties of the lifecycle model, each stated over the
//! invariant that every verified operation preserves.

use crate::model::{record_inv, snapshot_inv, SystemModel};
use crate::task::{is_terminal, TaskStatus, TaskType, PROGRESS_SCALE};
use vstd::prelude::*;

verus! {

/// Every task ever observed `Completed` in the store carries an output path
/// and a completion stamp.
pub proof fn lemma_completed_has_output(m: SystemModel, i: int)
    requires
        m.inv(),
        0 <= i < m.store.tasks@.len(),
        m.store.tasks@[i].status == TaskStatus::Completed,
    ensures
        m.store.tasks@[i].output_path is Some,
        m.store.tasks@[i].completed_at is Some,
{
    assert(record_inv(m.store.tasks@[i]));
}

/// A record's progress never leaves `[0, PROGRESS_SCALE]` (it is unsigned,
/// so only the upper bound is stated).
pub proof fn lemma_record_progress_in_range(m: SystemModel, i: int)
    requires
        m.inv(),
        0 <= i < m.store.tasks@.len(),
    ensures
        m.store.tasks@[i].progress <= PROGRESS_SCALE,
{
    assert(record_inv(m.store.tasks@[i]));
}

/// A queued snapshot's progress never leaves `[0, PROGRESS_SCALE]`, and the
/// snapshot always waits as `Pending`, unfinished, with a retry left.
pub proof fn lemma_snapshot_well_formed(m: SystemModel, t: TaskType, i: int)
    requires
        m.inv(),
        0 <= i < m.queue_seq(t).len(),
    ensures
        m.queue_seq(t)[i].progress <= PROGRESS_SCALE,
        m.queue_seq(t)[i].status == TaskStatus::Pending,
        m.queue_seq(t)[i].retry_count < m.queue_seq(t)[i].max_retries,
        m.queue_seq(t)[i].task_type == t,
        m.queue_seq(t)[i].completed_at is None,
{
    if t == TaskType::VideoCompression {
        assert(snapshot_inv(m.video_queue.items@[i]));
    } else if t == TaskType::AudioProcessing {
        assert(snapshot_inv(m.audio_queue.items@[i]));
    } else {
        assert(snapshot_inv(m.image_queue.items@[i]));
    }
}

/// Retries are bounded: a record never exceeds its retry budget, and a
/// permanently failed record has used exactly all of it.
pub proof fn lemma_retry_bounded(m: SystemModel, i: int)
    requires
        m.inv(),
        0 <= i < m.store.tasks@.len(),
    ensures
        m.store.tasks@[i].retry_count <= m.store.tasks@[i].max_retries,
        m.store.tasks@[i].status == TaskStatus::Failed ==> m.store.tasks@[i].retry_count
            == m.store.tasks@[i].max_retries,
{
    assert(record_inv(m.store.tasks@[i]));
}

/// A record carries its completion stamp exactly when its status is
/// terminal.
pub proof fn lemma_completion_stamp_iff_terminal(m: SystemModel, i: int)
    requires
        m.inv(),
        0 <= i < m.store.tasks@.len(),
    ensures
        m.store.tasks@[i].completed_at is Some <==> is_terminal(m.store.tasks@[i].status),
{
    assert(record_inv(m.store.tasks@[i]));
}

/// A record is observed `Pending` only before its first attempt: no start
/// stamp, no retries counted, no error, no output. (`started_at`, once an
/// attempt begins, is set and — by the stamp-preservation clauses of every
/// mutator — never rewritten.)
pub proof fn lemma_pending_record_is_fresh(m: SystemModel, i: int)
    requires
        m.inv(),
        0 <= i < m.store.tasks@.len(),
        m.store.tasks@[i].status == TaskStatus::Pending,
    ensures
        m.store.tasks@[i].started_at is None,
        m.store.tasks@[i].completed_at is None,
        m.store.tasks@[i].retry_count == 0,
        m.store.tasks@[i].error is None,
        m.store.tasks@[i].output_path is None,
{
    assert(record_inv(m.store.tasks@[i]));
}

} // verus!
