//! The task entity and its state machine.

use crate::clock::now_millis;
use crate::ident::fresh_task_id;
use crate::media::MediaFile;
use vstd::prelude::*;

verus! {

/// Progress is stored in thousandths of completion: 0 means not started,
/// `PROGRESS_SCALE` means done.
pub const PROGRESS_SCALE: u32 = 1000;

/// Default number of retries granted to a fresh task.
pub const DEFAULT_MAX_RETRIES: u32 = 3;

#[derive(Debug, Clone, Copy, PartialEq, Eq, Structural)]
pub enum TaskType {
    VideoCompression,
    AudioProcessing,
    ImageOptimization,
}

#[derive(Debug, Clone, Copy, PartialEq, Eq, Structural)]
pub enum TaskStatus {
    Pending,
    Processing,
    Completed,
    Failed,
    Cancelled,
    Cancelling,
}

/// The terminal statuses: once reached, the task never leaves them.
pub open spec fn is_terminal(s: TaskStatus) -> bool {
    s == TaskStatus::Completed || s == TaskStatus::Failed || s == TaskStatus::Cancelled
}

impl TaskType {
    /// The wire name of the type, as used in queue names and requests.
    pub open spec fn spec_label(self) -> Seq<char> {
        match self {
            TaskType::VideoCompression => "video"@,
            TaskType::AudioProcessing => "audio"@,
            TaskType::ImageOptimization => "image"@,
        }
    }

    pub fn as_str(&self) -> (r: &'static str)
        ensures
            r@ == self.spec_label(),
    {
        match self {
            TaskType::VideoCompression => "video",
            TaskType::AudioProcessing => "audio",
            TaskType::ImageOptimization => "image",
        }
    }
}

impl TaskStatus {
    /// The wire name of the status, as stored and filtered on.
    pub open spec fn spec_label(self) -> Seq<char> {
        match self {
            TaskStatus::Pending => "pending"@,
            TaskStatus::Processing => "processing"@,
            TaskStatus::Completed => "completed"@,
            TaskStatus::Failed => "failed"@,
            TaskStatus::Cancelled => "cancelled"@,
            TaskStatus::Cancelling => "cancelling"@,
        }
    }

    pub fn as_str(&self) -> (r: &'static str)
        ensures
            r@ == self.spec_label(),
    {
        match self {
            TaskStatus::Pending => "pending",
            TaskStatus::Processing => "processing",
            TaskStatus::Completed => "completed",
            TaskStatus::Failed => "failed",
            TaskStatus::Cancelled => "cancelled",
            TaskStatus::Cancelling => "cancelling",
        }
    }
}

/// A unit of media-processing work. Timestamps are milliseconds since the
/// Unix epoch; `progress` is in thousandths (see [`PROGRESS_SCALE`]).
#[derive(Debug)]
pub struct Task {
    pub id: String,
    pub task_type: TaskType,
    pub media: MediaFile,
    pub status: TaskStatus,
    pub progress: u32,
    pub error: Option<String>,
    pub output_path: Option<String>,
    pub created_at: i64,
    pub updated_at: i64,
    pub started_at: Option<i64>,
    pub completed_at: Option<i64>,
    pub retry_count: u32,
    pub max_retries: u32,
}

/// Value equality of two tasks: every field agrees, the media file up to
/// [`media_like`].
pub open spec fn task_like(a: Task, b: Task) -> bool {
    &&& a.id == b.id
    &&& a.task_type == b.task_type
    &&& crate::media::media_like(a.media, b.media)
    &&& a.status == b.status
    &&& a.progress == b.progress
    &&& a.error == b.error
    &&& a.output_path == b.output_path
    &&& a.created_at == b.created_at
    &&& a.updated_at == b.updated_at
    &&& a.started_at == b.started_at
    &&& a.completed_at == b.completed_at
    &&& a.retry_count == b.retry_count
    &&& a.max_retries == b.max_retries
}

/// Pointwise [`task_like`] on two sequences of tasks.
pub open spec fn tasks_like(a: Seq<Task>, b: Seq<Task>) -> bool {
    a.len() == b.len() && forall|i: int| 0 <= i < a.len() ==> task_like(a[i], b[i])
}

/// Fields that no lifecycle operation may change.
pub open spec fn same_identity(a: Task, b: Task) -> bool {
    &&& a.id == b.id
    &&& a.task_type == b.task_type
    &&& a.media == b.media
    &&& a.created_at == b.created_at
    &&& a.max_retries == b.max_retries
}

/// `started_at` and `completed_at`, once set, are never rewritten.
pub open spec fn stamps_preserved(a: Task, b: Task) -> bool {
    &&& a.started_at is Some ==> b.started_at == a.started_at
    &&& a.completed_at is Some ==> b.completed_at == a.completed_at
}

/// Clamp a requested progress value into `[0, PROGRESS_SCALE]`.
pub open spec fn clamp_progress(p: int) -> u32 {
    if p < 0 {
        0
    } else if p > PROGRESS_SCALE {
        PROGRESS_SCALE
    } else {
        p as u32
    }
}

impl Task {
    /// Machine-level well-formedness: progress never leaves its scale.
    pub open spec fn wf(self) -> bool {
        self.progress <= PROGRESS_SCALE
    }

    /// Build a task from explicit identity and creation time.
    pub fn with_id(task_type: TaskType, media: MediaFile, id: String, now: i64) -> (t: Task)
        ensures
            t.id == id,
            t.task_type == task_type,
            t.media == media,
            t.status == TaskStatus::Pending,
            t.progress == 0,
            t.error is None,
            t.output_path is None,
            t.created_at == now,
            t.updated_at == now,
            t.started_at is None,
            t.completed_at is None,
            t.retry_count == 0,
            t.max_retries == DEFAULT_MAX_RETRIES,
    {
        Task {
            id,
            task_type,
            media,
            status: TaskStatus::Pending,
            progress: 0,
            error: None,
            output_path: None,
            created_at: now,
            updated_at: now,
            started_at: None,
            completed_at: None,
            retry_count: 0,
            max_retries: DEFAULT_MAX_RETRIES,
        }
    }

    /// Build a fresh task: a random identity, stamped with the current time.
    pub fn new(task_type: TaskType, media: MediaFile) -> (t: Task)
        ensures
            t.id@.len() == 36,
            t.task_type == task_type,
            t.media == media,
            t.status == TaskStatus::Pending,
            t.progress == 0,
            t.error is None,
            t.output_path is None,
            t.created_at == t.updated_at,
            t.started_at is None,
            t.completed_at is None,
            t.retry_count == 0,
            t.max_retries == DEFAULT_MAX_RETRIES,
    {
        let id = fresh_task_id();
        let now = now_millis();
        Task::with_id(task_type, media, id, now)
    }

    /// A second task equal to this one, for when the durable record and
    /// a queue snapshot must both hold it.
    pub fn duplicate(&self) -> (r: Task)
        ensures
            task_like(r, *self),
    {
        Task {
            id: self.id.clone(),
            task_type: self.task_type,
            media: self.media.duplicate(),
            status: self.status,
            progress: self.progress,
            error: match &self.error {
                Some(e) => Some(e.clone()),
                None => None,
            },
            output_path: match &self.output_path {
                Some(p) => Some(p.clone()),
                None => None,
            },
            created_at: self.created_at,
            updated_at: self.updated_at,
            started_at: self.started_at,
            completed_at: self.completed_at,
            retry_count: self.retry_count,
            max_retries: self.max_retries,
        }
    }

    /// Move to `new_status`, refreshing `updated_at` and stamping
    /// `started_at` on the first entry into `Processing` and `completed_at`
    /// on the first entry into a terminal status.
    pub fn update_status(&mut self, new_status: TaskStatus, now: i64)
        ensures
            final(self).status == new_status,
            final(self).updated_at == now,
            final(self).started_at == (if new_status == TaskStatus::Processing
                && old(self).started_at is None {
                Some(now)
            } else {
                old(self).started_at
            }),
            final(self).completed_at == (if is_terminal(new_status)
                && old(self).completed_at is None {
                Some(now)
            } else {
                old(self).completed_at
            }),
            same_identity(*old(self), *final(self)),
            stamps_preserved(*old(self), *final(self)),
            final(self).progress == old(self).progress,
            final(self).error == old(self).error,
            final(self).output_path == old(self).output_path,
            final(self).retry_count == old(self).retry_count,
    {
        self.status = new_status;
        self.updated_at = now;
        match new_status {
            TaskStatus::Processing => {
                if self.started_at.is_none() {
                    self.started_at = Some(now);
                }
            }
            TaskStatus::Completed | TaskStatus::Failed | TaskStatus::Cancelled => {
                if self.completed_at.is_none() {
                    self.completed_at = Some(now);
                }
            }
            _ => {}
        }
    }

    /// Write a progress reading, clamped into `[0, PROGRESS_SCALE]`.
    pub fn update_progress(&mut self, progress: i64, now: i64)
        ensures
            final(self).progress == clamp_progress(progress as int),
            final(self).updated_at == now,
            final(self).status == old(self).status,
            final(self).error == old(self).error,
            final(self).output_path == old(self).output_path,
            final(self).started_at == old(self).started_at,
            final(self).completed_at == old(self).completed_at,
            final(self).retry_count == old(self).retry_count,
            same_identity(*old(self), *final(self)),
            final(self).wf(),
    {
        self.progress = if progress < 0 {
            0u32
        } else if progress > PROGRESS_SCALE as i64 {
            PROGRESS_SCALE
        } else {
            progress as u32
        };
        self.updated_at = now;
    }

    /// Record a failed attempt and move straight to `Failed`. A retry must
    /// be left to count: `retry_count` never passes `max_retries`.
    pub fn mark_failed(&mut self, error: String, now: i64)
        requires
            old(self).retry_count < old(self).max_retries,
        ensures
            final(self).status == TaskStatus::Failed,
            final(self).error == Some(error),
            final(self).retry_count == old(self).retry_count + 1,
            final(self).updated_at == now,
            final(self).completed_at == (if old(self).completed_at is None {
                Some(now)
            } else {
                old(self).completed_at
            }),
            final(self).started_at == old(self).started_at,
            final(self).progress == old(self).progress,
            final(self).output_path == old(self).output_path,
            same_identity(*old(self), *final(self)),
            stamps_preserved(*old(self), *final(self)),
    {
        self.status = TaskStatus::Failed;
        self.error = Some(error);
        self.retry_count = self.retry_count + 1;
        self.updated_at = now;
        if self.completed_at.is_none() {
            self.completed_at = Some(now);
        }
    }

    /// Whether another attempt is still allowed.
    pub fn can_retry(&self) -> (r: bool)
        ensures
            r == (self.retry_count < self.max_retries),
    {
        self.retry_count < self.max_retries
    }

    /// Count one more failed attempt.
    pub fn increment_retry(&mut self, now: i64)
        requires
            old(self).retry_count < u32::MAX,
        ensures
            final(self).retry_count == old(self).retry_count + 1,
            final(self).updated_at == now,
            final(self).status == old(self).status,
            final(self).error == old(self).error,
            final(self).output_path == old(self).output_path,
            final(self).progress == old(self).progress,
            final(self).started_at == old(self).started_at,
            final(self).completed_at == old(self).completed_at,
            same_identity(*old(self), *final(self)),
    {
        self.retry_count = self.retry_count + 1;
        self.updated_at = now;
    }

    /// Same bound as [`Task::can_retry`]: the engine requeues only while
    /// `retry_count < max_retries`.
    pub fn should_retry(&self) -> (r: bool)
        ensures
            r == (self.retry_count < self.max_retries),
    {
        self.can_retry()
    }
}

} // verus!
