//! The lifecycle model: one durable store, one queue per task type, and the
//! process-local counters, with the submission and cancellation paths.
//!
//! The driver binary performs the same steps against the real stores; every
//! rule about what may be written when is stated and checked here.

use crate::clock::now_millis;
use crate::dto::{CreateTaskDto, DashboardStats, QueueLengths, TaskResponse, TaskSummary};
use crate::error::ApiError;
use crate::ident::fresh_task_id;
use crate::media::{media_like, MediaFile};
use crate::metrics::{wrap_inc, Metrics};
use crate::queue::TaskQueue;
use crate::service::{
    add_options_to_metadata, options_meta, parse_task_status, parse_task_type, spec_parse_task_type,
    spec_parse_task_status, spec_valid_dto, task_to_response, task_to_summary, task_type_to_media_type,
    validate_task_dto, view_pairs,
};
use crate::store::{
    count_status, filter_status, ids_unique, lemma_absent_ids, lemma_find_first_match,
    lemma_find_props, page_of, sorted_desc, spec_contains_id, spec_find, spec_index_of_id,
    TaskStore,
};
use crate::task::{
    is_terminal, task_like, tasks_like, Task, TaskStatus, TaskType, DEFAULT_MAX_RETRIES,
};
use vstd::prelude::*;
use vstd::string::StringExecFns;

verus! {

/// What always holds of a durable record. A record is `Pending` only
/// before its first attempt: requeues leave the record at `Processing`
/// until the next attempt persists it again.
pub open spec fn record_inv(t: Task) -> bool {
    &&& t.wf()
    &&& t.retry_count <= t.max_retries
    &&& (t.status == TaskStatus::Failed ==> t.retry_count == t.max_retries)
    &&& (t.status != TaskStatus::Failed ==> t.retry_count < t.max_retries)
    &&& (t.status == TaskStatus::Completed ==> t.output_path is Some)
    &&& (t.completed_at is Some <==> is_terminal(t.status))
    &&& (t.status == TaskStatus::Processing ==> t.started_at is Some)
    &&& (t.status == TaskStatus::Pending ==> t.started_at is None && t.retry_count == 0 && t.error
        is None && t.output_path is None)
}

/// What always holds of a queued snapshot: it waits as `Pending` and has a
/// retry left, else it would never have been (re)queued.
pub open spec fn snapshot_inv(t: Task) -> bool {
    &&& t.wf()
    &&& t.status == TaskStatus::Pending
    &&& t.retry_count < t.max_retries
    &&& t.completed_at is None
}

/// Every record of the store is a well-formed record.
pub open spec fn store_inv(s: Seq<Task>) -> bool {
    forall|i: int| 0 <= i < s.len() ==> record_inv(#[trigger] s[i])
}

/// Every snapshot in a queue is well formed and belongs to that queue.
pub open spec fn queue_inv(q: Seq<Task>, t: TaskType) -> bool {
    forall|i: int| 0 <= i < q.len() ==> snapshot_inv(#[trigger] q[i]) && q[i].task_type == t
}

/// The modelled system: the durable store, the three queues, the counters.
#[derive(Debug)]
pub struct SystemModel {
    pub store: TaskStore,
    pub video_queue: TaskQueue,
    pub audio_queue: TaskQueue,
    pub image_queue: TaskQueue,
    pub metrics: Metrics,
}

impl SystemModel {
    /// The queue serving one task type.
    pub open spec fn queue_seq(self, t: TaskType) -> Seq<Task> {
        match t {
            TaskType::VideoCompression => self.video_queue.items@,
            TaskType::AudioProcessing => self.audio_queue.items@,
            TaskType::ImageOptimization => self.image_queue.items@,
        }
    }

    /// The system invariant.
    pub open spec fn inv(self) -> bool {
        &&& ids_unique(self.store.tasks@)
        &&& store_inv(self.store.tasks@)
        &&& queue_inv(self.video_queue.items@, TaskType::VideoCompression)
        &&& queue_inv(self.audio_queue.items@, TaskType::AudioProcessing)
        &&& queue_inv(self.image_queue.items@, TaskType::ImageOptimization)
    }

    /// An empty system.
    pub fn new() -> (m: SystemModel)
        ensures
            m.inv(),
            m.store.tasks@ == Seq::<Task>::empty(),
            m.queue_seq(TaskType::VideoCompression) == Seq::<Task>::empty(),
            m.queue_seq(TaskType::AudioProcessing) == Seq::<Task>::empty(),
            m.queue_seq(TaskType::ImageOptimization) == Seq::<Task>::empty(),
            m.metrics.tasks_created == 0,
            m.metrics.tasks_completed == 0,
            m.metrics.tasks_failed == 0,
            m.metrics.tasks_cancelled == 0,
    {
        SystemModel {
            store: TaskStore::new(),
            video_queue: TaskQueue::new(),
            audio_queue: TaskQueue::new(),
            image_queue: TaskQueue::new(),
            metrics: Metrics::new(),
        }
    }

    /// Push a snapshot at the head of the queue for `t`.
    pub(crate) fn push_queue(&mut self, t: &TaskType, snap: Task)
        ensures
            final(self).queue_seq(*t) == old(self).queue_seq(*t).insert(0, snap),
            *t != TaskType::VideoCompression ==> final(self).video_queue == old(self).video_queue,
            *t != TaskType::AudioProcessing ==> final(self).audio_queue == old(self).audio_queue,
            *t != TaskType::ImageOptimization ==> final(self).image_queue == old(self).image_queue,
            final(self).store == old(self).store,
            final(self).metrics == old(self).metrics,
    {
        match t {
            TaskType::VideoCompression => self.video_queue.push_front(snap),
            TaskType::AudioProcessing => self.audio_queue.push_front(snap),
            TaskType::ImageOptimization => self.image_queue.push_front(snap),
        }
    }

    /// Pop the snapshot at the tail of the queue for `t`, if any.
    pub(crate) fn pop_queue(&mut self, t: &TaskType) -> (r: Option<Task>)
        ensures
            *t != TaskType::VideoCompression ==> final(self).video_queue == old(self).video_queue,
            *t != TaskType::AudioProcessing ==> final(self).audio_queue == old(self).audio_queue,
            *t != TaskType::ImageOptimization ==> final(self).image_queue == old(self).image_queue,
            final(self).store == old(self).store,
            final(self).metrics == old(self).metrics,
            match r {
                Some(snap) => old(self).queue_seq(*t).len() > 0 && snap == old(self).queue_seq(
                    *t,
                ).last() && final(self).queue_seq(*t) == old(self).queue_seq(*t).drop_last(),
                None => old(self).queue_seq(*t).len() == 0 && final(self).queue_seq(*t) == old(
                    self,
                ).queue_seq(*t),
            },
    {
        match t {
            TaskType::VideoCompression => self.video_queue.pop_back(),
            TaskType::AudioProcessing => self.audio_queue.pop_back(),
            TaskType::ImageOptimization => self.image_queue.pop_back(),
        }
    }

    /// Scrub the queue for `t`: remove the first snapshot with the id.
    pub(crate) fn scrub_queue(&mut self, t: &TaskType, task_id: &str) -> (r: bool)
        ensures
            *t != TaskType::VideoCompression ==> final(self).video_queue == old(self).video_queue,
            *t != TaskType::AudioProcessing ==> final(self).audio_queue == old(self).audio_queue,
            *t != TaskType::ImageOptimization ==> final(self).image_queue == old(self).image_queue,
            final(self).store == old(self).store,
            final(self).metrics == old(self).metrics,
            r == spec_contains_id(old(self).queue_seq(*t), task_id@),
            r ==> final(self).queue_seq(*t) == old(self).queue_seq(*t).remove(
                spec_index_of_id(old(self).queue_seq(*t), task_id@),
            ),
            !r ==> final(self).queue_seq(*t) == old(self).queue_seq(*t),
    {
        match t {
            TaskType::VideoCompression => self.video_queue.remove_first_by_id(task_id),
            TaskType::AudioProcessing => self.audio_queue.remove_first_by_id(task_id),
            TaskType::ImageOptimization => self.image_queue.remove_first_by_id(task_id),
        }
    }

    /// How many snapshots wait for `t`.
    pub(crate) fn queue_len(&self, t: &TaskType) -> (r: usize)
        ensures
            r == self.queue_seq(*t).len(),
    {
        match t {
            TaskType::VideoCompression => self.video_queue.len(),
            TaskType::AudioProcessing => self.audio_queue.len(),
            TaskType::ImageOptimization => self.image_queue.len(),
        }
    }
}

/// What a successful submission does: exactly one new durable record in
/// `Pending`, one snapshot of it at the head of its type's queue, and one
/// tick of the created-counter; nothing else moves.
pub open spec fn create_effect(
    pre: SystemModel,
    post: SystemModel,
    dto: CreateTaskDto,
    task_id: String,
    file_id: String,
    now: i64,
) -> bool {
    let t = post.store.tasks@.last();
    &&& post.store.tasks@ == pre.store.tasks@.push(t)
    &&& t.id == task_id
    &&& spec_parse_task_type(dto.task_type@) == Some(t.task_type)
    &&& t.status == TaskStatus::Pending
    &&& t.progress == 0
    &&& t.error is None
    &&& t.output_path is None
    &&& t.created_at == now
    &&& t.updated_at == now
    &&& t.started_at is None
    &&& t.completed_at is None
    &&& t.retry_count == 0
    &&& t.max_retries == DEFAULT_MAX_RETRIES
    &&& t.media.file_id == file_id
    &&& t.media.file_path == dto.file_path
    &&& t.media.file_size == dto.file_size
    &&& t.media.original_name == dto.original_name
    &&& t.media.mime_type == dto.mime_type
    &&& view_pairs(t.media.metadata@) == options_meta(dto.options)
    &&& post.queue_seq(t.task_type).len() == pre.queue_seq(t.task_type).len() + 1
    &&& task_like(post.queue_seq(t.task_type)[0], t)
    &&& post.queue_seq(t.task_type).skip(1) == pre.queue_seq(t.task_type)
    &&& forall|u: TaskType| u != t.task_type ==> post.queue_seq(u) == pre.queue_seq(u)
    &&& post.metrics.tasks_created == wrap_inc(pre.metrics.tasks_created)
    &&& post.metrics.tasks_completed == pre.metrics.tasks_completed
    &&& post.metrics.tasks_failed == pre.metrics.tasks_failed
    &&& post.metrics.tasks_cancelled == pre.metrics.tasks_cancelled
}

/// What cancelling a live task does: the record moves to `Cancelling`, and
/// further to `Cancelled` exactly when its snapshot could still be scrubbed
/// from the queue; one tick of the cancelled-counter; nothing else moves.
pub open spec fn cancel_effect(
    pre: SystemModel,
    post: SystemModel,
    id: Seq<char>,
    now: i64,
) -> bool {
    let i = spec_index_of_id(pre.store.tasks@, id);
    let t0 = pre.store.tasks@[i];
    let scrubbed = spec_contains_id(pre.queue_seq(t0.task_type), id);
    let t1 = post.store.tasks@[i];
    &&& post.store.tasks@.len() == pre.store.tasks@.len()
    &&& forall|j: int|
        0 <= j < pre.store.tasks@.len() && j != i ==> post.store.tasks@[j] == pre.store.tasks@[j]
    &&& t1.id == t0.id
    &&& t1.task_type == t0.task_type
    &&& media_like(t1.media, t0.media)
    &&& t1.status == (if scrubbed {
        TaskStatus::Cancelled
    } else {
        TaskStatus::Cancelling
    })
    &&& t1.progress == t0.progress
    &&& t1.error == t0.error
    &&& t1.output_path == t0.output_path
    &&& t1.created_at == t0.created_at
    &&& t1.updated_at == now
    &&& t1.started_at == t0.started_at
    &&& t1.completed_at == (if scrubbed && t0.completed_at is None {
        Some(now)
    } else {
        t0.completed_at
    })
    &&& t1.retry_count == t0.retry_count
    &&& t1.max_retries == t0.max_retries
    &&& (scrubbed ==> post.queue_seq(t0.task_type) == pre.queue_seq(t0.task_type).remove(
        spec_index_of_id(pre.queue_seq(t0.task_type), id),
    ))
    &&& (!scrubbed ==> post.queue_seq(t0.task_type) == pre.queue_seq(t0.task_type))
    &&& forall|u: TaskType| u != t0.task_type ==> post.queue_seq(u) == pre.queue_seq(u)
    &&& post.metrics.tasks_cancelled == wrap_inc(pre.metrics.tasks_cancelled)
    &&& post.metrics.tasks_created == pre.metrics.tasks_created
    &&& post.metrics.tasks_completed == pre.metrics.tasks_completed
    &&& post.metrics.tasks_failed == pre.metrics.tasks_failed
}

impl SystemModel {
    /// Validate and submit a task under the given fresh identity and time.
    pub fn create_task_with(
        &mut self,
        dto: &CreateTaskDto,
        task_id: String,
        file_id: String,
        now: i64,
    ) -> (r: Result<String, ApiError>)
        requires
            old(self).inv(),
            !spec_contains_id(old(self).store.tasks@, task_id@),
        ensures
            final(self).inv(),
            r is Ok <==> spec_valid_dto(*dto),
            r matches Err(e) ==> e is InvalidInput && *final(self) == *old(self),
            r matches Ok(id) ==> id == task_id && create_effect(
                *old(self),
                *final(self),
                *dto,
                task_id,
                file_id,
                now,
            ),
    {
        if let Err(e) = validate_task_dto(dto) {
            return Err(e);
        }
        let tt = match parse_task_type(dto.task_type.as_str()) {
            Ok(t) => t,
            Err(e) => {
                proof {
                    assert(false);
                }
                return Err(e);
            }
        };
        let mut metadata: Vec<(String, String)> = Vec::new();
        proof {
            assert(view_pairs(metadata@) =~= Seq::<(Seq<char>, Seq<char>)>::empty());
        }
        add_options_to_metadata(&mut metadata, &dto.options);
        proof {
            assert(Seq::<(Seq<char>, Seq<char>)>::empty() + options_meta(dto.options) =~= options_meta(
                dto.options,
            ));
        }
        let media = MediaFile {
            file_id,
            file_type: task_type_to_media_type(&tt),
            file_path: dto.file_path.clone(),
            file_size: dto.file_size,
            original_name: dto.original_name.clone(),
            mime_type: dto.mime_type.clone(),
            metadata,
        };
        let task = Task::with_id(tt, media, task_id.clone(), now);
        let snap = task.duplicate();
        proof {
            lemma_absent_ids(self.store.tasks@, task_id@);
        }
        self.store.insert_one(task);
        self.push_queue(&tt, snap);
        self.metrics.increment_created();
        proof {
            let s = self.store.tasks@;
            assert forall|i: int, j: int| 0 <= i < j < s.len() implies s[i].id@ != s[j].id@ by {
                if j < s.len() - 1 {
                    assert(s[i] == old(self).store.tasks@[i]);
                    assert(s[j] == old(self).store.tasks@[j]);
                }
            }
            assert(self.queue_seq(tt).skip(1) =~= old(self).queue_seq(tt));
            assert forall|i: int|
                0 <= i < self.queue_seq(tt).len() implies snapshot_inv(
                #[trigger] self.queue_seq(tt)[i],
            ) && self.queue_seq(tt)[i].task_type == tt by {
                if i > 0 {
                    assert(self.queue_seq(tt)[i] == old(self).queue_seq(tt)[i - 1]);
                }
            }
            assert(queue_inv(self.queue_seq(tt), tt));
        }
        Ok(task_id)
    }

    /// Validate and submit a task: a fresh random id and the current time.
    /// An id collision (never expected of random ids) is an internal error.
    pub fn create_task(&mut self, dto: &CreateTaskDto) -> (r: Result<String, ApiError>)
        requires
            old(self).inv(),
        ensures
            final(self).inv(),
            !spec_valid_dto(*dto) <==> (r matches Err(e) && e is InvalidInput),
            r matches Err(e) ==> (e is InvalidInput || e is InternalError) && *final(self) == *old(
                self,
            ),
            r matches Ok(id) ==> exists|file_id: String, now: i64|
                create_effect(*old(self), *final(self), *dto, id, file_id, now),
    {
        if let Err(e) = validate_task_dto(dto) {
            return Err(e);
        }
        let task_id = fresh_task_id();
        let file_id = fresh_task_id();
        let now = now_millis();
        if self.store.find_one(task_id.as_str()).is_some() {
            return Err(ApiError::InternalError("task id collision".to_owned()));
        }
        match self.create_task_with(dto, task_id, file_id, now) {
            Ok(id) => Ok(id),
            Err(e) => {
                proof {
                    assert(false);
                }
                Err(e)
            }
        }
    }

    /// Cancel a task at an explicit time.
    ///
    /// A missing task is not found; a terminal task (`Completed`, `Failed`,
    /// and also an already-`Cancelled` one) is rejected as an invalid state.
    /// Otherwise the record moves to `Cancelling`, the queue is scrubbed,
    /// and if the snapshot was still queued the record moves straight to
    /// `Cancelled`; else the worker holding it will finalise it. The driver
    /// publishes the cancellation signal before the status write.
    pub fn cancel_task_at(&mut self, task_id: &str, now: i64) -> (r: Result<(), ApiError>)
        requires
            old(self).inv(),
        ensures
            final(self).inv(),
            !spec_contains_id(old(self).store.tasks@, task_id@) ==> (r matches Err(e) && e
                matches ApiError::TaskNotFound(m) && m@ == task_id@ && *final(self) == *old(self)),
            spec_contains_id(old(self).store.tasks@, task_id@) ==> {
                let t0 = spec_find(old(self).store.tasks@, task_id@)->Some_0;
                &&& (is_terminal(t0.status) ==> (r matches Err(e) && e matches
                    ApiError::InvalidInput(m) && m@ == "Cannot cancel task with status: "@
                    + t0.status.spec_label() && *final(self) == *old(self)))
                &&& (!is_terminal(t0.status) ==> r is Ok && cancel_effect(
                    *old(self),
                    *final(self),
                    task_id@,
                    now,
                ))
            },
    {
        let t0 = match self.store.find_one(task_id) {
            Some(t) => t,
            None => {
                return Err(ApiError::TaskNotFound(task_id.to_owned()));
            }
        };
        match t0.status {
            TaskStatus::Completed | TaskStatus::Failed | TaskStatus::Cancelled => {
                let mut msg: String = "Cannot cancel task with status: ".to_owned();
                msg.append(t0.status.as_str());
                return Err(ApiError::InvalidInput(msg));
            }
            _ => {}
        }
        proof {
            lemma_find_props(self.store.tasks@, task_id@);
        }
        let ghost i = spec_index_of_id(self.store.tasks@, task_id@);
        // The driver publishes `cancel` on `task:cancel:<id>` at this point.
        let mut t = t0;
        t.update_status(TaskStatus::Cancelling, now);
        self.store.update_one(&t);
        proof {
            lemma_find_first_match(self.store.tasks@, i, task_id@);
        }
        let tt = t.task_type;
        let removed = self.scrub_queue(&tt, task_id);
        if removed {
            t.update_status(TaskStatus::Cancelled, now);
            self.store.update_one(&t);
            proof {
                lemma_find_first_match(self.store.tasks@, i, task_id@);
            }
        }
        self.metrics.increment_cancelled();
        proof {
            let q0 = old(self).queue_seq(tt);
            let q1 = self.queue_seq(tt);
            if removed {
                let k = spec_index_of_id(q0, task_id@);
                lemma_find_props(q0, task_id@);
                assert forall|j: int|
                    0 <= j < q1.len() implies snapshot_inv(#[trigger] q1[j]) && q1[j].task_type
                    == tt by {
                    assert(q1[j] == (if j < k {
                        q0[j]
                    } else {
                        q0[j + 1]
                    }));
                }
            }
            assert(queue_inv(self.queue_seq(tt), tt));
        }
        Ok(())
    }

    /// Cancel a task at the current time.
    pub fn cancel_task(&mut self, task_id: &str) -> (r: Result<(), ApiError>)
        requires
            old(self).inv(),
        ensures
            final(self).inv(),
            !spec_contains_id(old(self).store.tasks@, task_id@) ==> (r matches Err(e) && e
                matches ApiError::TaskNotFound(m) && m@ == task_id@ && *final(self) == *old(self)),
            spec_contains_id(old(self).store.tasks@, task_id@) ==> {
                let t0 = spec_find(old(self).store.tasks@, task_id@)->Some_0;
                &&& (is_terminal(t0.status) ==> (r matches Err(e) && e matches
                    ApiError::InvalidInput(m) && m@ == "Cannot cancel task with status: "@
                    + t0.status.spec_label() && *final(self) == *old(self)))
                &&& (!is_terminal(t0.status) ==> r is Ok && exists|now: i64|
                    cancel_effect(*old(self), *final(self), task_id@, now))
            },
    {
        let now = now_millis();
        self.cancel_task_at(task_id, now)
    }

    /// Read one task.
    pub fn get_task(&self, task_id: &str) -> (r: Result<TaskResponse, ApiError>)
        ensures
            match r {
                Ok(resp) => spec_contains_id(self.store.tasks@, task_id@) && {
                    let t = spec_find(self.store.tasks@, task_id@)->Some_0;
                    &&& resp.id == t.id
                    &&& resp.task_type@ == t.task_type.spec_label()
                    &&& resp.status@ == t.status.spec_label()
                    &&& resp.progress == t.progress
                    &&& resp.error == t.error
                    &&& resp.output_path == t.output_path
                    &&& resp.created_at == t.created_at
                    &&& resp.updated_at == t.updated_at
                },
                Err(e) => e matches ApiError::TaskNotFound(m) && m@ == task_id@
                    && !spec_contains_id(self.store.tasks@, task_id@),
            },
    {
        match self.store.find_one(task_id) {
            Some(t) => Ok(task_to_response(&t)),
            None => Err(ApiError::TaskNotFound(task_id.to_owned())),
        }
    }
}

/// Pointwise match between rendered responses and the tasks they render.
pub open spec fn responses_match(rs: Seq<TaskResponse>, ts: Seq<Task>) -> bool {
    &&& rs.len() == ts.len()
    &&& forall|i: int|
        0 <= i < ts.len() ==> {
            let r = #[trigger] rs[i];
            let t = ts[i];
            &&& r.id == t.id
            &&& r.task_type@ == t.task_type.spec_label()
            &&& r.status@ == t.status.spec_label()
            &&& r.progress == t.progress
            &&& r.error == t.error
            &&& r.output_path == t.output_path
            &&& r.created_at == t.created_at
            &&& r.updated_at == t.updated_at
        }
}

/// Pointwise match between dashboard summaries and the tasks they render.
pub open spec fn summaries_match(rs: Seq<TaskSummary>, ts: Seq<Task>) -> bool {
    &&& rs.len() == ts.len()
    &&& forall|i: int|
        0 <= i < ts.len() ==> {
            let r = #[trigger] rs[i];
            let t = ts[i];
            &&& r.id == t.id
            &&& r.task_type@ == t.task_type.spec_label()
            &&& r.status@ == t.status.spec_label()
            &&& r.progress == t.progress
            &&& r.created_at == t.created_at
            &&& r.updated_at == t.updated_at
            &&& r.error == t.error
        }
}

/// The record filter a listing request denotes: no filter, one status, or —
/// for an unknown status name — a filter that matches nothing.
pub open spec fn spec_list_filter(sf: Option<String>) -> Option<Option<TaskStatus>> {
    match sf {
        None => Some(None),
        Some(s) => match spec_parse_task_status(s@) {
            Some(st) => Some(Some(st)),
            None => None,
        },
    }
}

impl SystemModel {
    /// One page of the listing: the records passing the status filter,
    /// newest first, clipped to `[skip, skip + limit)`.
    pub fn list_tasks(&self, status_filter: &Option<String>, limit: i64, skip: u64) -> (r: Result<
        Vec<TaskResponse>,
        ApiError,
    >)
        ensures
            r matches Ok(rs) && match spec_list_filter(*status_filter) {
                None => rs@ == Seq::<TaskResponse>::empty(),
                Some(f) => exists|fv: Seq<Task>, sv: Seq<Task>|
                    {
                        &&& tasks_like(fv, filter_status(self.store.tasks@, f))
                        &&& #[trigger] sv.to_multiset() == #[trigger] fv.to_multiset()
                        &&& sorted_desc(sv)
                        &&& responses_match(rs@, page_of(sv, limit, skip))
                    },
            },
    {
        let f: Option<TaskStatus> = match status_filter {
            None => None,
            Some(s) => match parse_task_status(s.as_str()) {
                Some(st) => Some(st),
                None => {
                    return Ok(Vec::new());
                }
            },
        };
        let page = self.store.list_page(f, limit, skip);
        let ghost (fv, sv) = choose|fv: Seq<Task>, sv: Seq<Task>|
            {
                &&& tasks_like(fv, filter_status(self.store.tasks@, f))
                &&& #[trigger] sv.to_multiset() == #[trigger] fv.to_multiset()
                &&& sorted_desc(sv)
                &&& page@ == page_of(sv, limit, skip)
            };
        let mut out: Vec<TaskResponse> = Vec::new();
        let mut i: usize = 0;
        while i < page.len()
            invariant
                i <= page.len(),
                responses_match(out@, page@.take(i as int)),
            decreases page.len() - i,
        {
            proof {
                assert(page@.take(i + 1).drop_last() =~= page@.take(i as int));
            }
            out.push(task_to_response(&page[i]));
            i = i + 1;
        }
        proof {
            assert(page@.take(page@.len() as int) =~= page@);
        }
        Ok(out)
    }

    /// The dashboard's recent-task list: the newest records, at most 50.
    pub fn get_recent_tasks(&self) -> (r: Vec<TaskSummary>)
        ensures
            exists|fv: Seq<Task>, sv: Seq<Task>|
                {
                    &&& tasks_like(fv, filter_status(self.store.tasks@, None))
                    &&& #[trigger] sv.to_multiset() == #[trigger] fv.to_multiset()
                    &&& sorted_desc(sv)
                    &&& summaries_match(r@, page_of(sv, 50, 0))
                },
    {
        let page = self.store.list_page(None, 50, 0);
        let mut out: Vec<TaskSummary> = Vec::new();
        let mut i: usize = 0;
        while i < page.len()
            invariant
                i <= page.len(),
                summaries_match(out@, page@.take(i as int)),
            decreases page.len() - i,
        {
            proof {
                assert(page@.take(i + 1).drop_last() =~= page@.take(i as int));
            }
            out.push(task_to_summary(&page[i]));
            i = i + 1;
        }
        proof {
            assert(page@.take(page@.len() as int) =~= page@);
        }
        out
    }

    /// The lengths of the three queues.
    pub fn get_queue_lengths(&self) -> (r: QueueLengths)
        ensures
            r.video == self.queue_seq(TaskType::VideoCompression).len(),
            r.audio == self.queue_seq(TaskType::AudioProcessing).len(),
            r.image == self.queue_seq(TaskType::ImageOptimization).len(),
    {
        QueueLengths {
            video: self.video_queue.len() as u64,
            audio: self.audio_queue.len() as u64,
            image: self.image_queue.len() as u64,
        }
    }

    /// The aggregate counts the dashboard shows.
    pub fn get_stats(&self) -> (r: DashboardStats)
        ensures
            r.total_tasks == self.store.tasks@.len(),
            r.pending_tasks == count_status(self.store.tasks@, TaskStatus::Pending),
            r.processing_tasks == count_status(self.store.tasks@, TaskStatus::Processing),
            r.completed_tasks == count_status(self.store.tasks@, TaskStatus::Completed),
            r.failed_tasks == count_status(self.store.tasks@, TaskStatus::Failed),
            r.cancelled_tasks == count_status(self.store.tasks@, TaskStatus::Cancelled),
            r.queue_lengths.video == self.queue_seq(TaskType::VideoCompression).len(),
            r.queue_lengths.audio == self.queue_seq(TaskType::AudioProcessing).len(),
            r.queue_lengths.image == self.queue_seq(TaskType::ImageOptimization).len(),
    {
        DashboardStats {
            total_tasks: self.store.len() as u64,
            pending_tasks: self.store.count_by_status(TaskStatus::Pending) as u64,
            processing_tasks: self.store.count_by_status(TaskStatus::Processing) as u64,
            completed_tasks: self.store.count_by_status(TaskStatus::Completed) as u64,
            failed_tasks: self.store.count_by_status(TaskStatus::Failed) as u64,
            cancelled_tasks: self.store.count_by_status(TaskStatus::Cancelled) as u64,
            queue_lengths: self.get_queue_lengths(),
        }
    }

    /// Overwrite the counters with counts taken from the durable store: all
    /// records as created, and the completed, failed and cancelled counts.
    pub fn sync_metrics(&mut self)
        ensures
            final(self).store == old(self).store,
            final(self).video_queue == old(self).video_queue,
            final(self).audio_queue == old(self).audio_queue,
            final(self).image_queue == old(self).image_queue,
            final(self).metrics.tasks_created == old(self).store.tasks@.len(),
            final(self).metrics.tasks_completed == count_status(
                old(self).store.tasks@,
                TaskStatus::Completed,
            ),
            final(self).metrics.tasks_failed == count_status(
                old(self).store.tasks@,
                TaskStatus::Failed,
            ),
            final(self).metrics.tasks_cancelled == count_status(
                old(self).store.tasks@,
                TaskStatus::Cancelled,
            ),
            old(self).inv() ==> final(self).inv(),
    {
        let created = self.store.len() as u64;
        let completed = self.store.count_by_status(TaskStatus::Completed) as u64;
        let failed = self.store.count_by_status(TaskStatus::Failed) as u64;
        let cancelled = self.store.count_by_status(TaskStatus::Cancelled) as u64;
        self.metrics.reset_all();
        self.metrics.set_created(created);
        self.metrics.set_completed(completed);
        self.metrics.set_failed(failed);
        self.metrics.set_cancelled(cancelled);
    }
}

} // verus!
