use media_queue::dto::{CreateTaskDto, TaskOptionsDto};
use media_queue::engine::{preflight, AttemptEvent, AttemptOutcome, ConcludeAction, PreflightOutcome, StepResult};
use media_queue::error::ApiError;
use media_queue::model::SystemModel;
use media_queue::processors::VideoProcessor;
use media_queue::task::{TaskStatus, TaskType};

fn dto(task_type: &str, file_path: &str) -> CreateTaskDto {
    CreateTaskDto {
        task_type: task_type.to_string(),
        file_path: file_path.to_string(),
        file_size: 1,
        original_name: "a.mp4".to_string(),
        mime_type: "video/mp4".to_string(),
        options: TaskOptionsDto::empty(),
    }
}

#[test]
fn happy_path_video_runs_to_completion() {
    let mut m = SystemModel::new();
    let mut d = dto("video", "/in/a.mp4");
    d.options.video_codec = Some("libx264".to_string());
    let id = m.create_task(&d).expect("submission should be accepted");

    let resp = m.get_task(&id).expect("record exists");
    assert_eq!(resp.status, "pending");
    assert_eq!(resp.progress, 0);

    let proc = VideoProcessor::new("/out".to_string());
    let r = m.process_next_task(&proc, &TaskType::VideoCompression, AttemptOutcome::Completes, 500);
    assert_eq!(r, StepResult::CompletedTask);

    let resp = m.get_task(&id).expect("record exists");
    assert_eq!(resp.status, "completed");
    assert_eq!(resp.progress, 1000);
    let out = resp.output_path.expect("output path set on completion");
    assert!(out.ends_with("_compressed.mp4"));
    assert!(out.starts_with("/out/"));
}

#[test]
fn durable_record_shows_processing_during_the_attempt() {
    let mut m = SystemModel::new();
    let id = m.create_task(&dto("video", "/in/a.mp4")).unwrap();

    let mut snap = m
        .worker_dequeue(&TaskType::VideoCompression)
        .expect("one snapshot queued");
    assert_eq!(snap.id, id);
    m.worker_begin(&mut snap, 700);

    let rec = m.store.find_one(&id).expect("record exists");
    assert_eq!(rec.status, TaskStatus::Processing);
    assert!(rec.started_at.is_some());

    m.update_task_progress(&id, 500, 800);
    let rec = m.store.find_one(&id).expect("record exists");
    assert_eq!(rec.progress, 500);
    assert_eq!(rec.status, TaskStatus::Processing);
}

#[test]
fn unknown_task_type_is_rejected_with_no_record_and_no_queue_entry() {
    let mut m = SystemModel::new();
    let e = m.create_task(&dto("pdf", "/in/doc.pdf")).unwrap_err();
    assert!(matches!(e, ApiError::InvalidInput(_)));
    assert_eq!(m.store.len(), 0);
    assert_eq!(m.get_queue_lengths().video, 0);
    assert_eq!(m.get_queue_lengths().audio, 0);
    assert_eq!(m.get_queue_lengths().image, 0);
    assert_eq!(m.metrics.get_created(), 0);
}

#[test]
fn image_quality_above_100_is_rejected() {
    let mut m = SystemModel::new();
    let mut d = dto("image", "/in/pic.png");
    d.options.quality = Some(150);
    let e = m.create_task(&d).unwrap_err();
    assert!(matches!(e, ApiError::InvalidInput(_)));
    assert_eq!(m.store.len(), 0);
}

#[test]
fn image_quality_at_100_is_accepted() {
    let mut m = SystemModel::new();
    let mut d = dto("image", "/in/pic.png");
    d.options.quality = Some(100);
    assert!(m.create_task(&d).is_ok());
}

#[test]
fn empty_file_path_is_rejected() {
    let mut m = SystemModel::new();
    let e = m.create_task(&dto("audio", "")).unwrap_err();
    assert!(matches!(e, ApiError::InvalidInput(_)));
}

#[test]
fn cancel_before_dispatch_scrubs_queue_and_counts() {
    let mut m = SystemModel::new();
    let id = m.create_task(&dto("audio", "/in/a.wav")).unwrap();
    assert_eq!(m.get_queue_lengths().audio, 1);

    m.cancel_task(&id).expect("cancellable");

    let rec = m.store.find_one(&id).expect("record exists");
    assert_eq!(rec.status, TaskStatus::Cancelled);
    assert!(rec.completed_at.is_some());
    assert_eq!(m.get_queue_lengths().audio, 0);
    assert_eq!(m.metrics.get_cancelled(), 1);
}

#[test]
fn cancel_in_flight_goes_through_cancelling_and_the_worker_finalises() {
    let mut m = SystemModel::new();
    let id = m.create_task(&dto("video", "/in/a.mp4")).unwrap();

    // The worker has taken the snapshot: the queue can no longer be scrubbed.
    let mut snap = m.worker_dequeue(&TaskType::VideoCompression).unwrap();
    m.worker_begin(&mut snap, 100);
    m.update_task_progress(&id, 500, 150);

    m.cancel_task(&id).expect("cancellable");
    let rec = m.store.find_one(&id).unwrap();
    assert_eq!(rec.status, TaskStatus::Cancelling);

    // The cancellation signal reaches the worker, which finalises the task.
    let a = m.worker_conclude(&mut snap, AttemptEvent::CancelSignal(id.clone()), 200);
    assert_eq!(a, ConcludeAction::CancelledTask);
    let rec = m.store.find_one(&id).unwrap();
    assert_eq!(rec.status, TaskStatus::Cancelled);
    assert!(rec.completed_at.is_some());

    // The next task is picked up normally.
    let id2 = m.create_task(&dto("video", "/in/b.mp4")).unwrap();
    let proc = VideoProcessor::new("/out".to_string());
    let r = m.process_next_task(&proc, &TaskType::VideoCompression, AttemptOutcome::Completes, 300);
    assert_eq!(r, StepResult::CompletedTask);
    assert_eq!(m.get_task(&id2).unwrap().status, "completed");
}

#[test]
fn signal_for_another_task_is_dropped() {
    let mut m = SystemModel::new();
    let id = m.create_task(&dto("video", "/in/a.mp4")).unwrap();
    let mut snap = m.worker_dequeue(&TaskType::VideoCompression).unwrap();
    m.worker_begin(&mut snap, 100);
    let a = m.worker_conclude(
        &mut snap,
        AttemptEvent::CancelSignal("someone-else".to_string()),
        200,
    );
    assert_eq!(a, ConcludeAction::Ignored);
    assert_eq!(m.store.find_one(&id).unwrap().status, TaskStatus::Processing);
}

#[test]
fn failing_processor_retries_then_fails_with_exhausted_budget() {
    let mut m = SystemModel::new();
    let id = m.create_task(&dto("video", "/in/a.mp4")).unwrap();
    let proc = VideoProcessor::new("/out".to_string());

    let r = m.process_next_task(
        &proc,
        &TaskType::VideoCompression,
        AttemptOutcome::Fails("boom".to_string()),
        100,
    );
    assert_eq!(r, StepResult::Requeued);
    let r = m.process_next_task(
        &proc,
        &TaskType::VideoCompression,
        AttemptOutcome::Fails("boom".to_string()),
        200,
    );
    assert_eq!(r, StepResult::Requeued);
    let r = m.process_next_task(
        &proc,
        &TaskType::VideoCompression,
        AttemptOutcome::Fails("boom".to_string()),
        300,
    );
    assert_eq!(r, StepResult::FailedTask);

    let rec = m.store.find_one(&id).unwrap();
    assert_eq!(rec.status, TaskStatus::Failed);
    assert_eq!(rec.retry_count, 3);
    assert_eq!(rec.max_retries, 3);
    assert_eq!(rec.error, Some("boom".to_string()));
    assert!(rec.completed_at.is_some());
    assert_eq!(m.get_queue_lengths().video, 0);
}

#[test]
fn requeue_strictly_increases_the_retry_count() {
    let mut m = SystemModel::new();
    let _id = m.create_task(&dto("video", "/in/a.mp4")).unwrap();
    let snap0 = m.worker_dequeue(&TaskType::VideoCompression).unwrap();
    let retry0 = snap0.retry_count;
    let mut snap = snap0;
    m.worker_begin(&mut snap, 100);
    let a = m.worker_conclude(
        &mut snap,
        AttemptEvent::Finished(Err("disk full".to_string())),
        200,
    );
    assert_eq!(a, ConcludeAction::Requeued);
    let requeued = m.worker_dequeue(&TaskType::VideoCompression).unwrap();
    assert!(requeued.retry_count > retry0);
    assert_eq!(requeued.retry_count, retry0 + 1);
    assert_eq!(requeued.status, TaskStatus::Pending);
    assert_eq!(requeued.error, Some("disk full".to_string()));
}

#[test]
fn queue_is_fifo_per_type_for_a_solo_worker() {
    let mut m = SystemModel::new();
    let id_a = m.create_task(&dto("video", "/in/a.mp4")).unwrap();
    let id_b = m.create_task(&dto("video", "/in/b.mp4")).unwrap();

    let first = m.worker_dequeue(&TaskType::VideoCompression).unwrap();
    let second = m.worker_dequeue(&TaskType::VideoCompression).unwrap();
    assert_eq!(first.id, id_a);
    assert_eq!(second.id, id_b);
    assert!(m.worker_dequeue(&TaskType::VideoCompression).is_none());
}

#[test]
fn submitting_n_tasks_yields_n_records_and_n_queue_entries() {
    let mut m = SystemModel::new();
    for i in 0..3 {
        let d = dto("image", &format!("/in/p{}.png", i));
        m.create_task(&d).unwrap();
    }
    assert_eq!(m.store.len(), 3);
    assert_eq!(m.get_queue_lengths().image, 3);
    assert_eq!(m.get_queue_lengths().video, 0);
    assert_eq!(m.metrics.get_created(), 3);
}

#[test]
fn cancelling_a_cancelled_task_is_an_invalid_state() {
    let mut m = SystemModel::new();
    let id = m.create_task(&dto("audio", "/in/a.wav")).unwrap();
    m.cancel_task(&id).unwrap();
    let before = m.store.find_one(&id).unwrap();
    let e = m.cancel_task(&id).unwrap_err();
    assert!(matches!(e, ApiError::InvalidInput(_)));
    assert_eq!(e.message(), "Cannot cancel task with status: cancelled");
    let after = m.store.find_one(&id).unwrap();
    assert_eq!(after.status, before.status);
    assert_eq!(after.updated_at, before.updated_at);
    assert_eq!(m.metrics.get_cancelled(), 1);
}

#[test]
fn cancelling_a_finished_task_is_rejected_and_a_missing_one_not_found() {
    let mut m = SystemModel::new();
    let id = m.create_task(&dto("video", "/in/a.mp4")).unwrap();
    let proc = VideoProcessor::new("/out".to_string());
    m.process_next_task(&proc, &TaskType::VideoCompression, AttemptOutcome::Completes, 100);
    let e = m.cancel_task(&id).unwrap_err();
    assert!(matches!(e, ApiError::InvalidInput(_)));
    let e = m.cancel_task("no-such-task").unwrap_err();
    assert!(matches!(e, ApiError::TaskNotFound(_)));
}

#[test]
fn get_task_misses_are_not_found() {
    let m = SystemModel::new();
    let e = m.get_task("missing").unwrap_err();
    assert!(matches!(e, ApiError::TaskNotFound(_)));
}

#[test]
fn listing_is_newest_first_with_limit_and_skip() {
    let mut m = SystemModel::new();
    let d = dto("video", "/in/a.mp4");
    m.create_task_with(&d, "id-1".to_string(), "f-1".to_string(), 100).unwrap();
    m.create_task_with(&d, "id-2".to_string(), "f-2".to_string(), 200).unwrap();
    m.create_task_with(&d, "id-3".to_string(), "f-3".to_string(), 300).unwrap();

    let all = m.list_tasks(&None, 50, 0).unwrap();
    let ids: Vec<&str> = all.iter().map(|r| r.id.as_str()).collect();
    assert_eq!(ids, vec!["id-3", "id-2", "id-1"]);

    let page = m.list_tasks(&None, 1, 1).unwrap();
    assert_eq!(page.len(), 1);
    assert_eq!(page[0].id, "id-2");

    let pending = m.list_tasks(&Some("pending".to_string()), 50, 0).unwrap();
    assert_eq!(pending.len(), 3);
    let completed = m.list_tasks(&Some("completed".to_string()), 50, 0).unwrap();
    assert!(completed.is_empty());
    let bogus = m.list_tasks(&Some("bogus".to_string()), 50, 0).unwrap();
    assert!(bogus.is_empty());
}

#[test]
fn listing_edges_clip_to_the_store() {
    let mut m = SystemModel::new();
    let d = dto("video", "/in/a.mp4");
    m.create_task_with(&d, "id-1".to_string(), "f-1".to_string(), 100).unwrap();

    assert!(m.list_tasks(&None, 0, 0).unwrap().is_empty());
    assert!(m.list_tasks(&None, -5, 0).unwrap().is_empty());
    assert!(m.list_tasks(&None, 50, 10).unwrap().is_empty());
    assert_eq!(m.list_tasks(&None, 50, 0).unwrap().len(), 1);
}

#[test]
fn cancelling_a_cancelling_task_re_signals() {
    let mut m = SystemModel::new();
    let id = m.create_task(&dto("video", "/in/a.mp4")).unwrap();
    let mut snap = m.worker_dequeue(&TaskType::VideoCompression).unwrap();
    m.worker_begin(&mut snap, 100);
    m.cancel_task(&id).unwrap();
    assert_eq!(m.store.find_one(&id).unwrap().status, TaskStatus::Cancelling);
    // A second request on a task still winding down is accepted again.
    m.cancel_task(&id).unwrap();
    assert_eq!(m.store.find_one(&id).unwrap().status, TaskStatus::Cancelling);
    assert_eq!(m.metrics.get_cancelled(), 2);
}

#[test]
fn preflight_reads_the_record_not_the_snapshot() {
    let mut m = SystemModel::new();
    let id = m.create_task(&dto("video", "/in/a.mp4")).unwrap();
    assert_eq!(preflight(&None), PreflightOutcome::MissingRecord);
    let rec = m.store.find_one(&id);
    assert_eq!(preflight(&rec), PreflightOutcome::Proceed);
    m.cancel_task(&id).unwrap();
    let rec = m.store.find_one(&id);
    assert_eq!(preflight(&rec), PreflightOutcome::AlreadyFinished);
}

#[test]
fn stats_and_recent_tasks_reflect_the_store() {
    let mut m = SystemModel::new();
    let id1 = m.create_task(&dto("video", "/in/a.mp4")).unwrap();
    let _id2 = m.create_task(&dto("audio", "/in/b.wav")).unwrap();
    let proc = VideoProcessor::new("/out".to_string());
    m.process_next_task(&proc, &TaskType::VideoCompression, AttemptOutcome::Completes, 100);

    let stats = m.get_stats();
    assert_eq!(stats.total_tasks, 2);
    assert_eq!(stats.pending_tasks, 1);
    assert_eq!(stats.completed_tasks, 1);
    assert_eq!(stats.failed_tasks, 0);
    assert_eq!(stats.cancelled_tasks, 0);
    assert_eq!(stats.queue_lengths.video, 0);
    assert_eq!(stats.queue_lengths.audio, 1);

    let recent = m.get_recent_tasks();
    assert_eq!(recent.len(), 2);
    assert!(recent.iter().any(|s| s.id == id1 && s.status == "completed"));
}

#[test]
fn sync_metrics_overwrites_counters_from_the_store() {
    let mut m = SystemModel::new();
    m.metrics.set_created(99);
    m.metrics.set_failed(42);
    let _ = m.create_task(&dto("video", "/in/a.mp4")).unwrap();
    let proc = VideoProcessor::new("/out".to_string());
    m.process_next_task(&proc, &TaskType::VideoCompression, AttemptOutcome::Completes, 100);
    m.sync_metrics();
    assert_eq!(m.metrics.get_created(), 1);
    assert_eq!(m.metrics.get_completed(), 1);
    assert_eq!(m.metrics.get_failed(), 0);
    assert_eq!(m.metrics.get_cancelled(), 0);
}

#[test]
fn empty_queue_yields_no_task_and_skipped_snapshots_are_discarded() {
    let mut m = SystemModel::new();
    let proc = VideoProcessor::new("/out".to_string());
    let r = m.process_next_task(&proc, &TaskType::VideoCompression, AttemptOutcome::Completes, 50);
    assert_eq!(r, StepResult::NoTask);

    // A cancellation arrives while the attempt is in flight, but the
    // processor errors first and the task is requeued: the next pop reads
    // the `Cancelling` record and discards the snapshot.
    let id = m.create_task(&dto("video", "/in/a.mp4")).unwrap();
    let mut snap = m.worker_dequeue(&TaskType::VideoCompression).unwrap();
    m.worker_begin(&mut snap, 55);
    m.cancel_task(&id).unwrap();
    let a = m.worker_conclude(&mut snap, AttemptEvent::Finished(Err("io".to_string())), 58);
    assert_eq!(a, ConcludeAction::Requeued);
    let r = m.process_next_task(&proc, &TaskType::VideoCompression, AttemptOutcome::Completes, 60);
    assert_eq!(r, StepResult::Skipped);
    assert_eq!(m.store.find_one(&id).unwrap().status, TaskStatus::Cancelling);
    assert!(m.worker_dequeue(&TaskType::VideoCompression).is_none());
}
