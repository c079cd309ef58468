use media_queue::media::{MediaFile, MediaType};
use media_queue::task::{Task, TaskStatus, TaskType};

fn test_media() -> MediaFile {
    MediaFile::new(
        "test-123".to_string(),
        MediaType::Video,
        "/path/to/video.mp4".to_string(),
        1024000,
        "video.mp4".to_string(),
        "video/mp4".to_string(),
    )
}

#[test]
fn test_task_creation() {
    let media = test_media();

    let task = Task::new(TaskType::VideoCompression, media);

    assert_eq!(task.status, TaskStatus::Pending);
    assert_eq!(task.progress, 0);
    assert_eq!(task.retry_count, 0);
    assert!(task.error.is_none());
}

#[test]
fn test_task_status_update() {
    let media = test_media();

    let mut task = Task::new(TaskType::VideoCompression, media);

    task.update_status(TaskStatus::Processing, 1_000);
    assert_eq!(task.status, TaskStatus::Processing);
    assert!(task.started_at.is_some());

    task.update_status(TaskStatus::Completed, 2_000);
    assert_eq!(task.status, TaskStatus::Completed);
    assert!(task.completed_at.is_some());
}

#[test]
fn test_task_progress_update() {
    let media = test_media();

    let mut task = Task::new(TaskType::VideoCompression, media);

    task.update_progress(500, 1_000);
    assert_eq!(task.progress, 500);

    // Values above the scale clamp down, negatives clamp up.
    task.update_progress(1_500, 2_000);
    assert_eq!(task.progress, 1_000);

    task.update_progress(-500, 3_000);
    assert_eq!(task.progress, 0);
}

#[test]
fn test_task_retry_logic() {
    let media = test_media();

    let mut task = Task::new(TaskType::VideoCompression, media);

    assert!(task.can_retry());

    task.mark_failed("Test error".to_string(), 1_000);
    assert_eq!(task.retry_count, 1);
    assert!(task.can_retry());

    task.mark_failed("Test error 2".to_string(), 2_000);
    task.mark_failed("Test error 3".to_string(), 3_000);
    assert_eq!(task.retry_count, 3);
    assert!(!task.can_retry());
}

#[test]
fn task_new_assigns_36_char_id_and_equal_stamps() {
    let task = Task::new(TaskType::AudioProcessing, test_media());
    assert_eq!(task.id.chars().count(), 36);
    assert_eq!(task.created_at, task.updated_at);
    assert!(task.started_at.is_none());
    assert!(task.completed_at.is_none());
    assert_eq!(task.max_retries, 3);
}

#[test]
fn started_and_completion_stamps_are_never_rewritten() {
    let mut task = Task::with_id(
        TaskType::ImageOptimization,
        test_media(),
        "fixed-id".to_string(),
        50,
    );
    task.update_status(TaskStatus::Processing, 60);
    assert_eq!(task.started_at, Some(60));
    task.update_status(TaskStatus::Pending, 70);
    task.update_status(TaskStatus::Processing, 80);
    assert_eq!(task.started_at, Some(60));
    task.update_status(TaskStatus::Cancelled, 90);
    assert_eq!(task.completed_at, Some(90));
    task.update_status(TaskStatus::Completed, 100);
    assert_eq!(task.completed_at, Some(90));
}

#[test]
fn status_labels_use_wire_names() {
    assert_eq!(TaskStatus::Pending.as_str(), "pending");
    assert_eq!(TaskStatus::Processing.as_str(), "processing");
    assert_eq!(TaskStatus::Completed.as_str(), "completed");
    assert_eq!(TaskStatus::Failed.as_str(), "failed");
    assert_eq!(TaskStatus::Cancelled.as_str(), "cancelled");
    assert_eq!(TaskStatus::Cancelling.as_str(), "cancelling");
    assert_eq!(TaskType::VideoCompression.as_str(), "video");
    assert_eq!(TaskType::AudioProcessing.as_str(), "audio");
    assert_eq!(TaskType::ImageOptimization.as_str(), "image");
}
