use media_queue::dto::{default_limit, ApiResponse, CreateTaskDto, CreateTaskResponse, ListTasksQuery, TaskOptionsDto};
use media_queue::error::ApiError;
use media_queue::media::{MediaFile, MediaType};
use media_queue::metrics::Metrics;
use media_queue::numeric::format_u32;
use media_queue::processors::{
    AudioProcessor, ImageProcessor, TaskProcessor, VideoProcessor,
};
use media_queue::pubsub::{cancel_channel_name, cancel_task_id_from_channel, TaskCommand};
use media_queue::queue::TaskQueue;
use media_queue::service::{
    add_options_to_metadata, parse_task_status, parse_task_type, task_to_response,
    task_type_to_media_type, validate_task_dto,
};
use media_queue::store::TaskStore;
use media_queue::task::{Task, TaskStatus, TaskType};

fn options() -> TaskOptionsDto {
    TaskOptionsDto::empty()
}

fn dto(task_type: &str) -> CreateTaskDto {
    CreateTaskDto {
        task_type: task_type.to_string(),
        file_path: "/in/a".to_string(),
        file_size: 1,
        original_name: "a".to_string(),
        mime_type: "x/y".to_string(),
        options: options(),
    }
}

fn task_of(task_type: TaskType) -> Task {
    let media = MediaFile::new(
        "f-1".to_string(),
        MediaType::Video,
        "/in/a.mp4".to_string(),
        9,
        "a.mp4".to_string(),
        "video/mp4".to_string(),
    );
    Task::with_id(task_type, media, "task-1".to_string(), 10)
}

#[test]
fn validate_accepts_the_three_types_and_rejects_others() {
    assert!(validate_task_dto(&dto("video")).is_ok());
    assert!(validate_task_dto(&dto("audio")).is_ok());
    assert!(validate_task_dto(&dto("image")).is_ok());
    assert!(matches!(
        validate_task_dto(&dto("pdf")),
        Err(ApiError::InvalidInput(_))
    ));
    let mut d = dto("video");
    d.file_path = String::new();
    let e = validate_task_dto(&d).unwrap_err();
    assert!(matches!(e, ApiError::InvalidInput(_)));
    assert_eq!(e.message(), "file_path cannot be empty");
}

#[test]
fn quality_bound_applies_to_images_only() {
    let mut d = dto("image");
    d.options.quality = Some(101);
    let e = validate_task_dto(&d).unwrap_err();
    assert_eq!(e.message(), "Image quality must be between 0-100");
    d.options.quality = Some(100);
    assert!(validate_task_dto(&d).is_ok());
    // The bound is an image rule; other types carry quality through.
    let mut d = dto("video");
    d.options.quality = Some(200);
    assert!(validate_task_dto(&d).is_ok());
}

#[test]
fn parse_task_type_maps_wire_names() {
    assert!(matches!(parse_task_type("video"), Ok(TaskType::VideoCompression)));
    assert!(matches!(parse_task_type("audio"), Ok(TaskType::AudioProcessing)));
    assert!(matches!(parse_task_type("image"), Ok(TaskType::ImageOptimization)));
    assert!(matches!(parse_task_type("gif"), Err(ApiError::InvalidInput(_))));
}

#[test]
fn parse_task_status_maps_wire_names() {
    assert_eq!(parse_task_status("pending"), Some(TaskStatus::Pending));
    assert_eq!(parse_task_status("processing"), Some(TaskStatus::Processing));
    assert_eq!(parse_task_status("completed"), Some(TaskStatus::Completed));
    assert_eq!(parse_task_status("failed"), Some(TaskStatus::Failed));
    assert_eq!(parse_task_status("cancelled"), Some(TaskStatus::Cancelled));
    assert_eq!(parse_task_status("cancelling"), Some(TaskStatus::Cancelling));
    assert_eq!(parse_task_status("Pending"), None);
}

#[test]
fn media_types_mirror_task_types() {
    assert_eq!(task_type_to_media_type(&TaskType::VideoCompression), MediaType::Video);
    assert_eq!(task_type_to_media_type(&TaskType::AudioProcessing), MediaType::Audio);
    assert_eq!(task_type_to_media_type(&TaskType::ImageOptimization), MediaType::Image);
}

#[test]
fn recognised_options_are_copied_in_order_with_decimal_values() {
    let mut o = options();
    o.video_codec = Some("libx264".to_string());
    o.sample_rate = Some(48000);
    o.quality = Some(85);
    o.max_width = Some(1920);
    o.max_height = Some(1080);
    let mut metadata: Vec<(String, String)> = Vec::new();
    add_options_to_metadata(&mut metadata, &o);
    assert_eq!(
        metadata,
        vec![
            ("video_codec".to_string(), "libx264".to_string()),
            ("sample_rate".to_string(), "48000".to_string()),
            ("quality".to_string(), "85".to_string()),
            ("max_width".to_string(), "1920".to_string()),
            ("max_height".to_string(), "1080".to_string()),
        ]
    );
}

#[test]
fn format_u32_renders_exact_decimals() {
    assert_eq!(format_u32(0), "0");
    assert_eq!(format_u32(7), "7");
    assert_eq!(format_u32(10), "10");
    assert_eq!(format_u32(48000), "48000");
    assert_eq!(format_u32(4294967295), "4294967295");
}

#[test]
fn task_to_response_copies_the_record() {
    let mut t = task_of(TaskType::VideoCompression);
    t.update_status(TaskStatus::Processing, 20);
    t.update_progress(250, 30);
    let r = task_to_response(&t);
    assert_eq!(r.id, "task-1");
    assert_eq!(r.task_type, "video");
    assert_eq!(r.status, "processing");
    assert_eq!(r.progress, 250);
    assert_eq!(r.created_at, 10);
    assert_eq!(r.updated_at, 30);
    assert_eq!(r.error, None);
    assert_eq!(r.output_path, None);
}

#[test]
fn cancel_channel_names_round_trip() {
    let ch = cancel_channel_name("abc-123");
    assert_eq!(ch, "task:cancel:abc-123");
    assert_eq!(cancel_task_id_from_channel(&ch), Some("abc-123".to_string()));
    assert_eq!(cancel_task_id_from_channel("task:cancel:"), Some(String::new()));
    assert_eq!(cancel_task_id_from_channel("task:other:abc"), None);
    assert_eq!(cancel_task_id_from_channel("short"), None);
}

#[test]
fn task_command_names_its_task() {
    let c = TaskCommand::Cancel { task_id: "t-9".to_string() };
    assert_eq!(c.task_id(), "t-9");
    let p = TaskCommand::Pause { task_id: "t-a".to_string() };
    assert_eq!(p.task_id(), "t-a");
    let r = TaskCommand::Resume { task_id: "t-b".to_string() };
    assert_eq!(r.task_id(), "t-b");
}

#[test]
fn video_processor_completes_with_compressed_output() {
    let p = VideoProcessor::new("/out".to_string());
    let mut t = task_of(TaskType::VideoCompression);
    p.process(&mut t, None, 40).expect("no cancellation");
    assert_eq!(t.status, TaskStatus::Completed);
    assert_eq!(t.progress, 1000);
    assert_eq!(t.output_path, Some("/out/task-1_compressed.mp4".to_string()));
    assert!(t.started_at.is_some());
    assert!(t.completed_at.is_some());
}

#[test]
fn video_processor_stops_on_the_cancel_step() {
    let p = VideoProcessor::new("/out".to_string());
    let mut t = task_of(TaskType::VideoCompression);
    let e = p.process(&mut t, Some(50), 40).unwrap_err();
    assert_eq!(e, "Task cancelled");
    assert_eq!(t.status, TaskStatus::Cancelled);
    assert!(t.output_path.is_none());
}

#[test]
fn audio_processor_uses_the_requested_format() {
    let p = AudioProcessor::new("/out".to_string());
    let mut t = task_of(TaskType::AudioProcessing);
    t.media.add_metadata("audio_format".to_string(), "wav".to_string());
    p.process(&mut t, None, 40).unwrap();
    assert_eq!(t.output_path, Some("/out/task-1_processed.wav".to_string()));

    let mut t2 = task_of(TaskType::AudioProcessing);
    p.process(&mut t2, None, 40).unwrap();
    assert_eq!(t2.output_path, Some("/out/task-1_processed.mp3".to_string()));
}

#[test]
fn image_processor_has_20_steps_and_a_default_format() {
    let p = ImageProcessor::new("/out".to_string());
    let mut t = task_of(TaskType::ImageOptimization);
    // Step 21 is past the loop: the task completes before the flag is seen.
    p.process(&mut t, Some(21), 40).unwrap();
    assert_eq!(t.output_path, Some("/out/task-1_optimized.jpg".to_string()));

    let mut t2 = task_of(TaskType::ImageOptimization);
    let e = p.process(&mut t2, Some(20), 40).unwrap_err();
    assert_eq!(e, "Task cancelled");
}

#[test]
fn queue_pushes_at_the_head_and_pops_at_the_tail() {
    let mut q = TaskQueue::new();
    assert!(q.pop_back().is_none());
    q.push_front(task_of(TaskType::VideoCompression));
    let mut second = task_of(TaskType::VideoCompression);
    second.id = "task-2".to_string();
    q.push_front(second);
    assert_eq!(q.len(), 2);
    assert_eq!(q.pop_back().unwrap().id, "task-1");
    assert_eq!(q.pop_back().unwrap().id, "task-2");
}

#[test]
fn queue_scrub_removes_one_matching_snapshot() {
    let mut q = TaskQueue::new();
    q.push_front(task_of(TaskType::VideoCompression));
    let mut second = task_of(TaskType::VideoCompression);
    second.id = "task-2".to_string();
    q.push_front(second);
    assert!(!q.remove_first_by_id("task-9"));
    assert!(q.remove_first_by_id("task-1"));
    assert_eq!(q.len(), 1);
    assert!(!q.remove_first_by_id("task-1"));
    assert_eq!(q.pop_back().unwrap().id, "task-2");
}

#[test]
fn metrics_count_set_and_reset() {
    let mut m = Metrics::new();
    m.increment_created();
    m.increment_created();
    m.increment_completed();
    m.increment_failed();
    m.increment_cancelled();
    assert_eq!(m.get_created(), 2);
    assert_eq!(m.get_completed(), 1);
    assert_eq!(m.get_failed(), 1);
    assert_eq!(m.get_cancelled(), 1);
    m.set_created(10);
    m.set_completed(20);
    m.set_failed(30);
    m.set_cancelled(40);
    assert_eq!(m.get_created(), 10);
    assert_eq!(m.get_cancelled(), 40);
    m.reset_all();
    assert_eq!(m.get_created(), 0);
    assert_eq!(m.get_completed(), 0);
    assert_eq!(m.get_failed(), 0);
    assert_eq!(m.get_cancelled(), 0);
}

#[test]
fn api_response_wraps_success_and_error() {
    let ok: ApiResponse<u32> = ApiResponse::success(7);
    assert!(ok.success);
    assert_eq!(ok.data, Some(7));
    assert!(ok.message.is_none());
    let err: ApiResponse<u32> = ApiResponse::error("bad".to_string());
    assert!(!err.success);
    assert!(err.data.is_none());
    assert_eq!(err.message, Some("bad".to_string()));
    assert_eq!(default_limit(), 50);
}

#[test]
fn store_insert_then_find_returns_the_record() {
    let mut store = TaskStore::new();
    let task = task_of(TaskType::VideoCompression);
    let id = task.id.clone();
    store.insert_one(task);
    let found = store.find_one(&id).expect("inserted record is found");
    assert_eq!(found.id, id);
    assert_eq!(found.status, TaskStatus::Pending);
    assert!(store.find_one("missing").is_none());
    assert_eq!(store.len(), 1);
}

#[test]
fn request_and_response_envelopes_hold_their_fields() {
    let q = ListTasksQuery { status: Some("pending".to_string()), limit: default_limit(), skip: 0 };
    assert_eq!(q.limit, 50);
    assert_eq!(q.status.as_deref(), Some("pending"));
    let r = CreateTaskResponse {
        success: true,
        task_id: "t-1".to_string(),
        message: "Task created and queued successfully".to_string(),
    };
    assert!(r.success);
    assert_eq!(r.task_id, "t-1");
}

#[test]
fn every_error_variant_carries_its_message() {
    assert_eq!(ApiError::InvalidInput("a".to_string()).message(), "a");
    assert_eq!(ApiError::TaskNotFound("b".to_string()).message(), "b");
    assert_eq!(ApiError::DatabaseError("c".to_string()).message(), "c");
    assert_eq!(ApiError::RedisError("d".to_string()).message(), "d");
    assert_eq!(ApiError::InternalError("e".to_string()).message(), "e");
    assert_eq!(ApiError::SerializationError("f".to_string()).message(), "f");
}
