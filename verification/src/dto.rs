//! Request and response shapes of the task lifecycle operations.
//!
//! Timestamps in responses are milliseconds since the Unix epoch and
//! `progress` is in thousandths, as in the task entity itself.

use vstd::prelude::*;

verus! {

/// A request to create a new task.
#[derive(Debug)]
pub struct CreateTaskDto {
    pub task_type: String,
    pub file_path: String,
    pub file_size: u64,
    pub original_name: String,
    pub mime_type: String,
    pub options: TaskOptionsDto,
}

/// Processing options; recognised keys are copied into the media metadata.
#[derive(Debug)]
pub struct TaskOptionsDto {
    pub video_codec: Option<String>,
    pub resolution: Option<String>,
    pub bitrate: Option<String>,
    pub audio_format: Option<String>,
    pub sample_rate: Option<u32>,
    pub image_format: Option<String>,
    pub quality: Option<u8>,
    pub max_width: Option<u32>,
    pub max_height: Option<u32>,
}

impl TaskOptionsDto {
    /// An options bag with nothing set.
    pub fn empty() -> (r: TaskOptionsDto)
        ensures
            r.video_codec is None,
            r.resolution is None,
            r.bitrate is None,
            r.audio_format is None,
            r.sample_rate is None,
            r.image_format is None,
            r.quality is None,
            r.max_width is None,
            r.max_height is None,
    {
        TaskOptionsDto {
            video_codec: None,
            resolution: None,
            bitrate: None,
            audio_format: None,
            sample_rate: None,
            image_format: None,
            quality: None,
            max_width: None,
            max_height: None,
        }
    }
}

/// A task as reported to clients.
#[derive(Debug)]
pub struct TaskResponse {
    pub id: String,
    pub task_type: String,
    pub status: String,
    pub progress: u32,
    pub error: Option<String>,
    pub output_path: Option<String>,
    pub created_at: i64,
    pub updated_at: i64,
}

/// The answer to a successful creation request.
#[derive(Debug)]
pub struct CreateTaskResponse {
    pub success: bool,
    pub task_id: String,
    pub message: String,
}

/// A generic envelope around a payload or an error message.
#[derive(Debug)]
pub struct ApiResponse<T> {
    pub success: bool,
    pub data: Option<T>,
    pub message: Option<String>,
}

impl<T> ApiResponse<T> {
    pub fn success(data: T) -> (r: Self)
        ensures
            r.success == true,
            r.data == Some(data),
            r.message is None,
    {
        ApiResponse { success: true, data: Some(data), message: None }
    }

    pub fn error(message: String) -> (r: Self)
        ensures
            r.success == false,
            r.data is None,
            r.message == Some(message),
    {
        ApiResponse { success: false, data: None, message: Some(message) }
    }
}

/// Query parameters of the listing endpoint.
#[derive(Debug)]
pub struct ListTasksQuery {
    pub status: Option<String>,
    pub limit: i64,
    pub skip: u64,
}

/// The listing page size when the request names none.
pub fn default_limit() -> (r: i64)
    ensures
        r == 50,
{
    50
}

/// Aggregate counts shown on the dashboard.
#[derive(Debug)]
pub struct DashboardStats {
    pub total_tasks: u64,
    pub pending_tasks: u64,
    pub processing_tasks: u64,
    pub completed_tasks: u64,
    pub failed_tasks: u64,
    pub cancelled_tasks: u64,
    pub queue_lengths: QueueLengths,
}

/// How many snapshots wait in each queue.
#[derive(Debug)]
pub struct QueueLengths {
    pub video: u64,
    pub audio: u64,
    pub image: u64,
}

/// A compact task line for the dashboard's recent-task list.
#[derive(Debug)]
pub struct TaskSummary {
    pub id: String,
    pub task_type: String,
    pub status: String,
    pub progress: u32,
    pub created_at: i64,
    pub updated_at: i64,
    pub error: Option<String>,
}

} // verus!
