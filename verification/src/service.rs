//! Validation and conversion on the submission path.

use crate::dto::{CreateTaskDto, TaskOptionsDto, TaskResponse, TaskSummary};
use crate::error::ApiError;
use crate::media::MediaType;
use crate::numeric::{format_u32, spec_dec};
use crate::strutil::str_eq;
use crate::task::{Task, TaskStatus, TaskType};
use vstd::prelude::*;
use vstd::seq_lib::lemma_concat_associative;
use vstd::string::StringExecFns;

verus! {

/// The three task types a submission may name.
pub open spec fn known_task_type(s: Seq<char>) -> bool {
    s == "video"@ || s == "audio"@ || s == "image"@
}

/// A submission the system accepts: a known task type, a non-empty file
/// path, and for images a quality of at most 100 when one is given.
pub open spec fn spec_valid_dto(dto: CreateTaskDto) -> bool {
    &&& known_task_type(dto.task_type@)
    &&& dto.file_path@.len() > 0
    &&& ((dto.task_type@ == "image"@ && dto.options.quality is Some)
        ==> dto.options.quality->Some_0 <= 100)
}

/// Accept or reject a submission; rejection is always a client input error.
pub fn validate_task_dto(dto: &CreateTaskDto) -> (r: Result<(), ApiError>)
    ensures
        r is Ok <==> spec_valid_dto(*dto),
        r is Err ==> r->Err_0 is InvalidInput,
        !known_task_type(dto.task_type@) ==> (r matches Err(e) && e matches ApiError::InvalidInput(
            m,
        ) && m@ == "Invalid task_type: "@ + dto.task_type@
            + ". Must be 'video', 'audio', or 'image'"@),
        known_task_type(dto.task_type@) && dto.file_path@.len() == 0 ==> (r matches Err(e) && e
            matches ApiError::InvalidInput(m) && m@ == "file_path cannot be empty"@),
        known_task_type(dto.task_type@) && dto.file_path@.len() > 0 && !spec_valid_dto(*dto) ==> (r
            matches Err(e) && e matches ApiError::InvalidInput(m) && m@
            == "Image quality must be between 0-100"@),
{
    let is_video = str_eq(dto.task_type.as_str(), "video");
    let is_audio = str_eq(dto.task_type.as_str(), "audio");
    let is_image = str_eq(dto.task_type.as_str(), "image");
    if !(is_video || is_audio || is_image) {
        let mut msg: String = "Invalid task_type: ".to_owned();
        msg.append(dto.task_type.as_str());
        msg.append(". Must be 'video', 'audio', or 'image'");
        return Err(ApiError::InvalidInput(msg));
    }
    if dto.file_path.as_str().is_empty() {
        return Err(ApiError::InvalidInput("file_path cannot be empty".to_owned()));
    }
    if is_image {
        if let Some(quality) = dto.options.quality {
            if quality > 100 {
                return Err(
                    ApiError::InvalidInput("Image quality must be between 0-100".to_owned()),
                );
            }
        }
    }
    Ok(())
}

/// The task type named by its wire name.
pub open spec fn spec_parse_task_type(s: Seq<char>) -> Option<TaskType> {
    if s == "video"@ {
        Some(TaskType::VideoCompression)
    } else if s == "audio"@ {
        Some(TaskType::AudioProcessing)
    } else if s == "image"@ {
        Some(TaskType::ImageOptimization)
    } else {
        None
    }
}

pub fn parse_task_type(task_type: &str) -> (r: Result<TaskType, ApiError>)
    ensures
        match r {
            Ok(t) => spec_parse_task_type(task_type@) == Some(t),
            Err(e) => spec_parse_task_type(task_type@) is None && (e matches
                ApiError::InvalidInput(m) && m@ == "Invalid task_type: "@ + task_type@),
        },
{
    if str_eq(task_type, "video") {
        Ok(TaskType::VideoCompression)
    } else if str_eq(task_type, "audio") {
        Ok(TaskType::AudioProcessing)
    } else if str_eq(task_type, "image") {
        Ok(TaskType::ImageOptimization)
    } else {
        let mut msg: String = "Invalid task_type: ".to_owned();
        msg.append(task_type);
        Err(ApiError::InvalidInput(msg))
    }
}

/// The status named by its wire name, for listing filters.
pub open spec fn spec_parse_task_status(s: Seq<char>) -> Option<TaskStatus> {
    if s == "pending"@ {
        Some(TaskStatus::Pending)
    } else if s == "processing"@ {
        Some(TaskStatus::Processing)
    } else if s == "completed"@ {
        Some(TaskStatus::Completed)
    } else if s == "failed"@ {
        Some(TaskStatus::Failed)
    } else if s == "cancelled"@ {
        Some(TaskStatus::Cancelled)
    } else if s == "cancelling"@ {
        Some(TaskStatus::Cancelling)
    } else {
        None
    }
}

pub fn parse_task_status(status: &str) -> (r: Option<TaskStatus>)
    ensures
        r == spec_parse_task_status(status@),
{
    if str_eq(status, "pending") {
        Some(TaskStatus::Pending)
    } else if str_eq(status, "processing") {
        Some(TaskStatus::Processing)
    } else if str_eq(status, "completed") {
        Some(TaskStatus::Completed)
    } else if str_eq(status, "failed") {
        Some(TaskStatus::Failed)
    } else if str_eq(status, "cancelled") {
        Some(TaskStatus::Cancelled)
    } else if str_eq(status, "cancelling") {
        Some(TaskStatus::Cancelling)
    } else {
        None
    }
}

/// The media kind a task type works on.
pub fn task_type_to_media_type(task_type: &TaskType) -> (r: MediaType)
    ensures
        r == match *task_type {
            TaskType::VideoCompression => MediaType::Video,
            TaskType::AudioProcessing => MediaType::Audio,
            TaskType::ImageOptimization => MediaType::Image,
        },
{
    match task_type {
        TaskType::VideoCompression => MediaType::Video,
        TaskType::AudioProcessing => MediaType::Audio,
        TaskType::ImageOptimization => MediaType::Image,
    }
}

/// The metadata entries as pairs of character sequences.
pub open spec fn view_pairs(m: Seq<(String, String)>) -> Seq<(Seq<char>, Seq<char>)> {
    m.map_values(|p: (String, String)| (p.0@, p.1@))
}

/// The entry contributed by one optional string-valued option.
pub open spec fn opt_entry_str(key: Seq<char>, v: Option<String>) -> Seq<(Seq<char>, Seq<char>)> {
    match v {
        Some(s) => seq![(key, s@)],
        None => Seq::empty(),
    }
}

/// The entry contributed by one optional numeric option, rendered decimal.
pub open spec fn opt_entry_u32(key: Seq<char>, v: Option<u32>) -> Seq<(Seq<char>, Seq<char>)> {
    match v {
        Some(n) => seq![(key, spec_dec(n as nat))],
        None => Seq::empty(),
    }
}

/// All recognised options, in the order they are copied into metadata.
pub open spec fn options_meta(o: TaskOptionsDto) -> Seq<(Seq<char>, Seq<char>)> {
    opt_entry_str("video_codec"@, o.video_codec) + opt_entry_str("resolution"@, o.resolution)
        + opt_entry_str("bitrate"@, o.bitrate) + opt_entry_str("audio_format"@, o.audio_format)
        + opt_entry_u32("sample_rate"@, o.sample_rate) + opt_entry_str(
        "image_format"@,
        o.image_format,
    ) + (match o.quality {
        Some(q) => seq![("quality"@, spec_dec(q as nat))],
        None => Seq::empty(),
    }) + opt_entry_u32("max_width"@, o.max_width) + opt_entry_u32("max_height"@, o.max_height)
}

/// Appending one entry appends its views.
proof fn lemma_view_pairs_push(m: Seq<(String, String)>, p: (String, String))
    ensures
        view_pairs(m.push(p)) == view_pairs(m) + seq![(p.0@, p.1@)],
{
    assert(view_pairs(m.push(p)) =~= view_pairs(m) + seq![(p.0@, p.1@)]);
}

/// Appending nothing appends nothing.
proof fn lemma_add_empty(m: Seq<(Seq<char>, Seq<char>)>)
    ensures
        m + Seq::<(Seq<char>, Seq<char>)>::empty() == m,
{
    assert(m + Seq::<(Seq<char>, Seq<char>)>::empty() =~= m);
}

/// Append the entry for one optional string-valued option.
fn push_opt_str(metadata: &mut Vec<(String, String)>, key: &str, v: &Option<String>)
    ensures
        view_pairs(final(metadata)@) == view_pairs(old(metadata)@) + opt_entry_str(key@, *v),
{
    if let Some(s) = v {
        let ghost prev = metadata@;
        let p = (key.to_owned(), s.clone());
        metadata.push(p);
        proof {
            lemma_view_pairs_push(prev, p);
            assert(seq![(p.0@, p.1@)] =~= opt_entry_str(key@, *v));
        }
    } else {
        proof {
            lemma_add_empty(view_pairs(metadata@));
        }
    }
}

/// Append the entry for one optional numeric option, rendered decimal.
fn push_opt_u32(metadata: &mut Vec<(String, String)>, key: &str, v: Option<u32>)
    ensures
        view_pairs(final(metadata)@) == view_pairs(old(metadata)@) + opt_entry_u32(key@, v),
{
    if let Some(n) = v {
        let ghost prev = metadata@;
        let p = (key.to_owned(), format_u32(n));
        metadata.push(p);
        proof {
            lemma_view_pairs_push(prev, p);
            assert(seq![(p.0@, p.1@)] =~= opt_entry_u32(key@, v));
        }
    } else {
        proof {
            lemma_add_empty(view_pairs(metadata@));
        }
    }
}

/// Copy every recognised option into the metadata, values as strings;
/// unrecognised options do not exist in the typed options bag.
pub fn add_options_to_metadata(metadata: &mut Vec<(String, String)>, options: &TaskOptionsDto)
    ensures
        view_pairs(final(metadata)@) == view_pairs(old(metadata)@) + options_meta(*options),
{
    let ghost m0 = view_pairs(metadata@);
    let ghost e1 = opt_entry_str("video_codec"@, options.video_codec);
    let ghost e2 = opt_entry_str("resolution"@, options.resolution);
    let ghost e3 = opt_entry_str("bitrate"@, options.bitrate);
    let ghost e4 = opt_entry_str("audio_format"@, options.audio_format);
    let ghost e5 = opt_entry_u32("sample_rate"@, options.sample_rate);
    let ghost e6 = opt_entry_str("image_format"@, options.image_format);
    let ghost e7 = (match options.quality {
        Some(q) => seq![("quality"@, spec_dec(q as nat))],
        None => Seq::<(Seq<char>, Seq<char>)>::empty(),
    });
    let ghost e8 = opt_entry_u32("max_width"@, options.max_width);
    let ghost e9 = opt_entry_u32("max_height"@, options.max_height);
    push_opt_str(metadata, "video_codec", &options.video_codec);
    push_opt_str(metadata, "resolution", &options.resolution);
    push_opt_str(metadata, "bitrate", &options.bitrate);
    push_opt_str(metadata, "audio_format", &options.audio_format);
    push_opt_u32(metadata, "sample_rate", options.sample_rate);
    push_opt_str(metadata, "image_format", &options.image_format);
    let quality32: Option<u32> = match options.quality {
        Some(q) => Some(q as u32),
        None => None,
    };
    push_opt_u32(metadata, "quality", quality32);
    push_opt_u32(metadata, "max_width", options.max_width);
    push_opt_u32(metadata, "max_height", options.max_height);
    proof {
        assert(opt_entry_u32("quality"@, quality32) == e7);
        lemma_concat_associative(m0, e1, e2);
        lemma_concat_associative(m0, e1 + e2, e3);
        lemma_concat_associative(m0, e1 + e2 + e3, e4);
        lemma_concat_associative(m0, e1 + e2 + e3 + e4, e5);
        lemma_concat_associative(m0, e1 + e2 + e3 + e4 + e5, e6);
        lemma_concat_associative(m0, e1 + e2 + e3 + e4 + e5 + e6, e7);
        lemma_concat_associative(m0, e1 + e2 + e3 + e4 + e5 + e6 + e7, e8);
        lemma_concat_associative(m0, e1 + e2 + e3 + e4 + e5 + e6 + e7 + e8, e9);
    }
}

/// Render a task for clients.
pub fn task_to_response(task: &Task) -> (r: TaskResponse)
    ensures
        r.id == task.id,
        r.task_type@ == task.task_type.spec_label(),
        r.status@ == task.status.spec_label(),
        r.progress == task.progress,
        r.error == task.error,
        r.output_path == task.output_path,
        r.created_at == task.created_at,
        r.updated_at == task.updated_at,
{
    TaskResponse {
        id: task.id.clone(),
        task_type: task.task_type.as_str().to_owned(),
        status: task.status.as_str().to_owned(),
        progress: task.progress,
        error: match &task.error {
            Some(e) => Some(e.clone()),
            None => None,
        },
        output_path: match &task.output_path {
            Some(p) => Some(p.clone()),
            None => None,
        },
        created_at: task.created_at,
        updated_at: task.updated_at,
    }
}

/// Render a task for the dashboard's recent-task list.
pub fn task_to_summary(task: &Task) -> (r: TaskSummary)
    ensures
        r.id == task.id,
        r.task_type@ == task.task_type.spec_label(),
        r.status@ == task.status.spec_label(),
        r.progress == task.progress,
        r.created_at == task.created_at,
        r.updated_at == task.updated_at,
        r.error == task.error,
{
    TaskSummary {
        id: task.id.clone(),
        task_type: task.task_type.as_str().to_owned(),
        status: task.status.as_str().to_owned(),
        progress: task.progress,
        created_at: task.created_at,
        updated_at: task.updated_at,
        error: match &task.error {
            Some(e) => Some(e.clone()),
            None => None,
        },
    }
}

} // verus!
