use media_queue::media::{MediaFile, MediaType};

#[test]
fn test_media_file_creation() {
    let media = MediaFile::new(
        "test-123".to_string(),
        MediaType::Video,
        "/path/to/video.mp4".to_string(),
        1024000,
        "video.mp4".to_string(),
        "video/mp4".to_string(),
    );

    assert_eq!(media.file_id, "test-123");
    assert_eq!(media.file_type, MediaType::Video);
    assert_eq!(media.file_size, 1024000);
    assert!(media.metadata.is_empty());
}

#[test]
fn test_media_file_with_metadata() {
    let media = MediaFile::new(
        "test-123".to_string(),
        MediaType::Video,
        "/path/to/video.mp4".to_string(),
        1024000,
        "video.mp4".to_string(),
        "video/mp4".to_string(),
    )
    .with_metadata("duration".to_string(), "120".to_string())
    .with_metadata("resolution".to_string(), "1920x1080".to_string());

    assert_eq!(media.metadata.len(), 2);
    assert_eq!(media.get_metadata("duration"), Some(&"120".to_string()));
    assert_eq!(media.get_metadata("resolution"), Some(&"1920x1080".to_string()));
}

#[test]
fn test_add_metadata() {
    let mut media = MediaFile::new(
        "test-123".to_string(),
        MediaType::Audio,
        "/path/to/audio.mp3".to_string(),
        512000,
        "audio.mp3".to_string(),
        "audio/mp3".to_string(),
    );

    media.add_metadata("bitrate".to_string(), "320kbps".to_string());
    media.add_metadata("sample_rate".to_string(), "48000".to_string());

    assert_eq!(media.metadata.len(), 2);
    assert_eq!(media.get_metadata("bitrate"), Some(&"320kbps".to_string()));
}

#[test]
fn add_metadata_replaces_existing_key() {
    let mut media = MediaFile::new(
        "m-1".to_string(),
        MediaType::Image,
        "/in/pic.png".to_string(),
        10,
        "pic.png".to_string(),
        "image/png".to_string(),
    );
    media.add_metadata("quality".to_string(), "70".to_string());
    media.add_metadata("quality".to_string(), "90".to_string());
    assert_eq!(media.metadata.len(), 1);
    assert_eq!(media.get_metadata("quality"), Some(&"90".to_string()));
    assert_eq!(media.get_metadata("missing"), None);
}

#[test]
fn duplicate_preserves_every_field() {
    let media = MediaFile::new(
        "m-2".to_string(),
        MediaType::Video,
        "/in/a.mp4".to_string(),
        77,
        "a.mp4".to_string(),
        "video/mp4".to_string(),
    )
    .with_metadata("video_codec".to_string(), "libx264".to_string());
    let copy = media.duplicate();
    assert_eq!(copy.file_id, media.file_id);
    assert_eq!(copy.file_type, media.file_type);
    assert_eq!(copy.file_path, media.file_path);
    assert_eq!(copy.file_size, media.file_size);
    assert_eq!(copy.original_name, media.original_name);
    assert_eq!(copy.mime_type, media.mime_type);
    assert_eq!(copy.metadata, media.metadata);
}
