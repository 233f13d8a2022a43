use std::collections::HashMap;

use pmv_cli::commands::media_download::{parse_asset_type, select_download_path, DownloadAssetType, DownloadSelectError};
use pmv_cli::commands::media_export::{
    album_export_metadata, export_metadata, export_plan, url_extension, ExportError, ExportStep,
};
use pmv_cli::commands::media_import::{import_plan, ImportError, ImportStep};
use pmv_cli::commands::media_upload::UploaderProgressPrinter;
use pmv_cli::commands::task::{wait_end_line, wait_for_task_step, WaitOutcome};
use pmv_cli::commands::RequestError;
use pmv_cli::models::albums::Album;
use pmv_cli::models::media::{
    MediaAttachment, MediaAttachmentExport, MediaAudioTrack, MediaListItem, MediaMetadata, MediaMetadataExport,
    MediaSubtitle, MediaSubtitleOrAudioExport, MediaType,
};

fn attachment(id: u64, name: &str, url: &str) -> MediaAttachment {
    MediaAttachment { id, name: name.to_string(), size: 10, url: url.to_string() }
}

fn full_metadata() -> MediaMetadata {
    MediaMetadata {
        id: 8,
        media_type: MediaType::Video,
        upload_time: 0,
        title: "Holiday".to_string(),
        description: "At the sea".to_string(),
        thumbnail: "/assets/b/8/thumb.png?fv=1".to_string(),
        tags: vec![4, 9, 2],
        width: None,
        height: None,
        fps: None,
        ready: true,
        ready_p: None,
        encoded: true,
        task: None,
        url: Some("/assets/b/8/original.webm?fv=2".to_string()),
        video_previews: None,
        force_start_beginning: Some(true),
        is_anim: Some(false),
        resolutions: None,
        subtitles: Some(vec![
            MediaSubtitle { id: "en".to_string(), name: "English".to_string(), url: "/s/en.vtt".to_string() },
            MediaSubtitle { id: "fr".to_string(), name: "French".to_string(), url: "/s/fr".to_string() },
        ]),
        audios: Some(vec![MediaAudioTrack { id: "jp".to_string(), name: "Japanese".to_string(), url: "/a/jp.aac".to_string() }]),
        time_slices: Some(vec!["Intro".to_string(), "Beach".to_string()]),
        img_notes: None,
        img_notes_url: None,
        ext_desc_url: Some("/assets/b/8/ext_desc.md".to_string()),
        attachments: Some(vec![attachment(3, "map.pdf", "/att/3/map.pdf"), attachment(7, "list", "")]),
    }
}

fn tag_names() -> HashMap<u64, String> {
    let mut m = HashMap::new();
    m.insert(2, "two".to_string());
    m.insert(4, "four".to_string());
    m
}

fn step(s: &ExportStep) -> (&str, &str, &str) {
    (s.name.as_str(), s.url.as_str(), s.file.as_str())
}

#[test]
fn download_extended_description_and_attachments() {
    assert!(matches!(parse_asset_type("ext_desc"), Ok(DownloadAssetType::ExtendedDescription)));
    assert!(matches!(parse_asset_type("EXT_DESC"), Ok(DownloadAssetType::ExtendedDescription)));
    assert!(matches!(parse_asset_type("attachment:7"), Ok(DownloadAssetType::Attachment(7))));
    assert!(parse_asset_type("attachment:").is_err());
    assert!(parse_asset_type("attachment:x").is_err());
    let m = full_metadata();
    assert_eq!(
        select_download_path(&m, &DownloadAssetType::ExtendedDescription),
        Ok("/assets/b/8/ext_desc.md".to_string())
    );
    assert_eq!(select_download_path(&m, &DownloadAssetType::Attachment(3)), Ok("/att/3/map.pdf".to_string()));
    assert_eq!(select_download_path(&m, &DownloadAssetType::Attachment(7)), Err(DownloadSelectError::AttachmentNotReady));
    assert_eq!(select_download_path(&m, &DownloadAssetType::Attachment(9)), Err(DownloadSelectError::AttachmentNotFound));
    assert_eq!(
        DownloadSelectError::AttachmentNotFound.message(&DownloadAssetType::Attachment(9)),
        "No attachment found matching 9"
    );
    let mut bare = full_metadata();
    bare.ext_desc_url = Some(String::new());
    bare.attachments = Some(vec![]);
    assert_eq!(
        select_download_path(&bare, &DownloadAssetType::ExtendedDescription),
        Err(DownloadSelectError::NoExtendedDescription)
    );
    assert_eq!(select_download_path(&bare, &DownloadAssetType::Attachment(3)), Err(DownloadSelectError::NoAttachments));
    bare.attachments = None;
    assert_eq!(select_download_path(&bare, &DownloadAssetType::Attachment(3)), Err(DownloadSelectError::NoAttachments));
}

#[test]
fn url_extensions() {
    assert_eq!(url_extension("/assets/b/8/original.webm?fv=2", "mp4"), "webm");
    assert_eq!(url_extension("/assets/b/8/thumb", "jpg"), "jpg");
    assert_eq!(url_extension("/a/archive.tar.gz", "bin"), "gz");
    assert_eq!(url_extension("/a/name.", "txt"), "txt");
    assert_eq!(url_extension("", "bin"), "bin");
}

#[test]
fn export_refused_without_original() {
    let mut m = full_metadata();
    m.url = None;
    assert!(matches!(export_plan(&m), Err(ExportError::NoOriginal)));
    m.url = Some(String::new());
    assert!(matches!(export_plan(&m), Err(ExportError::NoOriginal)));
    assert_eq!(
        ExportError::NoOriginal.message(),
        "The media has no original asset. It's probably still pending for upload or encryption."
    );
}

#[test]
fn export_downloads_every_file_in_order() {
    let plan = export_plan(&full_metadata()).unwrap();
    let got: Vec<(&str, &str, &str)> = plan.iter().map(step).collect();
    assert_eq!(
        got,
        vec![
            ("original", "/assets/b/8/original.webm?fv=2", "original.webm"),
            ("thumbnail", "/assets/b/8/thumb.png?fv=1", "thumbnail.png"),
            ("extended description", "/assets/b/8/ext_desc.md", "ext_desc.md"),
            ("subtitle en", "/s/en.vtt", "subtitle_1.vtt"),
            ("subtitle fr", "/s/fr", "subtitle_2.srt"),
            ("audio track jp", "/a/jp.aac", "audio_track_1.aac"),
            ("attachment map.pdf", "/att/3/map.pdf", "attachment_1.pdf"),
            ("attachment list", "", "attachment_2.bin"),
        ]
    );
}

#[test]
fn export_metadata_names_files_and_tags() {
    let e = export_metadata(&full_metadata(), &tag_names());
    assert_eq!(e.original, Some("original.webm".to_string()));
    assert_eq!(e.thumbnail, Some("thumbnail.png".to_string()));
    assert_eq!(e.ext_desc, Some("ext_desc.md".to_string()));
    assert_eq!(e.notes, None);
    assert_eq!(e.title, Some("Holiday".to_string()));
    assert_eq!(e.description, Some("At the sea".to_string()));
    assert_eq!(e.tags, Some(vec!["four".to_string(), "two".to_string()]));
    assert_eq!(e.force_start_beginning, Some(true));
    assert_eq!(e.is_anim, Some(false));
    assert_eq!(e.time_slices, Some(vec!["Intro".to_string(), "Beach".to_string()]));
    let subs: Vec<(String, String, String)> =
        e.subtitles.unwrap().into_iter().map(|t| (t.id, t.name, t.file)).collect();
    assert_eq!(
        subs,
        vec![
            ("en".to_string(), "English".to_string(), "subtitle_1.vtt".to_string()),
            ("fr".to_string(), "French".to_string(), "subtitle_2.srt".to_string()),
        ]
    );
    let atts: Vec<(String, String)> = e.attachments.unwrap().into_iter().map(|a| (a.name, a.file)).collect();
    assert_eq!(
        atts,
        vec![("map.pdf".to_string(), "attachment_1.pdf".to_string()), ("list".to_string(), "attachment_2.bin".to_string())]
    );
}

fn bare_export() -> MediaMetadataExport {
    MediaMetadataExport {
        original: None,
        thumbnail: None,
        notes: None,
        ext_desc: None,
        title: None,
        description: None,
        tags: None,
        force_start_beginning: None,
        is_anim: None,
        time_slices: None,
        subtitles: None,
        audios: None,
        attachments: None,
    }
}

#[test]
fn import_refused_without_original() {
    assert!(matches!(import_plan(&bare_export()), Err(ImportError::NoOriginal)));
    assert_eq!(ImportError::NoOriginal.message(), "Invalid metadata: No original file specified.");
}

#[test]
fn import_steps_in_order() {
    let mut m = bare_export();
    m.original = Some("original.mp4".to_string());
    m.title = Some("T".to_string());
    m.description = Some(String::new());
    m.force_start_beginning = Some(false);
    m.time_slices = Some(vec![]);
    m.notes = Some("notes.json".to_string());
    m.tags = Some(vec!["a".to_string(), "b".to_string()]);
    m.audios = Some(vec![MediaSubtitleOrAudioExport { id: "x".to_string(), name: "X".to_string(), file: "audio_track_1.mp3".to_string() }]);
    m.attachments = Some(vec![MediaAttachmentExport { name: "n".to_string(), file: "attachment_1.bin".to_string() }]);
    let steps = import_plan(&m).unwrap();
    assert_eq!(steps.len(), 7);
    assert!(matches!(&steps[0], ImportStep::Upload { file, title: Some(t) } if file == "original.mp4" && t == "T"));
    assert!(matches!(&steps[1], ImportStep::WaitForEncryption));
    assert!(matches!(&steps[2], ImportStep::AddTag(t) if t == "a"));
    assert!(matches!(&steps[3], ImportStep::AddTag(t) if t == "b"));
    assert!(matches!(&steps[4], ImportStep::SetNotes(f) if f == "notes.json"));
    assert!(matches!(&steps[5], ImportStep::SetAudio { id, name, file } if id == "x" && name == "X" && file == "audio_track_1.mp3"));
    assert!(matches!(&steps[6], ImportStep::AddAttachment { name, file } if name == "n" && file == "attachment_1.bin"));
}

#[test]
fn export_then_import_gives_the_media_back() {
    let m = full_metadata();
    let steps = import_plan(&export_metadata(&m, &tag_names())).unwrap();
    let kinds: Vec<String> = steps
        .iter()
        .map(|s| match s {
            ImportStep::Upload { file, title } => format!("upload {} {:?}", file, title),
            ImportStep::WaitForEncryption => "wait".to_string(),
            ImportStep::AddTag(t) => format!("tag {}", t),
            ImportStep::SetDescription(d) => format!("description {}", d),
            ImportStep::SetForceStartBeginning => "start from beginning".to_string(),
            ImportStep::SetThumbnail(f) => format!("thumbnail {}", f),
            ImportStep::SetExtendedDescription(f) => format!("ext_desc {}", f),
            ImportStep::SetTimeSlices => "time slices".to_string(),
            ImportStep::SetNotes(f) => format!("notes {}", f),
            ImportStep::SetSubtitle { id, name, file } => format!("subtitle {} {} {}", id, name, file),
            ImportStep::SetAudio { id, name, file } => format!("audio {} {} {}", id, name, file),
            ImportStep::AddAttachment { name, file } => format!("attachment {} {}", name, file),
        })
        .collect();
    assert_eq!(
        kinds,
        vec![
            "upload original.webm Some(\"Holiday\")",
            "wait",
            "tag four",
            "tag two",
            "description At the sea",
            "start from beginning",
            "thumbnail thumbnail.png",
            "ext_desc ext_desc.md",
            "time slices",
            "subtitle en English subtitle_1.vtt",
            "subtitle fr French subtitle_2.srt",
            "audio jp Japanese audio_track_1.aac",
            "attachment map.pdf attachment_1.pdf",
            "attachment list attachment_2.bin",
        ]
    );
}

#[test]
fn album_export_metadata_lists_media_folders() {
    let item = |id: u64| MediaListItem {
        id,
        media_type: MediaType::Image,
        title: String::new(),
        description: String::new(),
        thumbnail: None,
        tags: vec![],
    };
    let a = Album {
        id: 1,
        name: "Trip".to_string(),
        list: vec![item(5), item(2)],
        lm: 0,
        thumbnail: Some("/albums/1/thumb.jpeg?x".to_string()),
    };
    let e = album_export_metadata(&a);
    assert_eq!(e.name, "Trip");
    assert_eq!(e.media_list, vec!["media_5".to_string(), "media_2".to_string()]);
    assert_eq!(e.thumbnail, Some("thumbnail.jpeg".to_string()));
    let b = Album { thumbnail: Some(String::new()), ..a };
    assert_eq!(album_export_metadata(&b).thumbnail, None);
}

#[test]
fn progress_line_width_never_decreases() {
    let mut p = UploaderProgressPrinter::new();
    let long = p.progress_update(123456, 1234567, "10.00");
    assert_eq!(long, "Uploading... 123456 of 1234567 bytes. (10.00%)");
    let short = p.progress_update(1, 0, "");
    assert_eq!(short.len(), long.len());
    assert!(short.starts_with("Uploading... 1 of unknown bytes."));
    let again = p.progress_update(2, 0, "");
    assert_eq!(again.len(), long.len());
}

#[test]
fn waiting_for_a_task_ends_when_it_is_gone() {
    assert_eq!(wait_for_task_step(false, &Ok(())), (true, WaitOutcome::Continue));
    let gone: Result<(), RequestError> =
        Err(RequestError::ApiError { status: 404, code: "NOT_FOUND".to_string(), message: String::new() });
    assert_eq!(wait_for_task_step(true, &gone), (true, WaitOutcome::Done));
    assert_eq!(wait_for_task_step(false, &gone), (false, WaitOutcome::Done));
    let refused: Result<(), RequestError> =
        Err(RequestError::ApiError { status: 403, code: "ACCESS_DENIED".to_string(), message: String::new() });
    assert_eq!(wait_for_task_step(true, &refused), (true, WaitOutcome::Fail));
    let other: Result<(), RequestError> = Err(RequestError::StatusCodeError(500));
    assert_eq!(wait_for_task_step(true, &other), (true, WaitOutcome::Fail));
    assert_eq!(wait_end_line("#3", true), "Task #3 completed!");
}
