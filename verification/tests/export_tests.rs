use pmv_cli::api::totp_settings_path;
use pmv_cli::commands::media_export::{
    album_media_folders, default_original_extension, export_file_name, export_folder, export_tag_names,
    DownloaderProgressPrinter,
};
use pmv_cli::commands::media::{identifier_to_string, media_resolution_lines, media_status_lines};
use pmv_cli::commands::random::{parse_tag_identifier, random_params};
use pmv_cli::models::account::{TimeOtpAlgorithm, TimeOtpOptions, TimeOtpPeriod};
use pmv_cli::models::albums::Album;
use pmv_cli::models::media::{time_slice_lines, time_slice_parts, MediaListItem, MediaMetadata, MediaResolution, MediaType};
use pmv_cli::models::tags::{tags_map_from_list, MediaTag};

#[test]
fn export_folders_and_files() {
    assert_eq!(export_folder("media", 12, None), "media_12");
    assert_eq!(export_folder("album", 3, Some("out".to_string())), "out");
    assert_eq!(export_file_name("original", None, "mp4"), "original.mp4");
    assert_eq!(export_file_name("audio_track", Some(2), "mp3"), "audio_track_2.mp3");
    assert_eq!(default_original_extension(MediaType::Image), "png");
    assert_eq!(default_original_extension(MediaType::Deleted), "bin");
}

#[test]
fn export_keeps_known_tags_only() {
    let tags = vec![MediaTag { id: 1, name: "one".to_string() }, MediaTag { id: 3, name: "three".to_string() }];
    let map = tags_map_from_list(&tags);
    assert_eq!(export_tag_names(&vec![3, 2, 1], &map), vec!["three".to_string(), "one".to_string()]);
}

#[test]
fn album_export_media_folders() {
    let item = |id: u64| MediaListItem {
        id,
        media_type: MediaType::Audio,
        title: String::new(),
        description: String::new(),
        thumbnail: None,
        tags: vec![],
    };
    let album = Album { id: 1, name: "a".to_string(), list: vec![item(4), item(10)], lm: 0, thumbnail: None };
    assert_eq!(album_media_folders(&album), vec!["media_4".to_string(), "media_10".to_string()]);
}

#[test]
fn named_download_progress() {
    let mut p = DownloaderProgressPrinter::new("thumbnail");
    assert_eq!(p.progress_start(), "Downloading thumbnail...");
    assert_eq!(p.progress_update(3, 4, "75.00"), "Downloading thumbnail... 3 of 4 bytes. (75.00%)");
}

#[test]
fn time_slice_text_parts() {
    assert_eq!(
        time_slice_lines("  0:10 Intro \n\n1:00 - Part\r\n   "),
        vec!["0:10 Intro".to_string(), "1:00 - Part".to_string()]
    );
    assert_eq!(time_slice_parts("  1:00 -Chapter one "), ("1:00".to_string(), "Chapter one".to_string()));
    assert_eq!(time_slice_parts("1:00 - x"), ("1:00".to_string(), " x".to_string()));
    assert_eq!(time_slice_parts("5"), ("5".to_string(), String::new()));
}

#[test]
fn totp_settings_query() {
    let o = TimeOtpOptions {
        issuer: Some("My Vault".to_string()),
        account: None,
        algorithm: TimeOtpAlgorithm::Sha256,
        period: TimeOtpPeriod::P60,
        skew: true,
    };
    assert_eq!(
        totp_settings_path(&o),
        "/api/account/security/tfa/totp?algorithm=sha256&period=60&issuer=My%20Vault&skew=allow"
    );
}

#[test]
fn random_defaults() {
    assert_eq!(random_params(None, 1234, None), (1234, 10));
    assert_eq!(random_params(Some(-7), 1234, Some(3)), (-7, 3));
}

#[test]
fn identifiers_shown_and_read() {
    assert_eq!(identifier_to_string(42), "#42");
    assert_eq!(parse_tag_identifier("#42"), Some(42));
    assert_eq!(parse_tag_identifier("42"), None);
    assert_eq!(parse_tag_identifier("#4x"), None);
    assert_eq!(parse_tag_identifier(&identifier_to_string(u64::MAX)), Some(u64::MAX));
}

#[test]
fn media_status_and_resolution_lines() {
    let mut m = MediaMetadata {
        id: 1,
        media_type: MediaType::Video,
        upload_time: 0,
        title: String::new(),
        description: String::new(),
        thumbnail: String::new(),
        tags: vec![],
        width: None,
        height: None,
        fps: None,
        ready: true,
        ready_p: None,
        encoded: false,
        task: Some(9),
        url: None,
        video_previews: None,
        force_start_beginning: None,
        is_anim: None,
        resolutions: Some(vec![
            MediaResolution { width: 1280, height: 720, fps: Some(30), ready: true, task: None, url: Some("/r".to_string()) },
            MediaResolution { width: 640, height: 480, fps: None, ready: false, task: None, url: None },
        ]),
        subtitles: None,
        audios: None,
        time_slices: None,
        img_notes: None,
        img_notes_url: None,
        ext_desc_url: None,
        attachments: None,
    };
    assert_eq!(media_status_lines(&m), vec!["Status: Not encoded yet", "Task (Encode): #9"]);
    assert_eq!(
        media_resolution_lines(&m),
        vec![
            "Extra resolutions:",
            "\t- Resolution: 1280x720:30",
            "\t  Status: Ready",
            "\t  File: /r",
            "\t- Resolution: 640x480",
            "\t  Status: Not ready yet",
            "\t  No task set to encode. Re-encoding may be needed.",
        ]
    );
    m.ready = false;
    m.resolutions = Some(vec![]);
    assert_eq!(media_status_lines(&m), vec!["Status: Not ready"]);
    assert!(media_resolution_lines(&m).is_empty());
}
