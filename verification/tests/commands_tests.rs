use pmv_cli::api::ApiRoute;
use pmv_cli::commands::album::{album_media_message, album_set_position, list_albums, media_is_in_album, AlbumMediaOutcome};
use pmv_cli::commands::batch_operation::{batch_album_matches, check_batch_filters, BatchFilterError, BatchSearch};
use pmv_cli::commands::config::{apply_config_change, config_summary, previews_interval_shown, ConfigChange, ConfigChangeError};
use pmv_cli::commands::invites::{duration_line, invite_status_lines};
use pmv_cli::commands::media_download::{
    download_output_file, file_name_of_path, parse_asset_type, select_download_path, DownloadAssetType,
    DownloadSelectError, DownloaderProgressPrinter,
};
use pmv_cli::commands::media_resolutions::parse_resolution_param;
use pmv_cli::commands::media_upload::{EncryptionProgressPrinter, UploaderProgressPrinter};
use pmv_cli::commands::search_advanced::{
    collect_album_matches, media_matches_filter, send_tag_names, tag_mode_api_param, AdvancedSearch, MediaFilter,
    TagSearchMode,
};
use pmv_cli::commands::tag::{list_tags, resolve_tag_param, tag_change_message};
use pmv_cli::commands::task::{clear_line_for, monitor_allowed_rows, wait_end_line};
use pmv_cli::commands::{get_vault_url, is_confirmation, parse_boolean_param, request_error_message, RequestError};
use pmv_cli::models::albums::{Album, AlbumListItem};
use pmv_cli::models::config::{ConfigImageResolution, ConfigVideoResolution, VaultConfig};
use pmv_cli::models::media::{MediaAudioTrack, MediaListItem, MediaMetadata, MediaResolution, MediaSubtitle, MediaType};
use pmv_cli::models::misc::InviteCodeStatus;
use pmv_cli::models::tags::{tags_map_from_list, MediaTag};

fn item(id: u64, title: &str, tags: Vec<u64>) -> MediaListItem {
    MediaListItem {
        id,
        media_type: MediaType::Video,
        title: title.to_string(),
        description: String::new(),
        thumbnail: None,
        tags,
    }
}

fn no_filter() -> MediaFilter {
    MediaFilter {
        title: String::new(),
        description: String::new(),
        media_type: None,
        tags: None,
        tags_mode: TagSearchMode::All,
    }
}

fn metadata() -> MediaMetadata {
    MediaMetadata {
        id: 5,
        media_type: MediaType::Video,
        upload_time: 0,
        title: "t".to_string(),
        description: String::new(),
        thumbnail: "/thumb.jpg".to_string(),
        tags: vec![],
        width: Some(1920),
        height: Some(1080),
        fps: Some(30),
        ready: true,
        ready_p: None,
        encoded: true,
        task: None,
        url: Some("/assets/original.mp4?x=1".to_string()),
        video_previews: Some("/assets/preview_{INDEX}.jpg".to_string()),
        force_start_beginning: None,
        is_anim: None,
        resolutions: Some(vec![
            MediaResolution { width: 1280, height: 720, fps: Some(30), ready: true, task: None, url: Some("/r720".to_string()) },
            MediaResolution { width: 640, height: 480, fps: None, ready: false, task: Some(3), url: None },
        ]),
        subtitles: Some(vec![MediaSubtitle { id: "EN".to_string(), name: "English".to_string(), url: "/sub_en.srt".to_string() }]),
        audios: Some(vec![MediaAudioTrack { id: "jp".to_string(), name: "Japanese".to_string(), url: String::new() }]),
        time_slices: None,
        img_notes: None,
        img_notes_url: None,
        ext_desc_url: None,
        attachments: None,
    }
}

#[test]
fn vault_url_prefers_option_then_environment() {
    assert_eq!(get_vault_url(Some("http://a".to_string()), Some("http://b".to_string())), "http://a");
    assert_eq!(get_vault_url(None, Some("http://b".to_string())), "http://b");
    assert_eq!(get_vault_url(None, None), "http://localhost");
}

#[test]
fn confirmation_and_boolean_params() {
    assert!(is_confirmation("Y"));
    assert!(!is_confirmation("yes"));
    assert_eq!(parse_boolean_param("TRUE"), Some(true));
    assert_eq!(parse_boolean_param("0"), Some(false));
    assert_eq!(parse_boolean_param("maybe"), None);
}

#[test]
fn request_error_messages() {
    assert_eq!(
        request_error_message(&RequestError::StatusCodeError(401)),
        vec!["Error: The session URL you provided was invalid or expired.".to_string()]
    );
    assert_eq!(
        request_error_message(&RequestError::StatusCodeError(500)),
        vec!["Error: API ended with unexpected status code: 500".to_string()]
    );
    let api = request_error_message(&RequestError::ApiError {
        status: 404,
        code: "NOT_FOUND".to_string(),
        message: "gone".to_string(),
    });
    assert_eq!(api, vec!["API Error | Status: 404 Not Found | Code: NOT_FOUND | Message: gone".to_string()]);
    let odd = request_error_message(&RequestError::ApiError { status: 42, code: "C".to_string(), message: "m".to_string() });
    assert_eq!(odd, vec!["API Error | Status: 42 | Code: C | Message: m".to_string()]);
    assert_eq!(request_error_message(&RequestError::JSONError { message: "m".to_string(), body: "b".to_string() }).len(), 5);
}

#[test]
fn api_paths_encode_parameters() {
    assert_eq!(ApiRoute::AlbumRename(7).path(), "/api/albums/7/rename");
    let up = ApiRoute::Upload { title: Some("a b&c".to_string()), album: Some(3) };
    assert_eq!(up.path(), "/api/upload?title=a%20b%26c&album=3");
    let r = ApiRoute::Random { tag: Some("x y".to_string()), seed: -5, page_size: 10 };
    assert_eq!(r.path(), "/api/random?page_size=10&seed=-5&tag=x%20y");
}

#[test]
fn api_search_advanced_path_holds_json_tags() {
    let r = ApiRoute::SearchAdvanced {
        tags: Some(vec!["a".to_string(), "b".to_string()]),
        tags_mode: "allof".to_string(),
        reverse_order: true,
        limit: 25,
        continue_ref: Some(9),
    };
    assert_eq!(r.path(), "/api/search/advanced?limit=25&tags=%5B%22a%22%2C%22b%22%5D&tags_mode=allof&order=asc&continue=9");
}

#[test]
fn asset_type_parsing() {
    assert!(matches!(parse_asset_type("ORIGINAL"), Ok(DownloadAssetType::Original)));
    assert!(matches!(parse_asset_type("res:1280x720:30"), Ok(DownloadAssetType::Resolution { width: 1280, height: 720, fps: 30 })));
    assert!(matches!(parse_asset_type("r:640x480"), Ok(DownloadAssetType::Resolution { width: 640, height: 480, fps: 0 })));
    match parse_asset_type("sub:en:US") {
        Ok(DownloadAssetType::Subtitle(id)) => assert_eq!(id, "en:US"),
        _ => panic!("subtitle expected"),
    }
    assert!(matches!(parse_asset_type("p:+3"), Ok(DownloadAssetType::VideoPreview(3))));
    assert!(parse_asset_type("audio").is_err());
    assert!(parse_asset_type("res:big").is_err());
    assert!(parse_asset_type("video").is_err());
}

#[test]
fn download_paths_for_each_asset() {
    let m = metadata();
    assert_eq!(select_download_path(&m, &DownloadAssetType::Original), Ok("/assets/original.mp4?x=1".to_string()));
    assert_eq!(select_download_path(&m, &DownloadAssetType::Thumbnail), Ok("/thumb.jpg".to_string()));
    assert_eq!(
        select_download_path(&m, &DownloadAssetType::Resolution { width: 1280, height: 720, fps: 30 }),
        Ok("/r720".to_string())
    );
    assert_eq!(
        select_download_path(&m, &DownloadAssetType::Resolution { width: 640, height: 480, fps: 0 }),
        Err(DownloadSelectError::ResolutionNotReady)
    );
    assert_eq!(
        select_download_path(&m, &DownloadAssetType::Resolution { width: 1280, height: 720, fps: 0 }),
        Err(DownloadSelectError::ResolutionNotFound)
    );
    assert_eq!(select_download_path(&m, &DownloadAssetType::Subtitle("en".to_string())), Ok("/sub_en.srt".to_string()));
    assert_eq!(select_download_path(&m, &DownloadAssetType::Subtitle("fr".to_string())), Err(DownloadSelectError::SubtitleNotFound));
    assert_eq!(select_download_path(&m, &DownloadAssetType::Audio("JP".to_string())), Err(DownloadSelectError::AudioNotReady));
    assert_eq!(select_download_path(&m, &DownloadAssetType::Audio("de".to_string())), Err(DownloadSelectError::AudioNotFound));
    assert_eq!(select_download_path(&m, &DownloadAssetType::VideoPreview(12)), Ok("/assets/preview_12.jpg".to_string()));
    assert_eq!(select_download_path(&m, &DownloadAssetType::Notes), Err(DownloadSelectError::NoImageNotes));
}

#[test]
fn download_errors_when_lists_missing() {
    let mut m = metadata();
    m.url = Some(String::new());
    m.thumbnail = String::new();
    m.resolutions = Some(vec![]);
    m.subtitles = None;
    m.audios = Some(vec![]);
    m.video_previews = None;
    assert_eq!(select_download_path(&m, &DownloadAssetType::Original), Err(DownloadSelectError::OriginalNotReady));
    assert_eq!(select_download_path(&m, &DownloadAssetType::Thumbnail), Err(DownloadSelectError::NoThumbnail));
    assert_eq!(
        select_download_path(&m, &DownloadAssetType::Resolution { width: 1, height: 1, fps: 0 }),
        Err(DownloadSelectError::NoResolutions)
    );
    assert_eq!(select_download_path(&m, &DownloadAssetType::Subtitle("x".to_string())), Err(DownloadSelectError::NoSubtitles));
    assert_eq!(select_download_path(&m, &DownloadAssetType::Audio("x".to_string())), Err(DownloadSelectError::NoAudioTracks));
    assert_eq!(select_download_path(&m, &DownloadAssetType::VideoPreview(0)), Err(DownloadSelectError::NoVideoPreviews));
}

#[test]
fn download_error_messages() {
    let a = DownloadAssetType::Resolution { width: 1280, height: 720, fps: 30 };
    assert_eq!(DownloadSelectError::ResolutionNotFound.message(&a), "No resolution found matching 1280x720:30");
    let s = DownloadAssetType::Subtitle("en".to_string());
    assert_eq!(DownloadSelectError::SubtitleNotFound.message(&s), "No subtitle found matching en");
    assert_eq!(DownloadSelectError::AssetNotFound.message(&s), "Could not find the specified asset");
}

#[test]
fn download_file_names() {
    assert_eq!(file_name_of_path("/assets/a/b/video.mp4?token=1"), "video.mp4");
    assert_eq!(file_name_of_path("plain"), "plain");
    assert_eq!(file_name_of_path("/dir/"), "");
    assert_eq!(download_output_file("/x/y.png", Some("out.png".to_string())), "out.png");
    assert_eq!(download_output_file("/x/y.png", Some(String::new())), "y.png");
    assert_eq!(download_output_file("/x/y.png", None), "y.png");
}

#[test]
fn progress_lines_pad_over_previous() {
    let mut p = UploaderProgressPrinter::new();
    assert_eq!(p.progress_start(), "Uploading...");
    let first = p.progress_update(50, 100, "50.00");
    assert_eq!(first, "Uploading... 50 of 100 bytes. (50.00%)");
    let second = p.progress_update(7, 0, "");
    assert_eq!(second, format!("{}{}", "Uploading... 7 of unknown bytes.", " ".repeat(first.len() - 32)));
    let mut e = EncryptionProgressPrinter::new();
    assert_eq!(e.progress_start(), "Encrypting...");
    assert_eq!(e.progress_update(100, "12.50"), "Encrypting... (12.50%)");
    let mut d = DownloaderProgressPrinter::new();
    assert_eq!(d.progress_start(), "Downloading...");
    assert_eq!(d.progress_update(1, 0, "0.00"), "Downloading... 1 of unknown bytes.");
}

#[test]
fn resolution_params() {
    let v = parse_resolution_param("1280x720:30").unwrap();
    assert_eq!((v.width, v.height, v.fps), (1280, 720, 30));
    let i = parse_resolution_param("320x240").unwrap();
    assert_eq!((i.width, i.height, i.fps), (320, 240, 0));
    assert!(parse_resolution_param("320").is_err());
}

fn album_item(id: u64, name: &str, lm: i64) -> AlbumListItem {
    AlbumListItem { id, name: name.to_string(), size: 0, thumbnail: String::new(), lm }
}

#[test]
fn albums_sorted_and_filtered() {
    let albums = vec![album_item(3, "b", 10), album_item(1, "a", 30), album_item(2, "b", 20)];
    let by_name: Vec<u64> = list_albums(&albums, &None, true, false).iter().map(|a| a.id).collect();
    assert_eq!(by_name, vec![1, 3, 2]);
    let by_id: Vec<u64> = list_albums(&albums, &None, false, true).iter().map(|a| a.id).collect();
    assert_eq!(by_id, vec![1, 2, 3]);
    let by_lm: Vec<u64> = list_albums(&albums, &None, false, false).iter().map(|a| a.id).collect();
    assert_eq!(by_lm, vec![1, 2, 3]);
    let only: Vec<u64> = list_albums(&albums, &Some(vec![3, 9, 2]), false, true).iter().map(|a| a.id).collect();
    assert_eq!(only, vec![2, 3]);
}

#[test]
fn album_membership() {
    let album = Album { id: 1, name: "x".to_string(), list: vec![item(4, "a", vec![]), item(6, "b", vec![])], lm: 0, thumbnail: None };
    assert!(media_is_in_album(&album, 6));
    assert!(!media_is_in_album(&album, 5));
}

#[test]
fn album_set_position_cases() {
    let list = vec![item(1, "", vec![]), item(2, "", vec![]), item(3, "", vec![]), item(4, "", vec![])];
    assert_eq!(album_set_position(&list, 3, 0), (vec![3, 1, 2, 4], 1));
    assert_eq!(album_set_position(&list, 3, 1), (vec![3, 1, 2, 4], 1));
    assert_eq!(album_set_position(&list, 1, 3), (vec![2, 3, 1, 4], 3));
    assert_eq!(album_set_position(&list, 2, 10), (vec![1, 3, 4, 2], 4));
    assert_eq!(album_set_position(&list, 9, 5), (vec![1, 2, 3, 4, 9], 5));
}

#[test]
fn tags_sorted_and_resolved() {
    let tags = vec![
        MediaTag { id: 5, name: "zeta".to_string() },
        MediaTag { id: 2, name: "alpha".to_string() },
        MediaTag { id: 9, name: "Beta".to_string() },
    ];
    let names: Vec<String> = list_tags(&tags, true).into_iter().map(|t| t.name).collect();
    assert_eq!(names, vec!["Beta", "alpha", "zeta"]);
    let ids: Vec<u64> = list_tags(&tags, false).into_iter().map(|t| t.id).collect();
    assert_eq!(ids, vec![2, 5, 9]);
    let map = tags_map_from_list(&tags);
    assert_eq!(resolve_tag_param("#2".to_string(), Some(2), &map), "alpha");
    assert_eq!(resolve_tag_param("#7".to_string(), Some(7), &map), "#7");
    assert_eq!(resolve_tag_param("foo".to_string(), None, &map), "foo");
}

#[test]
fn media_filters() {
    let m = item(1, "Holiday video", vec![1, 2]);
    assert!(media_matches_filter(&m, "day", "", &None, &None, &TagSearchMode::All));
    assert!(!media_matches_filter(&m, "night", "", &None, &None, &TagSearchMode::All));
    assert!(!media_matches_filter(&m, "", "", &Some(MediaType::Image), &None, &TagSearchMode::All));
    assert!(media_matches_filter(&m, "", "", &None, &Some(vec![1, 2]), &TagSearchMode::All));
    assert!(!media_matches_filter(&m, "", "", &None, &Some(vec![1, 3]), &TagSearchMode::All));
    assert!(media_matches_filter(&m, "", "", &None, &Some(vec![3, 2]), &TagSearchMode::Any));
    assert!(!media_matches_filter(&m, "", "", &None, &Some(vec![3]), &TagSearchMode::Any));
    assert!(media_matches_filter(&m, "", "", &None, &Some(vec![3]), &TagSearchMode::NoneOf));
    assert!(!media_matches_filter(&m, "", "", &None, &Some(vec![2]), &TagSearchMode::NoneOf));
    assert!(!media_matches_filter(&m, "", "", &None, &None, &TagSearchMode::Untagged));
    assert!(media_matches_filter(&item(2, "", vec![]), "", "", &None, &None, &TagSearchMode::Untagged));
}

#[test]
fn album_search_limit_and_reverse() {
    let list = vec![item(1, "a", vec![]), item(2, "b", vec![]), item(3, "a", vec![]), item(4, "a", vec![])];
    let mut f = no_filter();
    f.title = "a".to_string();
    let fwd: Vec<u64> = collect_album_matches(list, false, 2, &f).iter().map(|m| m.id).collect();
    assert_eq!(fwd, vec![1, 3]);
    let list2 = vec![item(1, "a", vec![]), item(2, "b", vec![]), item(3, "a", vec![]), item(4, "a", vec![])];
    let rev: Vec<u64> = collect_album_matches(list2, true, 0, &f).iter().map(|m| m.id).collect();
    assert_eq!(rev, vec![4]);
}

#[test]
fn advanced_search_pages() {
    let f = no_filter();
    let mut s = AdvancedSearch::new(Some(11), 3);
    assert_eq!(s.next_request(), Some(Some(11)));
    s.accept_page(vec![item(1, "", vec![]), item(2, "", vec![])], 2, 10, 20, &f);
    assert_eq!(s.next_request(), Some(Some(20)));
    s.accept_page(vec![item(3, "", vec![]), item(4, "", vec![])], 4, 10, 30, &f);
    assert_eq!(s.next_request(), None);
    let ids: Vec<u64> = s.into_results().iter().map(|m| m.id).collect();
    assert_eq!(ids, vec![1, 2, 3]);
    let empty = AdvancedSearch::new(None, 0);
    assert_eq!(empty.next_request(), None);
}

#[test]
fn tag_mode_params() {
    assert_eq!(tag_mode_api_param(TagSearchMode::Any, 3, 2), "allof");
    assert_eq!(tag_mode_api_param(TagSearchMode::Any, 2, 2), "anyof");
    assert_eq!(tag_mode_api_param(TagSearchMode::NoneOf, 1, 2), "noneof");
    assert_eq!(tag_mode_api_param(TagSearchMode::Untagged, 0, 2), "allof");
    assert!(!send_tag_names(TagSearchMode::Untagged, 0, 2));
    assert!(!send_tag_names(TagSearchMode::Any, 3, 2));
    assert!(send_tag_names(TagSearchMode::All, 3, 2));
}

#[test]
fn batch_filter_checks() {
    assert_eq!(check_batch_filters(true, TagSearchMode::All, false, &None, "", "", false), Ok(()));
    assert_eq!(
        check_batch_filters(true, TagSearchMode::All, false, &None, "", "x", false),
        Err(BatchFilterError::EverythingWithFilter)
    );
    assert_eq!(check_batch_filters(false, TagSearchMode::All, false, &None, "", "", false), Err(BatchFilterError::NoFilter));
    assert_eq!(check_batch_filters(false, TagSearchMode::Untagged, false, &None, "", "", false), Ok(()));
    assert!(BatchFilterError::NoFilter.message().starts_with("Error: You must specify at least one filter."));
}

#[test]
fn batch_search_collects_all_pages() {
    let mut f = no_filter();
    f.tags = Some(vec![1]);
    let mut s = BatchSearch::new();
    assert_eq!(s.next_request(), Some(None));
    s.accept_page(vec![item(1, "", vec![1]), item(2, "", vec![])], 2, 4, 5, &f);
    assert_eq!(s.next_request(), Some(Some(5)));
    s.accept_page(vec![item(3, "", vec![1, 2])], 4, 4, 6, &f);
    assert_eq!(s.next_request(), None);
    let ids: Vec<u64> = s.into_results().iter().map(|m| m.id).collect();
    assert_eq!(ids, vec![1, 3]);
    let album: Vec<u64> = batch_album_matches(vec![item(7, "", vec![1]), item(8, "", vec![2])], &f).iter().map(|m| m.id).collect();
    assert_eq!(album, vec![7]);
}

fn config() -> VaultConfig {
    VaultConfig {
        title: Some("My vault".to_string()),
        css: Some("body{}ñ".to_string()),
        max_tasks: 2,
        encoding_threads: 4,
        video_previews_interval: None,
        invite_limit: 0,
        preserve_originals: true,
        resolutions: vec![ConfigVideoResolution { width: 1280, height: 720, fps: 30 }],
        image_resolutions: vec![],
    }
}

#[test]
fn config_changes_and_refusals() {
    let mut c = config();
    let r = ConfigVideoResolution { width: 1280, height: 720, fps: 30 };
    assert_eq!(apply_config_change(&mut c, ConfigChange::AddVideoResolution(r)), Err(ConfigChangeError::VideoResolutionExists));
    assert_eq!(c.resolutions.len(), 1);
    let img = ConfigImageResolution { width: 100, height: 100 };
    assert_eq!(apply_config_change(&mut c, ConfigChange::RemoveImageResolution(img)), Err(ConfigChangeError::ImageResolutionNotFound));
    assert_eq!(apply_config_change(&mut c, ConfigChange::AddImageResolution(img)), Ok(()));
    assert_eq!(c.image_resolutions, vec![img]);
    assert_eq!(apply_config_change(&mut c, ConfigChange::RemoveVideoResolution(r)), Ok(()));
    assert!(c.resolutions.is_empty());
    assert_eq!(apply_config_change(&mut c, ConfigChange::RemoveVideoResolution(r)), Err(ConfigChangeError::VideoResolutionNotFound));
    assert_eq!(apply_config_change(&mut c, ConfigChange::AddImageResolution(img)), Err(ConfigChangeError::ImageResolutionExists));
    assert_eq!(apply_config_change(&mut c, ConfigChange::SetMaxTasks(9)), Ok(()));
    assert_eq!(c.max_tasks, 9);
    assert_eq!(apply_config_change(&mut c, ConfigChange::ClearCss), Ok(()));
    assert_eq!(c.css, Some(String::new()));
}

#[test]
fn config_summary_lines_exact() {
    let lines = config_summary(&config());
    assert_eq!(
        lines,
        vec![
            "---------------------------",
            "Vault title: My vault",
            "Custom CSS: 8 Bytes | Use the 'get-css' command to retrieve it.",
            "Max tasks in parallel: 2",
            "Number of encoding threads: 4",
            "Video previews interval: 3 seconds",
            "Max number of invited sessions by user: 10",
            "Preserve original files, before encoding, as an attachment?: Yes",
            "Video resolutions: 1280x720:30",
            "---------------------------",
        ]
    );
    assert_eq!(previews_interval_shown(Some(-1)), 3);
    assert_eq!(previews_interval_shown(Some(7)), 7);
}

#[test]
fn invite_lines() {
    assert_eq!(duration_line(86_400_000), "Duration: 1 day");
    assert_eq!(duration_line(7 * 86_400_000 + 5), "Duration: 7 days");
    assert_eq!(duration_line(-2 * 86_400_000 + 1), "Duration: -1 days");
    let st = InviteCodeStatus { has_code: true, code: Some("ABC".to_string()), duration: Some(86_400_000), expiration_remaining: Some(0) };
    assert_eq!(
        invite_status_lines(&st, "1 hour"),
        vec!["---------------------------", "Invite code: ABC", "Duration: 1 day", "THIS CODE HAS ALREADY EXPIRED", "---------------------------"]
    );
    let none = InviteCodeStatus { has_code: false, code: None, duration: None, expiration_remaining: None };
    assert_eq!(invite_status_lines(&none, ""), vec!["Your account does not have any active invite code"]);
}

#[test]
fn task_monitor_helpers() {
    assert_eq!(monitor_allowed_rows(30), 24);
    assert_eq!(monitor_allowed_rows(6), 1);
    assert_eq!(monitor_allowed_rows(0), 1);
    assert_eq!(clear_line_for("abcd"), "    ");
    assert_eq!(clear_line_for("日本"), "    ");
    assert_eq!(wait_end_line("#4", true), "Task #4 completed!");
    assert_eq!(wait_end_line("#4", false), "Task #4 not found, or already completed.");
}

#[test]
fn album_and_tag_messages() {
    assert_eq!(
        album_media_message(AlbumMediaOutcome::AlreadyInside, 5, 2, "Trip"),
        "Media asset #5 is already inside the album #2: Trip"
    );
    assert_eq!(
        album_media_message(AlbumMediaOutcome::Inserted(2), 5, 2, "Trip"),
        "Successfully inserted media asset #5 into position 2 of album #2: Trip"
    );
    assert_eq!(
        album_media_message(AlbumMediaOutcome::Removed, 5, 2, "Trip"),
        "Successfully removed media asset #5 from album #2: Trip"
    );
    assert_eq!(tag_change_message(true, 3, "cats", 8), "Successfully added tag #3 ( cats ) to media asset #8");
    assert_eq!(tag_change_message(false, 3, "cats", 8), "Successfully removed tag #3 ( cats ) from media asset #8");
}
