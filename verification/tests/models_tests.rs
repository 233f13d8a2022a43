use pmv_cli::models::account::{TimeOtpAlgorithm, TimeOtpPeriod};
use pmv_cli::models::config::{ConfigImageResolution, ConfigVideoResolution};
use pmv_cli::commands::home::{element_rows, group_row};
use pmv_cli::models::albums::AlbumListItem;
use pmv_cli::models::home::{HomePageElement, HomePageElementRef, HomePageElementType, HomePageGroup, HomePageGroupType};
use pmv_cli::models::media::{parse_media_type, resolution_to_string, MediaType};
use pmv_cli::models::misc::ServerInformation;
use pmv_cli::models::tags::{tags_map_from_list, tags_names_from_ids, MediaTag};
use pmv_cli::models::tasks::{
    count_running_tasks, get_task_status_string, get_task_type_string, Task, TaskEncodeResolution, TaskStage, TaskType,
};

#[test]
fn video_resolution_to_string_exact() {
    let r = ConfigVideoResolution { width: 1280, height: 720, fps: 30 };
    assert_eq!(r.to_string(), "1280x720:30");
}

#[test]
fn video_resolution_from_str_reads_fields() {
    let r = ConfigVideoResolution::from_str("1920x1080:60").unwrap();
    assert_eq!((r.width, r.height, r.fps), (1920, 1080, 60));
}

#[test]
fn video_resolution_from_str_refuses_other_shapes() {
    assert!(ConfigVideoResolution::from_str("1920x1080").is_err());
    assert!(ConfigVideoResolution::from_str("1920x1080:60:1").is_err());
    assert!(ConfigVideoResolution::from_str("axb:30").is_err());
    assert!(ConfigVideoResolution::from_str("1920x1080:99999999999").is_err());
}

#[test]
fn image_resolution_round_trip_on_values() {
    let r = ConfigImageResolution { width: 640, height: -480 };
    let text = r.to_string();
    assert_eq!(text, "640x-480");
    let back = ConfigImageResolution::from_str(&text).unwrap();
    assert_eq!(back, r);
}

#[test]
fn video_resolution_round_trip_on_values() {
    let r = ConfigVideoResolution { width: -1, height: 2147483647, fps: -2147483648 };
    let back = ConfigVideoResolution::from_str(&r.to_string()).unwrap();
    assert_eq!(back, r);
}

#[test]
fn media_type_parse_ignores_case() {
    assert_eq!(parse_media_type("VIDEO"), Ok(MediaType::Video));
    assert_eq!(parse_media_type("Pictures"), Ok(MediaType::Image));
    assert_eq!(parse_media_type("audios"), Ok(MediaType::Audio));
    assert_eq!(parse_media_type("document"), Err(()));
}

#[test]
fn media_type_labels() {
    assert_eq!(MediaType::Deleted.to_string(), "N/A");
    assert_eq!(MediaType::Video.to_string(), "Video");
}

#[test]
fn resolution_text_without_fps() {
    assert_eq!(resolution_to_string(800, 600, 0), "800x600");
    assert_eq!(resolution_to_string(800, 600, 25), "800x600:25");
}

#[test]
fn otp_algorithm_and_period_names() {
    assert_eq!(TimeOtpAlgorithm::parse("SHA-256"), Ok(TimeOtpAlgorithm::Sha256));
    assert_eq!(TimeOtpAlgorithm::parse("md5"), Err(()));
    assert_eq!(TimeOtpPeriod::parse("2m"), Ok(TimeOtpPeriod::P120));
    let a = TimeOtpAlgorithm::Sha512;
    assert_eq!(TimeOtpAlgorithm::parse(&a.to_string()), Ok(a));
    let p = TimeOtpPeriod::P60;
    assert_eq!(TimeOtpPeriod::parse(&p.to_string()), Ok(p));
}

#[test]
fn home_group_type_round_trip() {
    for t in [HomePageGroupType::Custom, HomePageGroupType::RecentMedia, HomePageGroupType::RecentAlbums] {
        assert_eq!(HomePageGroupType::from_string(&t.as_string()), Some(t));
    }
    assert_eq!(HomePageGroupType::from_string("recent_media"), Some(HomePageGroupType::RecentMedia));
    assert_eq!(HomePageGroupType::from_string("OTHER"), None);
}

#[test]
fn home_element_refs_from_list() {
    let refs = HomePageElementRef::from_list_string("A12, M6, m8").unwrap();
    assert_eq!(refs.len(), 3);
    assert_eq!(refs[0], HomePageElementRef { element_type: HomePageElementType::Album, id: 12 });
    assert_eq!(refs[1], HomePageElementRef { element_type: HomePageElementType::Media, id: 6 });
    assert_eq!(refs[2], HomePageElementRef { element_type: HomePageElementType::Media, id: 8 });
}

#[test]
fn home_element_refs_error_position() {
    assert_eq!(HomePageElementRef::from_list_string("A1, X2").unwrap_err(), 1);
    assert_eq!(HomePageElementRef::from_list_string("").unwrap_err(), 0);
}

#[test]
fn home_element_ref_list_round_trip() {
    let refs = vec![
        HomePageElementRef { element_type: HomePageElementType::Media, id: 3 },
        HomePageElementRef { element_type: HomePageElementType::Album, id: 0 },
    ];
    let text = HomePageElementRef::as_list_string(&refs);
    assert_eq!(HomePageElementRef::from_list_string(&text).unwrap(), refs);
}

#[test]
fn tags_names_with_unknown_id() {
    let tags = vec![
        MediaTag { id: 1, name: "a".to_string() },
        MediaTag { id: 2, name: "b".to_string() },
        MediaTag { id: 1, name: "c".to_string() },
    ];
    let map = tags_map_from_list(&tags);
    let names = tags_names_from_ids(&vec![1, 7, 2], &map);
    assert_eq!(names, vec!["c".to_string(), "#7".to_string(), "b".to_string()]);
}

fn task(running: bool, task_type: TaskType, resolution: Option<TaskEncodeResolution>) -> Task {
    Task {
        id: 1,
        running,
        media_id: 2,
        task_type,
        resolution,
        stage: TaskStage::Encode,
        stage_start: 0,
        time_now: 0,
    }
}

#[test]
fn task_type_text_with_resolution() {
    let t = task(true, TaskType::EncodeResolution, Some(TaskEncodeResolution { width: 1280, height: 720, fps: 30 }));
    assert_eq!(get_task_type_string(&t), "Encode resolution: 1280x720:30");
    let t2 = task(true, TaskType::EncodeOriginal, None);
    assert_eq!(get_task_type_string(&t2), "Encode original");
}

#[test]
fn running_tasks_counted() {
    let tasks = vec![
        task(true, TaskType::EncodeOriginal, None),
        task(false, TaskType::EncodeOriginal, None),
        task(true, TaskType::GenerateVideoPreviews, None),
    ];
    assert_eq!(count_running_tasks(&tasks), (2, 1));
}

#[test]
fn task_stage_numbers() {
    assert_eq!(TaskStage::Pending.to_stage_number(), 0);
    assert_eq!(TaskStage::Finish.to_stage_number(), 6);
    assert_eq!(TaskStage::Encrypt.to_string(), "Encrypt");
}

#[test]
fn home_group_and_element_rows() {
    use_home_rows();
}

fn use_home_rows() {
    let g = HomePageGroup { id: 4, group_type: HomePageGroupType::RecentAlbums, name: None, elements_count: None };
    assert_eq!(group_row(&g), vec!["4", "RECENT_ALBUMS", "", "0"]);
    let album = AlbumListItem { id: 7, name: "Trips".to_string(), size: 1, thumbnail: String::new(), lm: 0 };
    let elements = vec![
        HomePageElement { media: None, album: Some(album) },
        HomePageElement { media: None, album: None },
    ];
    assert_eq!(element_rows(&elements), vec![vec!["7".to_string(), "ALBUM".to_string(), "Trips".to_string()]]);
}

#[test]
fn task_status_strings() {
    let running = task(true, TaskType::EncodeOriginal, None);
    assert_eq!(get_task_status_string(&running, Some("12.50")), "Stage 4/7: Encode (12.50%)");
    assert_eq!(get_task_status_string(&running, None), "Stage 4/7: Encode");
    let waiting = task(false, TaskType::EncodeOriginal, None);
    assert_eq!(get_task_status_string(&waiting, Some("1.00")), "Pending");
}

#[test]
fn server_information_lines() {
    let info = ServerInformation { version: "1.2".to_string(), last_release: "1.3".to_string(), ffmpeg_version: "6".to_string() };
    assert_eq!(
        info.info_lines(),
        vec!["---------------------------", "Server version: 1.2", "Last release: 1.3", "FFmpeg version: 6", "---------------------------"]
    );
}
