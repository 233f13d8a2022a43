use pmv_cli::api::ApiRoute;
use pmv_cli::commands::album::album_set_position;
use pmv_cli::commands::config::{apply_config_change, ConfigChange};
use pmv_cli::models::albums::AlbumListItem;
use pmv_cli::models::config::{ConfigImageResolution, ConfigVideoResolution, VaultConfig};
use pmv_cli::models::home::{HomePageElementRef, HomePageElementType};
use pmv_cli::models::media::{MediaListItem, MediaType};
use pmv_cli::commands::album::list_albums;

fn entry(id: u64) -> MediaListItem {
    MediaListItem {
        id,
        media_type: MediaType::Image,
        title: String::new(),
        description: String::new(),
        thumbnail: None,
        tags: vec![],
    }
}

#[test]
fn moved_media_appears_once_and_others_keep_order() {
    let list = vec![entry(5), entry(8), entry(5), entry(2), entry(9)];
    for position in 0..8u32 {
        let (new_list, _) = album_set_position(&list, 5, position);
        assert_eq!(new_list.iter().filter(|x| **x == 5).count(), 1);
        let others: Vec<u64> = new_list.iter().copied().filter(|x| *x != 5).collect();
        assert_eq!(others, vec![8, 2, 9]);
        let expected_index = if position == 0 { 0 } else if position <= 3 { position as usize - 1 } else { 3 };
        assert_eq!(new_list[expected_index], 5);
    }
}

#[test]
fn reported_position_is_where_the_media_stands() {
    let list = vec![entry(1), entry(2), entry(3), entry(4)];
    for position in 0..7u32 {
        let (new_list, reported) = album_set_position(&list, 3, position);
        assert_eq!(new_list[reported as usize - 1], 3);
    }
    let (new_list, reported) = album_set_position(&list, 3, 2);
    assert_eq!(new_list, vec![1, 3, 2, 4]);
    assert_eq!(reported, 2);
}

fn base_config() -> VaultConfig {
    VaultConfig {
        title: None,
        css: None,
        max_tasks: 1,
        encoding_threads: 1,
        video_previews_interval: Some(5),
        invite_limit: 3,
        preserve_originals: false,
        resolutions: vec![ConfigVideoResolution { width: 1, height: 2, fps: 3 }],
        image_resolutions: vec![ConfigImageResolution { width: 4, height: 5 }],
    }
}

#[test]
fn add_then_remove_resolution_restores_config() {
    let mut c = base_config();
    let r = ConfigVideoResolution { width: 1920, height: 1080, fps: 60 };
    apply_config_change(&mut c, ConfigChange::AddVideoResolution(r)).unwrap();
    assert!(c.resolutions.contains(&r));
    apply_config_change(&mut c, ConfigChange::RemoveVideoResolution(r)).unwrap();
    assert_eq!(c.resolutions, base_config().resolutions);
    let i = ConfigImageResolution { width: 7, height: 7 };
    apply_config_change(&mut c, ConfigChange::AddImageResolution(i)).unwrap();
    apply_config_change(&mut c, ConfigChange::RemoveImageResolution(i)).unwrap();
    assert_eq!(c.image_resolutions, base_config().image_resolutions);
}

#[test]
fn element_ref_text_round_trip() {
    for r in [
        HomePageElementRef { element_type: HomePageElementType::Album, id: 0 },
        HomePageElementRef { element_type: HomePageElementType::Media, id: u64::MAX },
    ] {
        assert_eq!(HomePageElementRef::from_string(&r.as_string()), Some(r));
    }
}

#[test]
fn album_listing_is_a_stable_sort() {
    let albums = vec![
        AlbumListItem { id: 4, name: "x".to_string(), size: 0, thumbnail: String::new(), lm: 1 },
        AlbumListItem { id: 2, name: "x".to_string(), size: 0, thumbnail: String::new(), lm: 1 },
        AlbumListItem { id: 3, name: "w".to_string(), size: 0, thumbnail: String::new(), lm: 2 },
    ];
    let by_lm: Vec<u64> = list_albums(&albums, &None, false, false).iter().map(|a| a.id).collect();
    assert_eq!(by_lm, vec![3, 4, 2]);
    let by_name: Vec<u64> = list_albums(&albums, &None, true, true).iter().map(|a| a.id).collect();
    assert_eq!(by_name, vec![3, 4, 2]);
}

#[test]
fn unreserved_text_is_not_encoded() {
    let r = ApiRoute::MediaSubtitleRemove { media: 1, id: "en-US_v1.2~x".to_string() };
    assert_eq!(r.path(), "/api/media/1/subtitles/remove?id=en-US_v1.2~x");
    let s = ApiRoute::MediaSubtitleRemove { media: 1, id: "ñ ".to_string() };
    assert_eq!(s.path(), "/api/media/1/subtitles/remove?id=%C3%B1%20");
}
