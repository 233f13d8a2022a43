//! Albums: ordered lists of media assets.
use vstd::prelude::*;

use crate::models::media::MediaListItem;

verus! {

/// An album as the album list shows it.
pub struct AlbumListItem {
    pub id: u64,
    pub name: String,
    pub size: u32,
    pub thumbnail: String,
    pub lm: i64,
}

/// Request to create or rename an album.
pub struct AlbumNameBody {
    pub name: String,
}

/// Response to the creation of an album.
pub struct AlbumIdResponse {
    pub album_id: u64,
}

/// An album with its media assets, in order.
pub struct Album {
    pub id: u64,
    pub name: String,
    pub list: Vec<MediaListItem>,
    pub lm: i64,
    pub thumbnail: Option<String>,
}

/// The metadata file of an exported album.
pub struct AlbumMetadataExport {
    pub name: String,
    pub media_list: Vec<String>,
    pub thumbnail: Option<String>,
}

/// Request to add a media asset to, or remove it from, an album.
pub struct AlbumMediaBody {
    pub media_id: u64,
}

/// Request to move a media asset within an album.
pub struct AlbumMoveMediaBody {
    pub media_id: u64,
    pub position: u32,
}

/// Request to set the order of an album's media assets.
pub struct AlbumSetOrderBody {
    pub list: Vec<u64>,
}

} // verus!
