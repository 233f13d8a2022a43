//! Choosing what to download of a media asset, and where to write it.
use vstd::prelude::*;

use crate::commands::media_upload::{transfer_progress_line, transfer_progress_text};
use crate::lists::{first_index, is_first_true, lemma_first_index_at, lemma_first_index_none};
use crate::models::config::{
    parse_image_resolution_spec, parse_video_resolution_spec, sub_vec, ConfigImageResolution,
    ConfigVideoResolution,
};
use crate::models::tasks::TaskEncodeResolution;
use crate::models::media::{resolution_text, MediaAttachment, MediaAudioTrack, MediaMetadata, MediaResolution, MediaSubtitle};
use crate::text::{
    printable_ascii,
    chars_of, lower_of, nat_decimal, parse_u32, parse_u32_spec, range_pieces, replace_all,
    replace_all_str, split_char, split_ranges, str_equals, string_of_range, to_lowercase,
    u64_to_string, lemma_split_char_len, parse_u64, parse_u64_spec, display_width, pad_line, push_str, padded_line, str_width,
};

verus! {

/// An asset of a media asset that can be downloaded.
#[derive(Debug)]
pub enum DownloadAssetType {
    Original,
    Thumbnail,
    Resolution { width: i32, height: i32, fps: i32 },
    Subtitle(String),
    Audio(String),
    VideoPreview(u32),
    Notes,
    ExtendedDescription,
    Attachment(u64),
}

/// The value of a `DownloadAssetType`, with identifiers as character sequences.
pub enum DownloadAsset {
    Original,
    Thumbnail,
    Resolution { width: i32, height: i32, fps: i32 },
    Subtitle(Seq<char>),
    Audio(Seq<char>),
    VideoPreview(u32),
    Notes,
    ExtendedDescription,
    Attachment(u64),
}

impl View for DownloadAssetType {
    type V = DownloadAsset;

    open spec fn view(&self) -> DownloadAsset {
        match self {
            DownloadAssetType::Original => DownloadAsset::Original,
            DownloadAssetType::Thumbnail => DownloadAsset::Thumbnail,
            DownloadAssetType::Resolution { width, height, fps } => DownloadAsset::Resolution {
                width: *width,
                height: *height,
                fps: *fps,
            },
            DownloadAssetType::Subtitle(id) => DownloadAsset::Subtitle(id@),
            DownloadAssetType::Audio(id) => DownloadAsset::Audio(id@),
            DownloadAssetType::VideoPreview(i) => DownloadAsset::VideoPreview(*i),
            DownloadAssetType::Notes => DownloadAsset::Notes,
            DownloadAssetType::ExtendedDescription => DownloadAsset::ExtendedDescription,
            DownloadAssetType::Attachment(id) => DownloadAsset::Attachment(*id),
        }
    }
}

/// Position of the first `:` in `s`, or its length when there is none.
pub open spec fn first_colon(s: Seq<char>) -> int {
    if exists|i: int| 0 <= i < s.len() && s[i] == ':' && forall|j: int| 0 <= j < i ==> s[j] != ':' {
        choose|i: int| 0 <= i < s.len() && s[i] == ':' && forall|j: int| 0 <= j < i ==> s[j] != ':'
    } else {
        s.len() as int
    }
}

/// The kind part of an asset argument: what stands before the first `:`.
pub open spec fn asset_kind_text(s: Seq<char>) -> Seq<char> {
    s.take(first_colon(s))
}

/// The value part of an asset argument: what follows the first `:`, empty when there
/// is no `:`.
pub open spec fn asset_value_text(s: Seq<char>) -> Seq<char> {
    if first_colon(s) < s.len() {
        s.skip(first_colon(s) + 1)
    } else {
        Seq::<char>::empty()
    }
}

/// The asset that an argument names: `original`, `thumbnail`, `notes`, `ext_desc`,
/// `resolution|res|r:{w}x{h}[:{fps}]`, `subtitle|sub|s:{id}`, `audio|a:{id}`,
/// `attachment:{id}` or `preview|pre|p:{index}`, the kind in any letter case.
pub open spec fn parse_asset_type_spec(s: Seq<char>) -> Option<DownloadAsset> {
    let kind = lower_of(asset_kind_text(s));
    let val = asset_value_text(s);
    if kind == "original"@ {
        Some(DownloadAsset::Original)
    } else if kind == "thumbnail"@ {
        Some(DownloadAsset::Thumbnail)
    } else if kind == "notes"@ {
        Some(DownloadAsset::Notes)
    } else if kind == "ext_desc"@ {
        Some(DownloadAsset::ExtendedDescription)
    } else if kind == "resolution"@ || kind == "res"@ || kind == "r"@ {
        match parse_video_resolution_spec(val) {
            Some((w, h, f)) => Some(DownloadAsset::Resolution { width: w, height: h, fps: f }),
            None => match parse_image_resolution_spec(val) {
                Some((w, h)) => Some(DownloadAsset::Resolution { width: w, height: h, fps: 0 }),
                None => None,
            },
        }
    } else if kind == "subtitle"@ || kind == "sub"@ || kind == "s"@ {
        if val.len() == 0 {
            None
        } else {
            Some(DownloadAsset::Subtitle(val))
        }
    } else if kind == "audio"@ || kind == "a"@ {
        if val.len() == 0 {
            None
        } else {
            Some(DownloadAsset::Audio(val))
        }
    } else if kind == "attachment"@ {
        match parse_u64_spec(val) {
            Some(id) => Some(DownloadAsset::Attachment(id)),
            None => None,
        }
    } else if kind == "preview"@ || kind == "pre"@ || kind == "p"@ {
        match parse_u32_spec(val) {
            Some(i) => Some(DownloadAsset::VideoPreview(i)),
            None => None,
        }
    } else {
        None
    }
}

/// Position of the first `:` of `v`, or its length.
fn find_colon(v: &Vec<char>) -> (r: usize)
    ensures
        r == first_colon(v@),
        r <= v@.len(),
{
    let mut i: usize = 0;
    while i < v.len()
        invariant
            i <= v@.len(),
            forall|j: int| 0 <= j < i ==> v@[j] != ':',
        decreases v.len() - i,
    {
        if v[i] == ':' {
            assert(0 <= i < v@.len() && v@[i as int] == ':' && forall|j: int| 0 <= j < i ==> v@[j] != ':');
            let ghost c = choose|k: int| 0 <= k < v@.len() && v@[k] == ':' && forall|j: int| 0 <= j < k ==> v@[j] != ':';
            assert(c == i as int) by {
                if c < i as int {
                    assert(v@[c] != ':');
                }
                if c > i as int {
                    assert(v@[i as int] != ':');
                }
            }
            return i;
        }
        i = i + 1;
    }
    i
}

/// Reads an asset argument (see `parse_asset_type_spec`); `Err` for any other text.
pub fn parse_asset_type(s: &str) -> (r: Result<DownloadAssetType, ()>)
    ensures
        match r {
            Ok(t) => parse_asset_type_spec(s@) == Some(t@),
            Err(_) => parse_asset_type_spec(s@) is None,
        },
{
    let v = chars_of(s);
    let c = find_colon(&v);
    let kind_raw = string_of_range(&v, 0, c);
    let val = if c < v.len() {
        string_of_range(&v, c + 1, v.len())
    } else {
        String::new()
    };
    proof {
        assert(kind_raw@ =~= asset_kind_text(s@));
        if c < v.len() {
            assert(val@ =~= asset_value_text(s@));
        } else {
            assert(val@ =~= asset_value_text(s@));
        }
    }
    let kind = to_lowercase(kind_raw.as_str());
    let k = kind.as_str();
    if str_equals(k, "original") {
        Ok(DownloadAssetType::Original)
    } else if str_equals(k, "thumbnail") {
        Ok(DownloadAssetType::Thumbnail)
    } else if str_equals(k, "notes") {
        Ok(DownloadAssetType::Notes)
    } else if str_equals(k, "ext_desc") {
        Ok(DownloadAssetType::ExtendedDescription)
    } else if str_equals(k, "resolution") || str_equals(k, "res") || str_equals(k, "r") {
        match ConfigVideoResolution::from_str(val.as_str()) {
            Ok(r) => Ok(DownloadAssetType::Resolution { width: r.width, height: r.height, fps: r.fps }),
            Err(_) => match ConfigImageResolution::from_str(val.as_str()) {
                Ok(r) => Ok(DownloadAssetType::Resolution { width: r.width, height: r.height, fps: 0 }),
                Err(_) => Err(()),
            },
        }
    } else if str_equals(k, "subtitle") || str_equals(k, "sub") || str_equals(k, "s") {
        if val.unicode_len() == 0 {
            Err(())
        } else {
            Ok(DownloadAssetType::Subtitle(val))
        }
    } else if str_equals(k, "audio") || str_equals(k, "a") {
        if val.unicode_len() == 0 {
            Err(())
        } else {
            Ok(DownloadAssetType::Audio(val))
        }
    } else if str_equals(k, "attachment") {
        match parse_u64(val.as_str()) {
            Some(id) => Ok(DownloadAssetType::Attachment(id)),
            None => Err(()),
        }
    } else if str_equals(k, "preview") || str_equals(k, "pre") || str_equals(k, "p") {
        match parse_u32(val.as_str()) {
            Some(i) => Ok(DownloadAssetType::VideoPreview(i)),
            None => Err(()),
        }
    } else {
        Err(())
    }
}


/// Why the asset asked for cannot be downloaded.
#[derive(Clone, Copy, Debug, PartialEq, Eq, Structural)]
pub enum DownloadSelectError {
    /// The original file is not ready.
    OriginalNotReady,
    /// The media asset has no thumbnail.
    NoThumbnail,
    /// The media asset has no extra resolutions.
    NoResolutions,
    /// The matching resolution is not encoded yet.
    ResolutionNotReady,
    /// No resolution matches the one asked for.
    ResolutionNotFound,
    /// The media asset has no subtitles.
    NoSubtitles,
    /// The matching subtitles file is not ready.
    SubtitleNotReady,
    /// No subtitles file has the identifier asked for.
    SubtitleNotFound,
    /// The media asset has no extra audio tracks.
    NoAudioTracks,
    /// The matching audio track is not ready.
    AudioNotReady,
    /// No audio track has the identifier asked for.
    AudioNotFound,
    /// The media asset has no video previews.
    NoVideoPreviews,
    /// The media asset has no image notes.
    NoImageNotes,
    /// The media asset has no extended description.
    NoExtendedDescription,
    /// The media asset has no attachments.
    NoAttachments,
    /// The matching attachment is not ready.
    AttachmentNotReady,
    /// No attachment has the identifier asked for.
    AttachmentNotFound,
    /// The chosen download path is empty.
    AssetNotFound,
}

/// A resolution of a media asset matches the one asked for: the same width and height,
/// and either both with a positive frame rate, the same, or both without one.
pub open spec fn resolution_matches(r: MediaResolution, width: i32, height: i32, fps: i32) -> bool {
    let rf = r.fps_or_zero();
    if fps > 0 && rf > 0 {
        width == r.width && height == r.height && fps == rf
    } else if fps <= 0 && rf <= 0 {
        width == r.width && height == r.height
    } else {
        false
    }
}

/// The path of an asset file that exists and is ready: a non-empty URL.
pub open spec fn ready_url(u: Option<String>) -> Option<Seq<char>> {
    match u {
        Some(s) => if s@.len() > 0 { Some(s@) } else { None },
        None => None,
    }
}

/// Which subtitles files of a list have the identifier `id`, ignoring letter case.
pub open spec fn subtitle_flags(subs: Seq<MediaSubtitle>, id: Seq<char>) -> Seq<bool> {
    subs.map_values(|t: MediaSubtitle| lower_of(t.id@) == lower_of(id))
}

/// Which audio tracks of a list have the identifier `id`, ignoring letter case.
pub open spec fn audio_flags(tracks: Seq<MediaAudioTrack>, id: Seq<char>) -> Seq<bool> {
    tracks.map_values(|t: MediaAudioTrack| lower_of(t.id@) == lower_of(id))
}

/// Which attachments of a list have the identifier `id`.
pub open spec fn attachment_flags(atts: Seq<MediaAttachment>, id: u64) -> Seq<bool> {
    atts.map_values(|a: MediaAttachment| a.id == id)
}

/// Which resolutions of a list match the one asked for.
pub open spec fn resolution_flags(rs: Seq<MediaResolution>, w: i32, h: i32, f: i32) -> Seq<bool> {
    rs.map_values(|r: MediaResolution| resolution_matches(r, w, h, f))
}

/// The path to download for an asset of a media asset, before the check that it is
/// not empty.
pub open spec fn asset_path_spec(m: MediaMetadata, a: DownloadAsset) -> Result<Seq<char>, DownloadSelectError> {
    match a {
        DownloadAsset::Original => match ready_url(m.url) {
            Some(u) => Ok(u),
            None => Err(DownloadSelectError::OriginalNotReady),
        },
        DownloadAsset::Thumbnail => if m.thumbnail@.len() == 0 {
            Err(DownloadSelectError::NoThumbnail)
        } else {
            Ok(m.thumbnail@)
        },
        DownloadAsset::Resolution { width, height, fps } => match m.resolutions {
            None => Err(DownloadSelectError::NoResolutions),
            Some(rs) => if rs@.len() == 0 {
                Err(DownloadSelectError::NoResolutions)
            } else {
                match first_index(resolution_flags(rs@, width, height, fps)) {
                    None => Err(DownloadSelectError::ResolutionNotFound),
                    Some(i) => match ready_url(rs@[i].url) {
                        Some(u) => Ok(u),
                        None => Err(DownloadSelectError::ResolutionNotReady),
                    },
                }
            },
        },
        DownloadAsset::Subtitle(id) => match m.subtitles {
            None => Err(DownloadSelectError::NoSubtitles),
            Some(subs) => if subs@.len() == 0 {
                Err(DownloadSelectError::NoSubtitles)
            } else {
                match first_index(subtitle_flags(subs@, id)) {
                    None => Err(DownloadSelectError::SubtitleNotFound),
                    Some(i) => if subs@[i].url@.len() == 0 {
                        Err(DownloadSelectError::SubtitleNotReady)
                    } else {
                        Ok(subs@[i].url@)
                    },
                }
            },
        },
        DownloadAsset::Audio(id) => match m.audios {
            None => Err(DownloadSelectError::NoAudioTracks),
            Some(tracks) => if tracks@.len() == 0 {
                Err(DownloadSelectError::NoAudioTracks)
            } else {
                match first_index(audio_flags(tracks@, id)) {
                    None => Err(DownloadSelectError::AudioNotFound),
                    Some(i) => if tracks@[i].url@.len() == 0 {
                        Err(DownloadSelectError::AudioNotReady)
                    } else {
                        Ok(tracks@[i].url@)
                    },
                }
            },
        },
        DownloadAsset::VideoPreview(i) => match ready_url(m.video_previews) {
            Some(u) => Ok(replace_all(u, "{INDEX}"@, nat_decimal(i as nat))),
            None => Err(DownloadSelectError::NoVideoPreviews),
        },
        DownloadAsset::Notes => match ready_url(m.img_notes_url) {
            Some(u) => Ok(u),
            None => Err(DownloadSelectError::NoImageNotes),
        },
        DownloadAsset::ExtendedDescription => match ready_url(m.ext_desc_url) {
            Some(u) => Ok(u),
            None => Err(DownloadSelectError::NoExtendedDescription),
        },
        DownloadAsset::Attachment(id) => match m.attachments {
            None => Err(DownloadSelectError::NoAttachments),
            Some(atts) => if atts@.len() == 0 {
                Err(DownloadSelectError::NoAttachments)
            } else {
                match first_index(attachment_flags(atts@, id)) {
                    None => Err(DownloadSelectError::AttachmentNotFound),
                    Some(i) => if atts@[i].url@.len() == 0 {
                        Err(DownloadSelectError::AttachmentNotReady)
                    } else {
                        Ok(atts@[i].url@)
                    },
                }
            },
        },
    }
}

/// The path to download for an asset of a media asset: `asset_path_spec`, with an
/// empty path refused.
pub open spec fn download_path_spec(m: MediaMetadata, a: DownloadAsset) -> Result<Seq<char>, DownloadSelectError> {
    match asset_path_spec(m, a) {
        Ok(p) => if p.len() == 0 { Err(DownloadSelectError::AssetNotFound) } else { Ok(p) },
        Err(e) => Err(e),
    }
}

/// Copies a ready URL.
fn ready_url_of(u: &Option<String>) -> (r: Option<String>)
    ensures
        match r {
            Some(s) => ready_url(*u) == Some(s@),
            None => ready_url(*u) is None,
        },
{
    match u {
        Some(s) => if s.unicode_len() > 0 { Some(s.clone()) } else { None },
        None => None,
    }
}

/// The first resolution of a list that matches the one asked for.
fn find_resolution(rs: &Vec<MediaResolution>, w: i32, h: i32, f: i32) -> (r: Option<usize>)
    ensures
        match r {
            Some(i) => is_first_true(resolution_flags(rs@, w, h, f), i as int),
            None => forall|j: int| 0 <= j < rs@.len() ==> !resolution_flags(rs@, w, h, f)[j],
        },
{
    let ghost flags = resolution_flags(rs@, w, h, f);
    let mut i: usize = 0;
    while i < rs.len()
        invariant
            i <= rs@.len(),
            flags == resolution_flags(rs@, w, h, f),
            flags.len() == rs@.len(),
            forall|j: int| 0 <= j < i ==> !flags[j],
        decreases rs.len() - i,
    {
        let r = &rs[i];
        let rf = match r.fps {
            Some(x) => x,
            None => 0,
        };
        let m = if f > 0 && rf > 0 {
            w == r.width && h == r.height && f == rf
        } else if f <= 0 && rf <= 0 {
            w == r.width && h == r.height
        } else {
            false
        };
        assert(m == flags[i as int]);
        if m {
            return Some(i);
        }
        i = i + 1;
    }
    None
}

/// The first subtitles file of a list with the identifier `id`, ignoring letter case.
fn find_subtitle(subs: &Vec<MediaSubtitle>, id: &str) -> (r: Option<usize>)
    ensures
        match r {
            Some(i) => is_first_true(subtitle_flags(subs@, id@), i as int),
            None => forall|j: int| 0 <= j < subs@.len() ==> !subtitle_flags(subs@, id@)[j],
        },
{
    let ghost flags = subtitle_flags(subs@, id@);
    let target = to_lowercase(id);
    let mut i: usize = 0;
    while i < subs.len()
        invariant
            i <= subs@.len(),
            flags == subtitle_flags(subs@, id@),
            flags.len() == subs@.len(),
            target@ == lower_of(id@),
            forall|j: int| 0 <= j < i ==> !flags[j],
        decreases subs.len() - i,
    {
        let low = to_lowercase(subs[i].id.as_str());
        let m = str_equals(low.as_str(), target.as_str());
        assert(m == flags[i as int]);
        if m {
            return Some(i);
        }
        i = i + 1;
    }
    None
}

/// The first audio track of a list with the identifier `id`, ignoring letter case.
fn find_audio(tracks: &Vec<MediaAudioTrack>, id: &str) -> (r: Option<usize>)
    ensures
        match r {
            Some(i) => is_first_true(audio_flags(tracks@, id@), i as int),
            None => forall|j: int| 0 <= j < tracks@.len() ==> !audio_flags(tracks@, id@)[j],
        },
{
    let ghost flags = audio_flags(tracks@, id@);
    let target = to_lowercase(id);
    let mut i: usize = 0;
    while i < tracks.len()
        invariant
            i <= tracks@.len(),
            flags == audio_flags(tracks@, id@),
            flags.len() == tracks@.len(),
            target@ == lower_of(id@),
            forall|j: int| 0 <= j < i ==> !flags[j],
        decreases tracks.len() - i,
    {
        let low = to_lowercase(tracks[i].id.as_str());
        let m = str_equals(low.as_str(), target.as_str());
        assert(m == flags[i as int]);
        if m {
            return Some(i);
        }
        i = i + 1;
    }
    None
}

/// The first attachment of a list with the identifier `id`.
fn find_attachment(atts: &Vec<MediaAttachment>, id: u64) -> (r: Option<usize>)
    ensures
        match r {
            Some(i) => is_first_true(attachment_flags(atts@, id), i as int),
            None => forall|j: int| 0 <= j < atts@.len() ==> !attachment_flags(atts@, id)[j],
        },
{
    let ghost flags = attachment_flags(atts@, id);
    let mut i: usize = 0;
    while i < atts.len()
        invariant
            i <= atts@.len(),
            flags == attachment_flags(atts@, id),
            flags.len() == atts@.len(),
            forall|j: int| 0 <= j < i ==> !flags[j],
        decreases atts.len() - i,
    {
        let m = atts[i].id == id;
        assert(m == flags[i as int]);
        if m {
            return Some(i);
        }
        i = i + 1;
    }
    None
}

/// The path to download for an asset of a media asset, or why there is none (see
/// `download_path_spec`). The path of a video preview is the previews URL with
/// `{INDEX}` replaced by the preview's index.
pub fn select_download_path(media: &MediaMetadata, asset: &DownloadAssetType) -> (r: Result<String, DownloadSelectError>)
    ensures
        match r {
            Ok(p) => download_path_spec(*media, asset@) == Ok::<Seq<char>, DownloadSelectError>(p@),
            Err(e) => download_path_spec(*media, asset@) == Err::<Seq<char>, DownloadSelectError>(e),
        },
{
    let path: String = match asset {
        DownloadAssetType::Original => match ready_url_of(&media.url) {
            Some(u) => u,
            None => return Err(DownloadSelectError::OriginalNotReady),
        },
        DownloadAssetType::Thumbnail => {
            if media.thumbnail.unicode_len() == 0 {
                return Err(DownloadSelectError::NoThumbnail);
            }
            media.thumbnail.clone()
        },
        DownloadAssetType::Resolution { width, height, fps } => match &media.resolutions {
            None => return Err(DownloadSelectError::NoResolutions),
            Some(rs) => {
                if rs.len() == 0 {
                    return Err(DownloadSelectError::NoResolutions);
                }
                match find_resolution(rs, *width, *height, *fps) {
                    None => {
                        proof {
                            lemma_first_index_none(resolution_flags(rs@, *width, *height, *fps));
                        }
                        return Err(DownloadSelectError::ResolutionNotFound);
                    },
                    Some(i) => {
                        proof {
                            lemma_first_index_at(resolution_flags(rs@, *width, *height, *fps), i as int);
                        }
                        match ready_url_of(&rs[i].url) {
                            Some(u) => u,
                            None => return Err(DownloadSelectError::ResolutionNotReady),
                        }
                    },
                }
            },
        },
        DownloadAssetType::Subtitle(id) => match &media.subtitles {
            None => return Err(DownloadSelectError::NoSubtitles),
            Some(subs) => {
                if subs.len() == 0 {
                    return Err(DownloadSelectError::NoSubtitles);
                }
                match find_subtitle(subs, id.as_str()) {
                    None => {
                        proof {
                            lemma_first_index_none(subtitle_flags(subs@, id@));
                        }
                        return Err(DownloadSelectError::SubtitleNotFound);
                    },
                    Some(i) => {
                        proof {
                            lemma_first_index_at(subtitle_flags(subs@, id@), i as int);
                        }
                        if subs[i].url.unicode_len() == 0 {
                            return Err(DownloadSelectError::SubtitleNotReady);
                        }
                        subs[i].url.clone()
                    },
                }
            },
        },
        DownloadAssetType::Audio(id) => match &media.audios {
            None => return Err(DownloadSelectError::NoAudioTracks),
            Some(tracks) => {
                if tracks.len() == 0 {
                    return Err(DownloadSelectError::NoAudioTracks);
                }
                match find_audio(tracks, id.as_str()) {
                    None => {
                        proof {
                            lemma_first_index_none(audio_flags(tracks@, id@));
                        }
                        return Err(DownloadSelectError::AudioNotFound);
                    },
                    Some(i) => {
                        proof {
                            lemma_first_index_at(audio_flags(tracks@, id@), i as int);
                        }
                        if tracks[i].url.unicode_len() == 0 {
                            return Err(DownloadSelectError::AudioNotReady);
                        }
                        tracks[i].url.clone()
                    },
                }
            },
        },
        DownloadAssetType::VideoPreview(i) => match ready_url_of(&media.video_previews) {
            Some(u) => {
                let index_str = u64_to_string(*i as u64);
                proof {
                    reveal_strlit("{INDEX}");
                }
                replace_all_str(u.as_str(), "{INDEX}", index_str.as_str())
            },
            None => return Err(DownloadSelectError::NoVideoPreviews),
        },
        DownloadAssetType::Notes => match ready_url_of(&media.img_notes_url) {
            Some(u) => u,
            None => return Err(DownloadSelectError::NoImageNotes),
        },
        DownloadAssetType::ExtendedDescription => match ready_url_of(&media.ext_desc_url) {
            Some(u) => u,
            None => return Err(DownloadSelectError::NoExtendedDescription),
        },
        DownloadAssetType::Attachment(id) => match &media.attachments {
            None => return Err(DownloadSelectError::NoAttachments),
            Some(atts) => {
                if atts.len() == 0 {
                    return Err(DownloadSelectError::NoAttachments);
                }
                match find_attachment(atts, *id) {
                    None => {
                        proof {
                            lemma_first_index_none(attachment_flags(atts@, *id));
                        }
                        return Err(DownloadSelectError::AttachmentNotFound);
                    },
                    Some(i) => {
                        proof {
                            lemma_first_index_at(attachment_flags(atts@, *id), i as int);
                        }
                        if atts[i].url.unicode_len() == 0 {
                            return Err(DownloadSelectError::AttachmentNotReady);
                        }
                        atts[i].url.clone()
                    },
                }
            },
        },
    };
    assert(asset_path_spec(*media, asset@) == Ok::<Seq<char>, DownloadSelectError>(path@));
    if path.unicode_len() == 0 {
        return Err(DownloadSelectError::AssetNotFound);
    }
    Ok(path)
}


/// The file name a download path gives: its last `/`-separated piece, cut at the first
/// `?`.
pub open spec fn path_file_name(path: Seq<char>) -> Seq<char> {
    split_char(split_char(path, '/').last(), '?')[0]
}

/// Where a download is written: the output file given, unless it is absent or empty;
/// then the file name of the download path.
pub open spec fn download_output_spec(path: Seq<char>, output: Option<Seq<char>>) -> Seq<char> {
    match output {
        Some(f) => if f.len() > 0 { f } else { path_file_name(path) },
        None => path_file_name(path),
    }
}

/// The file name a download path gives (see `path_file_name`).
pub fn file_name_of_path(path: &str) -> (r: String)
    ensures
        r@ == path_file_name(path@),
{
    let v = chars_of(path);
    let parts = split_ranges(&v, '/');
    proof {
        lemma_split_char_len(v@, '/');
    }
    let last = parts[parts.len() - 1];
    assert(range_pieces(v@, parts@)[parts@.len() - 1] == v@.subrange(last.0 as int, last.1 as int));
    let piece = sub_vec(&v, last.0, last.1);
    let qs = split_ranges(&piece, '?');
    proof {
        lemma_split_char_len(piece@, '?');
    }
    let first = qs[0];
    assert(range_pieces(piece@, qs@)[0] == piece@.subrange(first.0 as int, first.1 as int));
    string_of_range(&piece, first.0, first.1)
}

/// Where a download is written (see `download_output_spec`).
pub fn download_output_file(path: &str, output: Option<String>) -> (r: String)
    ensures
        r@ == download_output_spec(path@, match output {
            Some(f) => Some(f@),
            None => None,
        }),
{
    match output {
        Some(f) => if f.unicode_len() > 0 { f } else { file_name_of_path(path) },
        None => file_name_of_path(path),
    }
}

/// The asset a download command fetches: the one its argument names (see
/// `parse_asset_type_spec`), the original when no asset is given.
pub open spec fn requested_asset_spec(asset: Option<Seq<char>>) -> Option<DownloadAsset> {
    match asset {
        Some(a) => parse_asset_type_spec(a),
        None => Some(DownloadAsset::Original),
    }
}

/// The asset a download command fetches (see `requested_asset_spec`); `Err` when the
/// argument names none.
pub fn requested_asset(asset: &Option<String>) -> (r: Result<DownloadAssetType, ()>)
    ensures
        match r {
            Ok(t) => requested_asset_spec(opt_seq(*asset)) == Some(t@),
            Err(_) => requested_asset_spec(opt_seq(*asset)) is None,
        },
{
    match asset {
        Some(a) => parse_asset_type(a.as_str()),
        None => Ok(DownloadAssetType::Original),
    }
}

/// The characters of an optional text.
pub open spec fn opt_seq(o: Option<String>) -> Option<Seq<char>> {
    match o {
        Some(s) => Some(s@),
        None => None,
    }
}

/// What a download command does with the path it chose.
#[derive(Debug)]
pub enum DownloadAction {
    /// Prints the link to the path, resolved against the vault URL, and downloads
    /// nothing.
    PrintLink(String),
    /// Downloads the path into a file.
    Save { path: String, file: String },
}

/// What a download command does with the path it chose, as text.
pub enum DownloadActionView {
    PrintLink(Seq<char>),
    Save { path: Seq<char>, file: Seq<char> },
}

impl View for DownloadAction {
    type V = DownloadActionView;

    open spec fn view(&self) -> DownloadActionView {
        match self {
            DownloadAction::PrintLink(p) => DownloadActionView::PrintLink(p@),
            DownloadAction::Save { path, file } => DownloadActionView::Save { path: path@, file: file@ },
        }
    }
}

/// What a download command does with the path it chose: print its link when asked
/// to, else save it into the output file (see `download_output_spec`).
pub open spec fn download_action_spec(path: Seq<char>, print_link: bool, output: Option<Seq<char>>) -> DownloadActionView {
    if print_link {
        DownloadActionView::PrintLink(path)
    } else {
        DownloadActionView::Save { path: path, file: download_output_spec(path, output) }
    }
}

/// What a download command does with the path it chose (see `download_action_spec`).
pub fn download_action(path: String, print_link: bool, output: Option<String>) -> (r: DownloadAction)
    ensures
        r@ == download_action_spec(path@, print_link, opt_seq(output)),
{
    if print_link {
        DownloadAction::PrintLink(path)
    } else {
        let file = download_output_file(path.as_str(), output);
        DownloadAction::Save { path, file }
    }
}

/// Shows the progress of a download on one terminal line that each update overwrites.
pub struct DownloaderProgressPrinter {
    last_line_width: usize,
}

impl DownloaderProgressPrinter {
    /// Display width of the last line printed.
    pub closed spec fn last_width(&self) -> int {
        self.last_line_width as int
    }

    /// A printer that has printed nothing yet.
    pub fn new() -> (p: DownloaderProgressPrinter)
        ensures
            p.last_width() == 0,
    {
        DownloaderProgressPrinter { last_line_width: 0 }
    }

    /// The first line, `Downloading...`.
    pub fn progress_start(&mut self) -> (line: String)
        ensures
            line@ == "Downloading..."@,
            final(self).last_width() == display_width(line@),
    {
        let line = String::from_str("Downloading...");
        self.last_line_width = str_width(line.as_str());
        line
    }

    /// The line for `loaded` of `total` bytes received, padded with spaces to cover the
    /// previous line; `percent` is the percentage written with two decimals.
    pub fn progress_update(&mut self, loaded: u64, total: u64, percent: &str) -> (line: String)
        ensures
            line@ == padded_line(
                transfer_progress_text("Downloading"@, loaded, total, percent@),
                old(self).last_width(),
            ),
            final(self).last_width() == display_width(line@),
            final(self).last_width() == (if old(self).last_width() > display_width(transfer_progress_text("Downloading"@, loaded, total, percent@)) {
                old(self).last_width()
            } else {
                display_width(transfer_progress_text("Downloading"@, loaded, total, percent@)) as int
            }),
            final(self).last_width() >= old(self).last_width(),
            printable_ascii(transfer_progress_text("Downloading"@, loaded, total, percent@)) ==> display_width(
                transfer_progress_text("Downloading"@, loaded, total, percent@),
            ) == (transfer_progress_text("Downloading"@, loaded, total, percent@)).len(),
    {
        let text = transfer_progress_line("Downloading", loaded, total, percent);
        let (line, w) = pad_line(text, self.last_line_width);
        self.last_line_width = w;
        line
    }
}


/// The resolution text of an asset that is a resolution; empty for other assets.
pub open spec fn asset_resolution_text(a: DownloadAsset) -> Seq<char> {
    match a {
        DownloadAsset::Resolution { width, height, fps } => resolution_text(width as int, height as int, fps as int),
        _ => Seq::<char>::empty(),
    }
}

/// The identifier of an asset that is a subtitles file, an audio track or an
/// attachment; empty for other assets.
pub open spec fn asset_id_text(a: DownloadAsset) -> Seq<char> {
    match a {
        DownloadAsset::Subtitle(id) => id,
        DownloadAsset::Audio(id) => id,
        DownloadAsset::Attachment(id) => nat_decimal(id as nat),
        _ => Seq::<char>::empty(),
    }
}

/// The message reported when an asset cannot be downloaded.
pub open spec fn download_error_text(e: DownloadSelectError, a: DownloadAsset) -> Seq<char> {
    match e {
        DownloadSelectError::OriginalNotReady => "Original asset is not ready"@,
        DownloadSelectError::NoThumbnail => "This media asset has no thumbnail"@,
        DownloadSelectError::NoResolutions => "This media asset has no resolutions"@,
        DownloadSelectError::ResolutionNotReady => "No resolution "@ + asset_resolution_text(a) + " is not ready yet"@,
        DownloadSelectError::ResolutionNotFound => "No resolution found matching "@ + asset_resolution_text(a),
        DownloadSelectError::NoSubtitles => "This media asset has no subtitles"@,
        DownloadSelectError::SubtitleNotReady => "The subtitle is not ready yet"@,
        DownloadSelectError::SubtitleNotFound => "No subtitle found matching "@ + asset_id_text(a),
        DownloadSelectError::NoAudioTracks => "This media asset has no audio tracks"@,
        DownloadSelectError::AudioNotReady => "The audio track is not ready yet"@,
        DownloadSelectError::AudioNotFound => "No audio track found matching "@ + asset_id_text(a),
        DownloadSelectError::NoVideoPreviews => "This media asset has no video previews"@,
        DownloadSelectError::NoImageNotes => "This media asset has no image notes"@,
        DownloadSelectError::NoExtendedDescription => "This media asset has no extended description"@,
        DownloadSelectError::NoAttachments => "This media asset has no attachments"@,
        DownloadSelectError::AttachmentNotReady => "The attachment is not ready yet"@,
        DownloadSelectError::AttachmentNotFound => "No attachment found matching "@ + asset_id_text(a),
        DownloadSelectError::AssetNotFound => "Could not find the specified asset"@,
    }
}

impl DownloadSelectError {
    /// The message reported for this error, for the asset that was asked for.
    pub fn message(&self, asset: &DownloadAssetType) -> (r: String)
        ensures
            r@ == download_error_text(*self, asset@),
    {
        let res_text = match asset {
            DownloadAssetType::Resolution { width, height, fps } => {
                let t = TaskEncodeResolution { width: *width, height: *height, fps: *fps };
                t.to_string()
            },
            _ => String::new(),
        };
        let id_text = match asset {
            DownloadAssetType::Subtitle(id) => id.clone(),
            DownloadAssetType::Audio(id) => id.clone(),
            DownloadAssetType::Attachment(id) => u64_to_string(*id),
            _ => String::new(),
        };
        assert(res_text@ == asset_resolution_text(asset@));
        assert(id_text@ == asset_id_text(asset@));
        let mut r = String::new();
        match self {
            DownloadSelectError::OriginalNotReady => push_str(&mut r, "Original asset is not ready"),
            DownloadSelectError::NoThumbnail => push_str(&mut r, "This media asset has no thumbnail"),
            DownloadSelectError::NoResolutions => push_str(&mut r, "This media asset has no resolutions"),
            DownloadSelectError::ResolutionNotReady => {
                push_str(&mut r, "No resolution ");
                push_str(&mut r, res_text.as_str());
                push_str(&mut r, " is not ready yet");
            },
            DownloadSelectError::ResolutionNotFound => {
                push_str(&mut r, "No resolution found matching ");
                push_str(&mut r, res_text.as_str());
            },
            DownloadSelectError::NoSubtitles => push_str(&mut r, "This media asset has no subtitles"),
            DownloadSelectError::SubtitleNotReady => push_str(&mut r, "The subtitle is not ready yet"),
            DownloadSelectError::SubtitleNotFound => {
                push_str(&mut r, "No subtitle found matching ");
                push_str(&mut r, id_text.as_str());
            },
            DownloadSelectError::NoAudioTracks => push_str(&mut r, "This media asset has no audio tracks"),
            DownloadSelectError::AudioNotReady => push_str(&mut r, "The audio track is not ready yet"),
            DownloadSelectError::AudioNotFound => {
                push_str(&mut r, "No audio track found matching ");
                push_str(&mut r, id_text.as_str());
            },
            DownloadSelectError::NoVideoPreviews => push_str(&mut r, "This media asset has no video previews"),
            DownloadSelectError::NoImageNotes => push_str(&mut r, "This media asset has no image notes"),
            DownloadSelectError::NoExtendedDescription => push_str(&mut r, "This media asset has no extended description"),
            DownloadSelectError::NoAttachments => push_str(&mut r, "This media asset has no attachments"),
            DownloadSelectError::AttachmentNotReady => push_str(&mut r, "The attachment is not ready yet"),
            DownloadSelectError::AttachmentNotFound => {
                push_str(&mut r, "No attachment found matching ");
                push_str(&mut r, id_text.as_str());
            },
            DownloadSelectError::AssetNotFound => push_str(&mut r, "Could not find the specified asset"),
        }
        assert(r@ =~= download_error_text(*self, asset@));
        r
    }
}

/// The kind of an asset argument is what stands before its first `:`: if it reads
/// `notes`, `original`, `thumbnail` or `ext_desc` in any letter case, the argument
/// names the image notes, the original, the thumbnail or the extended description,
/// whatever follows the `:`.
pub proof fn law_word_assets(s: Seq<char>, k: int)
    requires
        0 <= k <= s.len(),
        k == s.len() || s[k] == ':',
        forall|j: int| 0 <= j < k ==> s[j] != ':',
    ensures
        lower_of(s.take(k)) == "notes"@ ==> parse_asset_type_spec(s) == Some(DownloadAsset::Notes),
        lower_of(s.take(k)) == "original"@ ==> parse_asset_type_spec(s) == Some(DownloadAsset::Original),
        lower_of(s.take(k)) == "thumbnail"@ ==> parse_asset_type_spec(s) == Some(DownloadAsset::Thumbnail),
        lower_of(s.take(k)) == "ext_desc"@ ==> parse_asset_type_spec(s) == Some(
            DownloadAsset::ExtendedDescription,
        ),
{
    reveal_strlit("notes");
    reveal_strlit("original");
    reveal_strlit("thumbnail");
    reveal_strlit("ext_desc");
    if k < s.len() {
        assert(0 <= k < s.len() && s[k] == ':' && forall|j: int| 0 <= j < k ==> s[j] != ':');
        let c = choose|i: int| 0 <= i < s.len() && s[i] == ':' && forall|j: int| 0 <= j < i ==> s[j] != ':';
        assert(c == k) by {
            if c < k {
                assert(s[c] != ':');
            }
            if c > k {
                assert(s[k] != ':');
            }
        }
    } else {
        if exists|i: int| 0 <= i < s.len() && s[i] == ':' && forall|j: int| 0 <= j < i ==> s[j] != ':' {
            let c = choose|i: int| 0 <= i < s.len() && s[i] == ':' && forall|j: int| 0 <= j < i ==> s[j] != ':';
            assert(s[c] != ':');
        }
    }
    assert(first_colon(s) == k);
    assert(asset_kind_text(s) == s.take(k));
    assert("notes"@.len() == 5);
    assert("original"@.len() == 8);
    assert("thumbnail"@.len() == 9);
    assert("notes"@ != "original"@);
    assert("notes"@ != "thumbnail"@);
    assert("thumbnail"@ != "original"@);
    assert("ext_desc"@.len() == 8);
    assert("ext_desc"@[0] != "original"@[0]);
    assert("ext_desc"@ != "original"@);
    assert("ext_desc"@ != "thumbnail"@);
    assert("ext_desc"@ != "notes"@);
}

/// Where the kind before the first `:` is `subtitle`, `sub` or `s` (any letter case),
/// the argument names the subtitles file whose identifier is everything after that
/// `:`; likewise `audio` or `a` for an audio track; `attachment` names the attachment
/// whose number follows; `preview`, `pre` or `p` the video preview whose index
/// follows.
pub proof fn law_valued_assets(s: Seq<char>, k: int)
    requires
        0 <= k < s.len(),
        s[k] == ':',
        forall|j: int| 0 <= j < k ==> s[j] != ':',
    ensures
        ({
            let kind = lower_of(s.take(k));
            let v = s.skip(k + 1);
            &&& (kind == "subtitle"@ || kind == "sub"@ || kind == "s"@) && v.len() > 0 ==> parse_asset_type_spec(s)
                == Some(DownloadAsset::Subtitle(v))
            &&& (kind == "audio"@ || kind == "a"@) && v.len() > 0 ==> parse_asset_type_spec(s) == Some(
                DownloadAsset::Audio(v),
            )
            &&& kind == "attachment"@ && parse_u64_spec(v) is Some ==> parse_asset_type_spec(s) == Some(
                DownloadAsset::Attachment(parse_u64_spec(v)->Some_0),
            )
            &&& (kind == "preview"@ || kind == "pre"@ || kind == "p"@) && parse_u32_spec(v) is Some
                ==> parse_asset_type_spec(s) == Some(DownloadAsset::VideoPreview(parse_u32_spec(v)->Some_0))
        }),
{
    reveal_strlit("original");
    reveal_strlit("thumbnail");
    reveal_strlit("notes");
    reveal_strlit("ext_desc");
    reveal_strlit("resolution");
    reveal_strlit("res");
    reveal_strlit("r");
    reveal_strlit("subtitle");
    reveal_strlit("sub");
    reveal_strlit("s");
    reveal_strlit("audio");
    reveal_strlit("a");
    reveal_strlit("attachment");
    reveal_strlit("preview");
    reveal_strlit("pre");
    reveal_strlit("p");
    assert(0 <= k < s.len() && s[k] == ':' && forall|j: int| 0 <= j < k ==> s[j] != ':');
    let c = choose|i: int| 0 <= i < s.len() && s[i] == ':' && forall|j: int| 0 <= j < i ==> s[j] != ':';
    assert(c == k) by {
        if c < k {
            assert(s[c] != ':');
        }
        if c > k {
            assert(s[k] != ':');
        }
    }
    assert(asset_kind_text(s) == s.take(k));
    assert(asset_value_text(s) == s.skip(k + 1));
    let kind = lower_of(s.take(k));
    if kind == "subtitle"@ || kind == "sub"@ || kind == "s"@ || kind == "audio"@ || kind == "a"@ || kind
        == "attachment"@ || kind == "preview"@ || kind == "pre"@ || kind == "p"@ {
        assert(kind[0] == 's' || kind[0] == 'a' || kind[0] == 'p');
        assert(kind != "original"@ && kind != "thumbnail"@ && kind != "notes"@ && kind != "ext_desc"@
            && kind != "resolution"@ && kind != "res"@ && kind != "r"@) by {
            assert("original"@[0] == 'o');
            assert("thumbnail"@[0] == 't');
            assert("notes"@[0] == 'n');
            assert("ext_desc"@[0] == 'e');
            assert("resolution"@[0] == 'r');
            assert("res"@[0] == 'r');
            assert("r"@[0] == 'r');
        }
        if kind[0] == 'a' {
            assert(kind != "subtitle"@ && kind != "sub"@ && kind != "s"@) by {
                assert("subtitle"@[0] == 's');
                assert("sub"@[0] == 's');
                assert("s"@[0] == 's');
            }
            assert(kind == "attachment"@ ==> kind != "audio"@ && kind != "a"@) by {
                assert("attachment"@.len() == 10);
                assert("audio"@.len() == 5);
                assert("a"@.len() == 1);
            }
        }
        if kind[0] == 'p' {
            assert(kind != "subtitle"@ && kind != "sub"@ && kind != "s"@ && kind != "audio"@ && kind != "a"@
                && kind != "attachment"@) by {
                assert("subtitle"@[0] == 's');
                assert("sub"@[0] == 's');
                assert("s"@[0] == 's');
                assert("audio"@[0] == 'a');
                assert("a"@[0] == 'a');
                assert("attachment"@[0] == 'a');
            }
        }
    }
}

/// Without an asset argument the original is downloaded; asked to print the link, the
/// command prints the chosen path and saves nothing; otherwise it saves into the
/// output file when one is named.
pub proof fn law_download_choice(path: Seq<char>, output: Option<Seq<char>>, f: Seq<char>)
    ensures
        requested_asset_spec(None) == Some(DownloadAsset::Original),
        download_action_spec(path, true, output) == DownloadActionView::PrintLink(path),
        f.len() > 0 ==> download_action_spec(path, false, Some(f)) == (DownloadActionView::Save {
            path: path,
            file: f,
        }),
{
}

/// The single files of a media asset are downloaded from their own URLs: the
/// original from its URL when ready, the thumbnail, the image notes and the extended
/// description likewise; when a file is missing, the download is refused with the
/// error that names it.
pub proof fn law_single_file_paths(m: MediaMetadata)
    ensures
        m.url is Some && m.url->Some_0@.len() > 0 ==> download_path_spec(m, DownloadAsset::Original)
            == Ok::<Seq<char>, DownloadSelectError>(m.url->Some_0@),
        !(m.url is Some && m.url->Some_0@.len() > 0) ==> download_path_spec(m, DownloadAsset::Original)
            == Err::<Seq<char>, DownloadSelectError>(DownloadSelectError::OriginalNotReady),
        m.thumbnail@.len() > 0 ==> download_path_spec(m, DownloadAsset::Thumbnail)
            == Ok::<Seq<char>, DownloadSelectError>(m.thumbnail@),
        m.thumbnail@.len() == 0 ==> download_path_spec(m, DownloadAsset::Thumbnail)
            == Err::<Seq<char>, DownloadSelectError>(DownloadSelectError::NoThumbnail),
        m.img_notes_url is Some && m.img_notes_url->Some_0@.len() > 0 ==> download_path_spec(m, DownloadAsset::Notes)
            == Ok::<Seq<char>, DownloadSelectError>(m.img_notes_url->Some_0@),
        !(m.img_notes_url is Some && m.img_notes_url->Some_0@.len() > 0) ==> download_path_spec(m, DownloadAsset::Notes)
            == Err::<Seq<char>, DownloadSelectError>(DownloadSelectError::NoImageNotes),
        m.ext_desc_url is Some && m.ext_desc_url->Some_0@.len() > 0 ==> download_path_spec(
            m,
            DownloadAsset::ExtendedDescription,
        ) == Ok::<Seq<char>, DownloadSelectError>(m.ext_desc_url->Some_0@),
        !(m.ext_desc_url is Some && m.ext_desc_url->Some_0@.len() > 0) ==> download_path_spec(
            m,
            DownloadAsset::ExtendedDescription,
        ) == Err::<Seq<char>, DownloadSelectError>(DownloadSelectError::NoExtendedDescription),
{
}

} // verus!
