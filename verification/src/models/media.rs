//! Media assets and their extra files.
use vstd::prelude::*;

use crate::text::{
    chars_of, int_decimal, join_seqs, lemma_split_char_len, lower_of, push_char, push_i64_decimal,
    push_joined, range_pieces, split_char, split_ranges, str_equals, string_of_range, to_lowercase,
    trim_range, trim_seq,
};
use crate::models::config::sub_vec;
use crate::models::config::push_size_text;
use crate::models::config::opt_text;

verus! {

/// Kind of a media asset.
#[derive(Clone, Copy, Debug, PartialEq, Eq, Structural)]
pub enum MediaType {
    Deleted,
    Image,
    Video,
    Audio,
}

impl MediaType {
    /// The label shown for the kind of asset.
    pub open spec fn label(self) -> Seq<char> {
        match self {
            MediaType::Deleted => "N/A"@,
            MediaType::Image => "Image"@,
            MediaType::Video => "Video"@,
            MediaType::Audio => "Audio"@,
        }
    }

    /// The label shown for the kind of asset: `N/A`, `Image`, `Video` or `Audio`.
    pub fn to_string(&self) -> (r: String)
        ensures
            r@ == self.label(),
    {
        match self {
            MediaType::Deleted => String::from_str("N/A"),
            MediaType::Image => String::from_str("Image"),
            MediaType::Video => String::from_str("Video"),
            MediaType::Audio => String::from_str("Audio"),
        }
    }
}

/// The kind of asset named by an already lowercased word.
pub open spec fn media_type_from_lowercase_spec(s: Seq<char>) -> Option<MediaType> {
    if s == "video"@ || s == "videos"@ {
        Some(MediaType::Video)
    } else if s == "audio"@ || s == "audios"@ {
        Some(MediaType::Audio)
    } else if s == "image"@ || s == "images"@ || s == "picture"@ || s == "pictures"@ {
        Some(MediaType::Image)
    } else {
        None
    }
}

/// Reads a kind of asset from a lowercased word: `video(s)`, `audio(s)`, `image(s)` or
/// `picture(s)`.
pub fn media_type_from_lowercase(s: &str) -> (r: Result<MediaType, ()>)
    ensures
        r == (match media_type_from_lowercase_spec(s@) {
            Some(t) => Ok::<MediaType, ()>(t),
            None => Err(()),
        }),
{
    if str_equals(s, "video") || str_equals(s, "videos") {
        Ok(MediaType::Video)
    } else if str_equals(s, "audio") || str_equals(s, "audios") {
        Ok(MediaType::Audio)
    } else if str_equals(s, "image") || str_equals(s, "images") || str_equals(s, "picture")
        || str_equals(s, "pictures") {
        Ok(MediaType::Image)
    } else {
        Err(())
    }
}

/// Reads a kind of asset, ignoring letter case.
pub fn parse_media_type(s: &str) -> (r: Result<MediaType, ()>)
    ensures
        r == (match media_type_from_lowercase_spec(lower_of(s@)) {
            Some(t) => Ok::<MediaType, ()>(t),
            None => Err(()),
        }),
{
    let lower = to_lowercase(s);
    media_type_from_lowercase(lower.as_str())
}

/// `{width}x{height}:{fps}` when `fps` is positive, else `{width}x{height}`.
pub open spec fn resolution_text(w: int, h: int, fps: int) -> Seq<char> {
    if fps > 0 {
        int_decimal(w) + seq!['x'] + int_decimal(h) + seq![':'] + int_decimal(fps)
    } else {
        int_decimal(w) + seq!['x'] + int_decimal(h)
    }
}

/// Writes a resolution: `{width}x{height}:{fps}` when `fps` is positive, else
/// `{width}x{height}`.
pub fn resolution_to_string(w: i32, h: i32, fps: i32) -> (r: String)
    ensures
        r@ == resolution_text(w as int, h as int, fps as int),
{
    let mut r = String::new();
    push_size_text(&mut r, w, h);
    if fps > 0 {
        push_char(&mut r, ':');
        push_i64_decimal(&mut r, fps as i64);
    }
    assert(r@ =~= resolution_text(w as int, h as int, fps as int));
    r
}

/// An extra resolution of a media asset.
pub struct MediaResolution {
    pub width: i32,
    pub height: i32,
    pub fps: Option<i32>,
    pub ready: bool,
    pub task: Option<u64>,
    pub url: Option<String>,
}

impl MediaResolution {
    /// The frame rate, zero when absent.
    pub open spec fn fps_or_zero(&self) -> i32 {
        match self.fps {
            Some(f) => f,
            None => 0,
        }
    }

    /// Writes the resolution; a missing frame rate counts as zero.
    pub fn to_string(&self) -> (r: String)
        ensures
            r@ == resolution_text(self.width as int, self.height as int, self.fps_or_zero() as int),
    {
        let fps = match self.fps {
            Some(f) => f,
            None => 0,
        };
        resolution_to_string(self.width, self.height, fps)
    }
}

/// A subtitles file of a media asset.
pub struct MediaSubtitle {
    pub id: String,
    pub name: String,
    pub url: String,
}

/// An extra audio track of a media asset.
pub struct MediaAudioTrack {
    pub id: String,
    pub name: String,
    pub url: String,
}

/// A file attached to a media asset.
pub struct MediaAttachment {
    pub id: u64,
    pub name: String,
    pub size: u64,
    pub url: String,
}

/// A media asset as lists show it.
pub struct MediaListItem {
    pub id: u64,
    pub media_type: MediaType,
    pub title: String,
    pub description: String,
    pub thumbnail: Option<String>,
    pub tags: Vec<u64>,
}

/// The metadata of a media asset that the commands read.
pub struct MediaMetadata {
    pub id: u64,
    pub media_type: MediaType,
    pub upload_time: i64,
    pub title: String,
    pub description: String,
    pub thumbnail: String,
    pub tags: Vec<u64>,
    pub width: Option<i32>,
    pub height: Option<i32>,
    pub fps: Option<i32>,
    pub ready: bool,
    pub ready_p: Option<i32>,
    pub encoded: bool,
    pub task: Option<u64>,
    pub url: Option<String>,
    pub video_previews: Option<String>,
    pub force_start_beginning: Option<bool>,
    pub is_anim: Option<bool>,
    pub resolutions: Option<Vec<MediaResolution>>,
    pub subtitles: Option<Vec<MediaSubtitle>>,
    pub audios: Option<Vec<MediaAudioTrack>>,
    /// The names of the time slices, in order; their times are floating-point
    /// numbers, which this library does not hold.
    pub time_slices: Option<Vec<String>>,
    pub img_notes: Option<bool>,
    pub img_notes_url: Option<String>,
    pub ext_desc_url: Option<String>,
    pub attachments: Option<Vec<MediaAttachment>>,
}

/// A subtitles file or an audio track in the metadata of an exported media asset.
pub struct MediaSubtitleOrAudioExport {
    pub id: String,
    pub name: String,
    /// The file, relative to the export folder.
    pub file: String,
}

/// An attachment in the metadata of an exported media asset.
pub struct MediaAttachmentExport {
    pub name: String,
    /// The file, relative to the export folder.
    pub file: String,
}

/// The metadata file of an exported media asset: the files of its assets, relative
/// to the export folder, and the metadata an import sets again.
pub struct MediaMetadataExport {
    pub original: Option<String>,
    pub thumbnail: Option<String>,
    pub notes: Option<String>,
    pub ext_desc: Option<String>,
    pub title: Option<String>,
    pub description: Option<String>,
    pub tags: Option<Vec<String>>,
    pub force_start_beginning: Option<bool>,
    pub is_anim: Option<bool>,
    /// The names of the time slices, in order; their times are floating-point
    /// numbers, which this library does not hold.
    pub time_slices: Option<Vec<String>>,
    pub subtitles: Option<Vec<MediaSubtitleOrAudioExport>>,
    pub audios: Option<Vec<MediaSubtitleOrAudioExport>>,
    pub attachments: Option<Vec<MediaAttachmentExport>>,
}

/// A subtitles file or an audio track of an exported media asset, as text.
pub struct TrackExportView {
    pub id: Seq<char>,
    pub name: Seq<char>,
    pub file: Seq<char>,
}

/// An attachment of an exported media asset, as text.
pub struct AttachmentExportView {
    pub name: Seq<char>,
    pub file: Seq<char>,
}

/// The metadata of an exported media asset, as text.
pub struct MediaMetadataExportView {
    pub original: Option<Seq<char>>,
    pub thumbnail: Option<Seq<char>>,
    pub notes: Option<Seq<char>>,
    pub ext_desc: Option<Seq<char>>,
    pub title: Option<Seq<char>>,
    pub description: Option<Seq<char>>,
    pub tags: Option<Seq<Seq<char>>>,
    pub force_start_beginning: Option<bool>,
    pub is_anim: Option<bool>,
    pub time_slices: Option<Seq<Seq<char>>>,
    pub subtitles: Option<Seq<TrackExportView>>,
    pub audios: Option<Seq<TrackExportView>>,
    pub attachments: Option<Seq<AttachmentExportView>>,
}

/// The characters of each text of a list.
pub open spec fn texts_of(v: Seq<String>) -> Seq<Seq<char>> {
    v.map_values(|s: String| s@)
}

/// The characters of each text of an optional list.
pub open spec fn opt_texts(o: Option<Vec<String>>) -> Option<Seq<Seq<char>>> {
    match o {
        Some(v) => Some(texts_of(v@)),
        None => None,
    }
}

/// An exported track as text.
pub open spec fn track_export_view(t: MediaSubtitleOrAudioExport) -> TrackExportView {
    TrackExportView { id: t.id@, name: t.name@, file: t.file@ }
}

/// An exported attachment as text.
pub open spec fn attachment_export_view(a: MediaAttachmentExport) -> AttachmentExportView {
    AttachmentExportView { name: a.name@, file: a.file@ }
}

/// An optional list of exported tracks as text.
pub open spec fn opt_tracks(o: Option<Vec<MediaSubtitleOrAudioExport>>) -> Option<Seq<TrackExportView>> {
    match o {
        Some(v) => Some(v@.map_values(|t: MediaSubtitleOrAudioExport| track_export_view(t))),
        None => None,
    }
}

/// An optional list of exported attachments as text.
pub open spec fn opt_attachments(o: Option<Vec<MediaAttachmentExport>>) -> Option<Seq<AttachmentExportView>> {
    match o {
        Some(v) => Some(v@.map_values(|a: MediaAttachmentExport| attachment_export_view(a))),
        None => None,
    }
}

impl View for MediaMetadataExport {
    type V = MediaMetadataExportView;

    open spec fn view(&self) -> MediaMetadataExportView {
        MediaMetadataExportView {
            original: opt_text(self.original),
            thumbnail: opt_text(self.thumbnail),
            notes: opt_text(self.notes),
            ext_desc: opt_text(self.ext_desc),
            title: opt_text(self.title),
            description: opt_text(self.description),
            tags: opt_texts(self.tags),
            force_start_beginning: self.force_start_beginning,
            is_anim: self.is_anim,
            time_slices: opt_texts(self.time_slices),
            subtitles: opt_tracks(self.subtitles),
            audios: opt_tracks(self.audios),
            attachments: opt_attachments(self.attachments),
        }
    }
}

/// A copy of a list of texts.
pub fn copy_texts(v: &Vec<String>) -> (r: Vec<String>)
    ensures
        texts_of(r@) == texts_of(v@),
{
    let mut r: Vec<String> = Vec::new();
    let mut i: usize = 0;
    while i < v.len()
        invariant
            i <= v@.len(),
            texts_of(r@) == texts_of(v@.take(i as int)),
        decreases v.len() - i,
    {
        let ghost before = texts_of(r@);
        r.push(v[i].clone());
        assert(texts_of(r@) =~= before.push(v@[i as int]@));
        assert(v@.take(i + 1) =~= v@.take(i as int).push(v@[i as int]));
        assert(texts_of(r@) =~= texts_of(v@.take(i + 1)));
        i = i + 1;
    }
    assert(v@.take(v@.len() as int) =~= v@);
    r
}

/// A copy of an optional list of texts.
pub fn copy_opt_texts(o: &Option<Vec<String>>) -> (r: Option<Vec<String>>)
    ensures
        opt_texts(r) == opt_texts(*o),
{
    match o {
        Some(v) => Some(copy_texts(v)),
        None => None,
    }
}

/// A copy of an optional text.
pub fn copy_opt_text(o: &Option<String>) -> (r: Option<String>)
    ensures
        opt_text(r) == opt_text(*o),
{
    match o {
        Some(s) => Some(s.clone()),
        None => None,
    }
}

/// Response to an upload.
pub struct MediaUploadResponse {
    pub media_id: u64,
}

/// Size of one asset file of a media asset.
pub struct MediaAssetSizeStatsItem {
    pub id: u64,
    pub asset_type: String,
    pub name: String,
    pub size: u64,
}

/// Sizes of the files of a media asset.
pub struct MediaAssetSizeStats {
    pub meta_size: u64,
    pub assets: Vec<MediaAssetSizeStatsItem>,
}

/// Request to change the title of a media asset.
pub struct MediaUpdateTitleBody {
    pub title: String,
}

/// Request to change the description of a media asset.
pub struct MediaUpdateDescriptionBody {
    pub description: String,
}

/// Request to change the extended description of a media asset.
pub struct MediaUpdateExtendedDescriptionBody {
    pub ext_desc: String,
}

/// Request to change the extra options of a media asset.
pub struct MediaUpdateExtraBody {
    pub force_start_beginning: bool,
}

/// A note on a region of an image.
pub struct ImageNote {
    pub x: i32,
    pub y: i32,
    pub w: i32,
    pub h: i32,
    pub text: String,
}

/// Response to a thumbnail change.
pub struct MediaUpdateThumbnailResponse {
    pub url: String,
}


/// The lines of a time slices text: split at each line break, each line trimmed, the
/// empty ones left out.
pub open spec fn time_slice_lines_spec(text: Seq<char>) -> Seq<Seq<char>> {
    split_char(text, '\n').map_values(|l: Seq<char>| trim_seq(l)).filter(|l: Seq<char>| l.len() > 0)
}

/// The lines of a time slices text (see `time_slice_lines_spec`); each line is parsed
/// into a time slice.
pub fn time_slice_lines(text: &str) -> (r: Vec<String>)
    ensures
        r@.map_values(|s: String| s@) == time_slice_lines_spec(text@),
{
    let v = chars_of(text);
    let parts = split_ranges(&v, '\n');
    let ghost pieces = split_char(v@, '\n');
    let ghost trimmed = pieces.map_values(|l: Seq<char>| trim_seq(l));
    let ghost keep = |l: Seq<char>| l.len() > 0;
    let mut r: Vec<String> = Vec::new();
    let mut i: usize = 0;
    while i < parts.len()
        invariant
            v@ == text@,
            range_pieces(v@, parts@) == pieces,
            pieces == split_char(v@, '\n'),
            trimmed == pieces.map_values(|l: Seq<char>| trim_seq(l)),
            keep == (|l: Seq<char>| l.len() > 0),
            forall|k: int| 0 <= k < parts@.len() ==> (#[trigger] parts@[k]).0 <= parts@[k].1 <= v@.len(),
            i <= parts@.len(),
            r@.map_values(|s: String| s@) == trimmed.take(i as int).filter(keep),
        decreases parts.len() - i,
    {
        proof {
            reveal_with_fuel(Seq::<_>::filter, 1);
            assert(trimmed.take(i + 1).drop_last() =~= trimmed.take(i as int));
        }
        let (a, b) = parts[i];
        assert(pieces[i as int] == v@.subrange(a as int, b as int));
        let (s, e) = trim_range(&v, a, b);
        let ghost before = r@.map_values(|s: String| s@);
        if s < e {
            r.push(string_of_range(&v, s, e));
            assert(r@.map_values(|s: String| s@) =~= before.push(trimmed[i as int]));
        } else {
            assert(r@.map_values(|s: String| s@) =~= before);
        }
        i = i + 1;
    }
    assert(trimmed.take(parts@.len() as int) =~= trimmed);
    r
}

/// The time part of a time slice line: the trimmed line up to its first space.
pub open spec fn slice_time_text(line: Seq<char>) -> Seq<char> {
    split_char(trim_seq(line), ' ')[0]
}

/// The name part of a time slice line before a leading `-` is dropped: what follows
/// the first space of the trimmed line.
pub open spec fn slice_name_raw(line: Seq<char>) -> Seq<char> {
    join_seqs(split_char(trim_seq(line), ' ').skip(1), " "@)
}

/// The name of a time slice line: `slice_name_raw`, without a leading `-`.
pub open spec fn slice_name_text(line: Seq<char>) -> Seq<char> {
    let n = slice_name_raw(line);
    if n.len() > 0 && n[0] == '-' {
        n.skip(1)
    } else {
        n
    }
}

/// Splits a time slice line into its time text and its name (see `slice_time_text`
/// and `slice_name_text`); the time text is then read as a duration.
pub fn time_slice_parts(line: &str) -> (r: (String, String))
    ensures
        r.0@ == slice_time_text(line@),
        r.1@ == slice_name_text(line@),
{
    let v = chars_of(line);
    let (a, b) = trim_range(&v, 0, v.len());
    assert(v@.subrange(0, v@.len() as int) =~= line@);
    let t = sub_vec(&v, a, b);
    let parts = split_ranges(&t, ' ');
    proof {
        lemma_split_char_len(t@, ' ');
    }
    let first = parts[0];
    assert(range_pieces(t@, parts@)[0] == t@.subrange(first.0 as int, first.1 as int));
    let time = string_of_range(&t, first.0, first.1);
    let mut rest: Vec<String> = Vec::new();
    let mut k: usize = 1;
    while k < parts.len()
        invariant
            1 <= k <= parts@.len(),
            range_pieces(t@, parts@) == split_char(t@, ' '),
            forall|q: int| 0 <= q < parts@.len() ==> (#[trigger] parts@[q]).0 <= parts@[q].1 <= t@.len(),
            rest@.map_values(|s: String| s@) == split_char(t@, ' ').subrange(1, k as int),
        decreases parts.len() - k,
    {
        let (x, y) = parts[k];
        assert(split_char(t@, ' ')[k as int] == t@.subrange(x as int, y as int));
        let ghost before = rest@.map_values(|s: String| s@);
        rest.push(string_of_range(&t, x, y));
        assert(rest@.map_values(|s: String| s@) =~= before.push(t@.subrange(x as int, y as int)));
        assert(rest@.map_values(|s: String| s@) =~= split_char(t@, ' ').subrange(1, k + 1));
        k = k + 1;
    }
    assert(split_char(t@, ' ').subrange(1, parts@.len() as int) =~= split_char(t@, ' ').skip(1));
    let mut name = String::new();
    push_joined(&mut name, &rest, " ");
    assert(name@ =~= slice_name_raw(line@));
    let nv = chars_of(name.as_str());
    if nv.len() > 0 && nv[0] == '-' {
        let cut = string_of_range(&nv, 1, nv.len());
        assert(cut@ =~= slice_name_text(line@));
        (time, cut)
    } else {
        (time, name)
    }
}

} // verus!
