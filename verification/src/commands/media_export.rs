//! Exporting a media asset or an album into a folder: folder and file names, the tags
//! written to the metadata, and the download progress line.
use vstd::prelude::*;
use std::collections::HashMap;

use crate::commands::media_download::{file_name_of_path, path_file_name, ready_url};
use crate::commands::media_upload::{transfer_progress_line, transfer_progress_text};
use crate::models::albums::{Album, AlbumMetadataExport};
use crate::models::config::opt_text;
use crate::models::media::{
    attachment_export_view, copy_opt_texts, opt_attachments, track_export_view, opt_texts, opt_tracks, texts_of, AttachmentExportView,
    MediaAttachment, MediaAttachmentExport, MediaAudioTrack, MediaListItem, MediaMetadata,
    MediaMetadataExport, MediaMetadataExportView, MediaSubtitle, MediaSubtitleOrAudioExport,
    MediaType, TrackExportView,
};
use crate::text::{
    printable_ascii,
    chars_of, display_width, lemma_split_char_len, nat_decimal, pad_line, padded_line, push_str,
    push_u64_decimal, range_pieces, split_char, split_ranges, str_width, string_of_range,
};

verus! {

broadcast use vstd::std_specs::hash::group_hash_axioms;

/// The folder an export goes to: the output given, else `{prefix}_{id}`.
pub open spec fn export_folder_spec(prefix: Seq<char>, id: u64, output: Option<Seq<char>>) -> Seq<char> {
    match output {
        Some(o) => o,
        None => prefix + "_"@ + nat_decimal(id as nat),
    }
}

/// The folder an export goes to (see `export_folder_spec`); `prefix` is `media` or
/// `album`.
pub fn export_folder(prefix: &str, id: u64, output: Option<String>) -> (r: String)
    ensures
        r@ == export_folder_spec(prefix@, id, match output {
            Some(o) => Some(o@),
            None => None,
        }),
{
    match output {
        Some(o) => o,
        None => {
            let mut r = String::new();
            push_str(&mut r, prefix);
            push_str(&mut r, "_");
            push_u64_decimal(&mut r, id);
            r
        },
    }
}

/// What an export does with its output folder.
#[derive(Clone, Copy, Debug, PartialEq, Eq, Structural)]
pub enum ExportFolderAction {
    /// The folder exists: ask before writing into it (ending the command unless the
    /// answer is yes).
    AskOverwrite,
    /// The folder exists and is written into without asking: the `yes` option is on,
    /// or the export is part of an album's.
    WriteInto,
    /// The folder does not exist: create it.
    Create,
}

/// What an export does with its output folder (see `ExportFolderAction`).
pub open spec fn export_folder_action_spec(exists: bool, auto_confirm: bool, is_internal: bool) -> ExportFolderAction {
    if !exists {
        ExportFolderAction::Create
    } else if !auto_confirm && !is_internal {
        ExportFolderAction::AskOverwrite
    } else {
        ExportFolderAction::WriteInto
    }
}

/// What an export does with its output folder (see `export_folder_action_spec`).
pub fn export_folder_action(exists: bool, auto_confirm: bool, is_internal: bool) -> (r: ExportFolderAction)
    ensures
        r == export_folder_action_spec(exists, auto_confirm, is_internal),
{
    if !exists {
        ExportFolderAction::Create
    } else if !auto_confirm && !is_internal {
        ExportFolderAction::AskOverwrite
    } else {
        ExportFolderAction::WriteInto
    }
}

/// What an export does when the media asset's metadata cannot be fetched, after
/// reporting the error.
#[derive(Clone, Copy, Debug, PartialEq, Eq, Structural)]
pub enum ExportFetchFailure {
    /// The export is part of an album's: return, and let the album export go on.
    ReturnToAlbumExport,
    /// Log out if the command logged in, and end with a failure.
    Fail,
}

/// What an export does when the media asset's metadata cannot be fetched.
pub open spec fn export_fetch_failure_spec(is_internal: bool) -> ExportFetchFailure {
    if is_internal {
        ExportFetchFailure::ReturnToAlbumExport
    } else {
        ExportFetchFailure::Fail
    }
}

/// What an export does when the media asset's metadata cannot be fetched (see
/// `export_fetch_failure_spec`).
pub fn export_fetch_failure(is_internal: bool) -> (r: ExportFetchFailure)
    ensures
        r == export_fetch_failure_spec(is_internal),
{
    if is_internal {
        ExportFetchFailure::ReturnToAlbumExport
    } else {
        ExportFetchFailure::Fail
    }
}

/// The extension the original file of a media asset gets when its URL shows none.
pub open spec fn original_default_extension(t: MediaType) -> Seq<char> {
    match t {
        MediaType::Deleted => "bin"@,
        MediaType::Image => "png"@,
        MediaType::Video => "mp4"@,
        MediaType::Audio => "mp3"@,
    }
}

/// The extension the original file of a media asset gets when its URL shows none:
/// `png` for images, `mp4` for videos, `mp3` for audio, else `bin`.
pub fn default_original_extension(t: MediaType) -> (r: String)
    ensures
        r@ == original_default_extension(t),
{
    match t {
        MediaType::Deleted => String::from_str("bin"),
        MediaType::Image => String::from_str("png"),
        MediaType::Video => String::from_str("mp4"),
        MediaType::Audio => String::from_str("mp3"),
    }
}

/// The name of an exported file: `{base}.{ext}`, or `{base}_{n}.{ext}` for the `n`-th
/// file of a list (counted from 1).
pub open spec fn export_file_name_spec(base: Seq<char>, counter: Option<u64>, ext: Seq<char>) -> Seq<char> {
    match counter {
        Some(n) => base + "_"@ + nat_decimal(n as nat) + "."@ + ext,
        None => base + "."@ + ext,
    }
}

/// The name of an exported file (see `export_file_name_spec`): `original`,
/// `thumbnail`, `ext_desc`, `notes`, or `subtitle_{n}`, `audio_track_{n}`,
/// `attachment_{n}`.
pub fn export_file_name(base: &str, counter: Option<u64>, ext: &str) -> (r: String)
    ensures
        r@ == export_file_name_spec(base@, counter, ext@),
{
    let mut r = String::new();
    push_str(&mut r, base);
    if let Some(n) = counter {
        push_str(&mut r, "_");
        push_u64_decimal(&mut r, n);
    }
    push_str(&mut r, ".");
    push_str(&mut r, ext);
    assert(r@ =~= export_file_name_spec(base@, counter, ext@));
    r
}

/// Whether a tag id is known.
pub open spec fn known_tag(tags: Map<u64, String>) -> spec_fn(u64) -> bool {
    |id: u64| tags.contains_key(id)
}

/// The tag names written to an exported media asset's metadata: the names of its tags,
/// in order, those not in the tag list left out.
pub open spec fn export_tag_names_spec(ids: Seq<u64>, tags: Map<u64, String>) -> Seq<Seq<char>> {
    ids.filter(known_tag(tags)).map_values(|id: u64| tags[id]@)
}

/// The tag names written to an exported media asset's metadata (see
/// `export_tag_names_spec`).
pub fn export_tag_names(ids: &Vec<u64>, tags: &HashMap<u64, String>) -> (r: Vec<String>)
    ensures
        r@.map_values(|s: String| s@) == export_tag_names_spec(ids@, tags@),
{
    let ghost m = tags@;
    let mut r: Vec<String> = Vec::new();
    let mut i: usize = 0;
    while i < ids.len()
        invariant
            i <= ids@.len(),
            m == tags@,
            r@.map_values(|s: String| s@) == export_tag_names_spec(ids@.take(i as int), m),
        decreases ids.len() - i,
    {
        proof {
            reveal_with_fuel(Seq::<_>::filter, 1);
            assert(ids@.take(i + 1).drop_last() =~= ids@.take(i as int));
        }
        let ghost before = r@.map_values(|s: String| s@);
        let id = ids[i];
        match tags.get(&id) {
            Some(name) => {
                r.push(name.clone());
                assert(r@.map_values(|s: String| s@) =~= before.push(m[id]@));
                assert(ids@.take(i + 1).filter(known_tag(m)) =~= ids@.take(i as int).filter(known_tag(m)).push(id));
            },
            None => {
                assert(r@.map_values(|s: String| s@) =~= before);
            },
        }
        assert(r@.map_values(|s: String| s@) =~= export_tag_names_spec(ids@.take(i + 1), m));
        i = i + 1;
    }
    assert(ids@.take(ids@.len() as int) =~= ids@);
    r
}

/// The folders of an exported album's media assets, in the album's order:
/// `media_{id}`.
pub open spec fn album_media_folders_spec(list: Seq<MediaListItem>) -> Seq<Seq<char>> {
    list.map_values(|m: MediaListItem| "media_"@ + nat_decimal(m.id as nat))
}

/// The folders of an exported album's media assets (see `album_media_folders_spec`);
/// the album's metadata lists them.
pub fn album_media_folders(album: &Album) -> (r: Vec<String>)
    ensures
        r@.map_values(|s: String| s@) == album_media_folders_spec(album.list@),
{
    let mut r: Vec<String> = Vec::new();
    let mut i: usize = 0;
    while i < album.list.len()
        invariant
            i <= album.list@.len(),
            r@.map_values(|s: String| s@) == album_media_folders_spec(album.list@.take(i as int)),
        decreases album.list.len() - i,
    {
        let ghost before = r@.map_values(|s: String| s@);
        let mut name = String::from_str("media_");
        push_u64_decimal(&mut name, album.list[i].id);
        let ghost nv = name@;
        r.push(name);
        assert(r@.map_values(|s: String| s@) =~= before.push(nv));
        assert(album.list@.take(i + 1) =~= album.list@.take(i as int).push(album.list@[i as int]));
        assert(r@.map_values(|s: String| s@) =~= album_media_folders_spec(album.list@.take(i + 1)));
        i = i + 1;
    }
    assert(album.list@.take(album.list@.len() as int) =~= album.list@);
    r
}

/// The extension of the file a URL names: what follows the last `.` of its file name
/// (see `path_file_name`); `default` when the name has no `.` or ends with one.
pub open spec fn url_extension_spec(url: Seq<char>, default: Seq<char>) -> Seq<char> {
    let pieces = split_char(path_file_name(url), '.');
    if pieces.len() > 1 && pieces.last().len() > 0 {
        pieces.last()
    } else {
        default
    }
}

/// The extension of the file a URL names (see `url_extension_spec`).
pub fn url_extension(url: &str, default: &str) -> (r: String)
    ensures
        r@ == url_extension_spec(url@, default@),
{
    let name = file_name_of_path(url);
    let v = chars_of(name.as_str());
    let parts = split_ranges(&v, '.');
    proof {
        lemma_split_char_len(v@, '.');
    }
    let n = parts.len();
    if n > 1 {
        let last = parts[n - 1];
        assert(range_pieces(v@, parts@)[n - 1] == v@.subrange(last.0 as int, last.1 as int));
        if last.0 < last.1 {
            return string_of_range(&v, last.0, last.1);
        }
    }
    String::from_str(default)
}

/// The name an exported file gets: `base`, the counter of a list's file if any, and
/// the extension of the URL it is downloaded from.
pub open spec fn exported_file(base: Seq<char>, counter: Option<u64>, url: Seq<char>, default: Seq<char>) -> Seq<char> {
    export_file_name_spec(base, counter, url_extension_spec(url, default))
}

/// The name an exported file gets (see `exported_file`).
pub fn exported_file_name(base: &str, counter: Option<u64>, url: &str, default: &str) -> (r: String)
    ensures
        r@ == exported_file(base@, counter, url@, default@),
{
    let ext = url_extension(url, default);
    export_file_name(base, counter, ext.as_str())
}

/// One file an export downloads: the name shown while it downloads, the URL it comes
/// from and the file it is written to, relative to the export folder.
#[derive(Debug)]
pub struct ExportStep {
    pub name: String,
    pub url: String,
    pub file: String,
}

/// A file an export downloads, as text.
pub struct ExportStepView {
    pub name: Seq<char>,
    pub url: Seq<char>,
    pub file: Seq<char>,
}

impl View for ExportStep {
    type V = ExportStepView;

    open spec fn view(&self) -> ExportStepView {
        ExportStepView { name: self.name@, url: self.url@, file: self.file@ }
    }
}

/// The files of a list of export steps, as text.
pub open spec fn steps_view(v: Seq<ExportStep>) -> Seq<ExportStepView> {
    v.map_values(|s: ExportStep| s@)
}

/// Why a media asset cannot be exported.
#[derive(Clone, Copy, Debug, PartialEq, Eq, Structural)]
pub enum ExportError {
    /// The original file is missing: the upload or the encryption is not done.
    NoOriginal,
}

impl ExportError {
    /// The message reported for this error.
    pub fn message(&self) -> (r: String)
        ensures
            r@ == "The media has no original asset. It's probably still pending for upload or encryption."@,
    {
        String::from_str("The media has no original asset. It's probably still pending for upload or encryption.")
    }
}

/// The thumbnail URL of a media asset, when it has one.
pub open spec fn thumbnail_url(m: MediaMetadata) -> Option<Seq<char>> {
    if m.thumbnail@.len() > 0 {
        Some(m.thumbnail@)
    } else {
        None
    }
}

/// The download of a file that may be missing: none when its URL is missing.
pub open spec fn single_step(name: Seq<char>, url: Option<Seq<char>>, base: Seq<char>, default: Seq<char>) -> Seq<ExportStepView> {
    match url {
        Some(u) => seq![ExportStepView { name: name, url: u, file: exported_file(base, None, u, default) }],
        None => Seq::<ExportStepView>::empty(),
    }
}

/// The downloads of a media asset's subtitles files, `subtitle_{n}`.
pub open spec fn subtitle_export_steps(subs: Option<Vec<MediaSubtitle>>) -> Seq<ExportStepView> {
    match subs {
        Some(v) => Seq::new(v@.len(), |i: int| ExportStepView {
            name: "subtitle "@ + v@[i].id@,
            url: v@[i].url@,
            file: exported_file("subtitle"@, Some((i + 1) as u64), v@[i].url@, "srt"@),
        }),
        None => Seq::<ExportStepView>::empty(),
    }
}

/// The downloads of a media asset's extra audio tracks, `audio_track_{n}`.
pub open spec fn audio_export_steps(tracks: Option<Vec<MediaAudioTrack>>) -> Seq<ExportStepView> {
    match tracks {
        Some(v) => Seq::new(v@.len(), |i: int| ExportStepView {
            name: "audio track "@ + v@[i].id@,
            url: v@[i].url@,
            file: exported_file("audio_track"@, Some((i + 1) as u64), v@[i].url@, "mp3"@),
        }),
        None => Seq::<ExportStepView>::empty(),
    }
}

/// The downloads of a media asset's attachments, `attachment_{n}`.
pub open spec fn attachment_export_steps(atts: Option<Vec<MediaAttachment>>) -> Seq<ExportStepView> {
    match atts {
        Some(v) => Seq::new(v@.len(), |i: int| ExportStepView {
            name: "attachment "@ + v@[i].name@,
            url: v@[i].url@,
            file: exported_file("attachment"@, Some((i + 1) as u64), v@[i].url@, "bin"@),
        }),
        None => Seq::<ExportStepView>::empty(),
    }
}

/// The files an export of a media asset downloads, in order: the original, the
/// thumbnail, the extended description, the image notes, the subtitles files, the
/// audio tracks and the attachments. Refused when the original is not ready.
pub open spec fn export_plan_spec(m: MediaMetadata) -> Result<Seq<ExportStepView>, ExportError> {
    match ready_url(m.url) {
        None => Err(ExportError::NoOriginal),
        Some(u) => Ok(
            single_step("original"@, Some(u), "original"@, original_default_extension(m.media_type))
                + single_step("thumbnail"@, thumbnail_url(m), "thumbnail"@, "jpg"@)
                + single_step("extended description"@, ready_url(m.ext_desc_url), "ext_desc"@, "txt"@)
                + single_step("image notes"@, ready_url(m.img_notes_url), "notes"@, "json"@)
                + subtitle_export_steps(m.subtitles)
                + audio_export_steps(m.audios)
                + attachment_export_steps(m.attachments),
        ),
    }
}

/// Appends the download of one file.
fn push_step(r: &mut Vec<ExportStep>, name: String, url: &str, base: &str, counter: Option<u64>, default: &str)
    ensures
        steps_view(final(r)@) == steps_view(old(r)@).push(
            ExportStepView { name: name@, url: url@, file: exported_file(base@, counter, url@, default@) },
        ),
{
    let file = exported_file_name(base, counter, url, default);
    let mut u = String::new();
    push_str(&mut u, url);
    let ghost before = steps_view(r@);
    r.push(ExportStep { name, url: u, file });
    assert(steps_view(r@) =~= before.push(
        ExportStepView { name: name@, url: url@, file: exported_file(base@, counter, url@, default@) },
    ));
}

/// Appends the download of a file whose URL may be missing or empty.
fn push_single(r: &mut Vec<ExportStep>, name: &str, url: &Option<String>, base: &str, default: &str)
    ensures
        steps_view(final(r)@) == steps_view(old(r)@) + single_step(name@, ready_url(*url), base@, default@),
{
    let ghost before = steps_view(r@);
    match url {
        Some(u) => {
            if u.unicode_len() > 0 {
                let mut n = String::new();
                push_str(&mut n, name);
                push_step(r, n, u.as_str(), base, None, default);
                assert(steps_view(r@) =~= before + single_step(name@, ready_url(*url), base@, default@));
            } else {
                assert(steps_view(r@) =~= before + single_step(name@, ready_url(*url), base@, default@));
            }
        },
        None => {
            assert(steps_view(r@) =~= before + single_step(name@, ready_url(*url), base@, default@));
        },
    }
}

/// Appends the downloads of the subtitles files.
fn push_subtitle_steps(r: &mut Vec<ExportStep>, subs: &Option<Vec<MediaSubtitle>>)
    ensures
        steps_view(final(r)@) == steps_view(old(r)@) + subtitle_export_steps(*subs),
{
    let ghost r0 = steps_view(r@);
    let ghost all = subtitle_export_steps(*subs);
    match subs {
        Some(v) => {
            let mut i: usize = 0;
            while i < v.len()
                invariant
                    i <= v@.len(),
                    all == subtitle_export_steps(*subs),
                    *subs == Some(*v),
                    all.len() == v@.len(),
                    steps_view(r@) == r0 + all.take(i as int),
                decreases v.len() - i,
            {
                let mut name = String::from_str("subtitle ");
                push_str(&mut name, v[i].id.as_str());
                push_step(r, name, v[i].url.as_str(), "subtitle", Some((i + 1) as u64), "srt");
                assert(all.take(i + 1) =~= all.take(i as int).push(all[i as int]));
                assert(steps_view(r@) =~= r0 + all.take(i + 1));
                i = i + 1;
            }
            assert(all.take(v@.len() as int) =~= all);
        },
        None => {
            assert(steps_view(r@) =~= r0 + all);
        },
    }
}

/// Appends the downloads of the extra audio tracks.
fn push_audio_steps(r: &mut Vec<ExportStep>, tracks: &Option<Vec<MediaAudioTrack>>)
    ensures
        steps_view(final(r)@) == steps_view(old(r)@) + audio_export_steps(*tracks),
{
    let ghost r0 = steps_view(r@);
    let ghost all = audio_export_steps(*tracks);
    match tracks {
        Some(v) => {
            let mut i: usize = 0;
            while i < v.len()
                invariant
                    i <= v@.len(),
                    all == audio_export_steps(*tracks),
                    *tracks == Some(*v),
                    all.len() == v@.len(),
                    steps_view(r@) == r0 + all.take(i as int),
                decreases v.len() - i,
            {
                let mut name = String::from_str("audio track ");
                push_str(&mut name, v[i].id.as_str());
                push_step(r, name, v[i].url.as_str(), "audio_track", Some((i + 1) as u64), "mp3");
                assert(all.take(i + 1) =~= all.take(i as int).push(all[i as int]));
                assert(steps_view(r@) =~= r0 + all.take(i + 1));
                i = i + 1;
            }
            assert(all.take(v@.len() as int) =~= all);
        },
        None => {
            assert(steps_view(r@) =~= r0 + all);
        },
    }
}

/// Appends the downloads of the attachments.
fn push_attachment_steps(r: &mut Vec<ExportStep>, atts: &Option<Vec<MediaAttachment>>)
    ensures
        steps_view(final(r)@) == steps_view(old(r)@) + attachment_export_steps(*atts),
{
    let ghost r0 = steps_view(r@);
    let ghost all = attachment_export_steps(*atts);
    match atts {
        Some(v) => {
            let mut i: usize = 0;
            while i < v.len()
                invariant
                    i <= v@.len(),
                    all == attachment_export_steps(*atts),
                    *atts == Some(*v),
                    all.len() == v@.len(),
                    steps_view(r@) == r0 + all.take(i as int),
                decreases v.len() - i,
            {
                let mut name = String::from_str("attachment ");
                push_str(&mut name, v[i].name.as_str());
                push_step(r, name, v[i].url.as_str(), "attachment", Some((i + 1) as u64), "bin");
                assert(all.take(i + 1) =~= all.take(i as int).push(all[i as int]));
                assert(steps_view(r@) =~= r0 + all.take(i + 1));
                i = i + 1;
            }
            assert(all.take(v@.len() as int) =~= all);
        },
        None => {
            assert(steps_view(r@) =~= r0 + all);
        },
    }
}

/// The files an export of a media asset downloads, in order (see `export_plan_spec`),
/// or why it is refused.
pub fn export_plan(m: &MediaMetadata) -> (r: Result<Vec<ExportStep>, ExportError>)
    ensures
        match r {
            Ok(s) => export_plan_spec(*m) == Ok::<Seq<ExportStepView>, ExportError>(steps_view(s@)),
            Err(e) => export_plan_spec(*m) == Err::<Seq<ExportStepView>, ExportError>(e),
        },
{
    let original = match &m.url {
        Some(u) => {
            if u.unicode_len() == 0 {
                return Err(ExportError::NoOriginal);
            }
            u
        },
        None => return Err(ExportError::NoOriginal),
    };
    let mut r: Vec<ExportStep> = Vec::new();
    let ext = default_original_extension(m.media_type);
    push_step(&mut r, String::from_str("original"), original.as_str(), "original", None, ext.as_str());
    assert(steps_view(r@) =~= single_step("original"@, ready_url(m.url), "original"@, original_default_extension(m.media_type)));
    let ghost s1 = steps_view(r@);
    if m.thumbnail.unicode_len() > 0 {
        push_step(&mut r, String::from_str("thumbnail"), m.thumbnail.as_str(), "thumbnail", None, "jpg");
    }
    assert(steps_view(r@) =~= s1 + single_step("thumbnail"@, thumbnail_url(*m), "thumbnail"@, "jpg"@));
    push_single(&mut r, "extended description", &m.ext_desc_url, "ext_desc", "txt");
    push_single(&mut r, "image notes", &m.img_notes_url, "notes", "json");
    push_subtitle_steps(&mut r, &m.subtitles);
    push_audio_steps(&mut r, &m.audios);
    push_attachment_steps(&mut r, &m.attachments);
    Ok(r)
}

/// The shown file of an optional file: the name it gets, when its URL is there.
pub open spec fn exported_single(url: Option<Seq<char>>, base: Seq<char>, default: Seq<char>) -> Option<Seq<char>> {
    match url {
        Some(u) => Some(exported_file(base, None, u, default)),
        None => None,
    }
}

/// The subtitles files, or the audio tracks, that an exported media asset's metadata
/// lists: identifier, name and file `{base}_{n}`.
pub open spec fn exported_tracks(v: Seq<(Seq<char>, Seq<char>, Seq<char>)>, base: Seq<char>, default: Seq<char>) -> Seq<TrackExportView> {
    Seq::new(v.len(), |i: int| TrackExportView {
        id: v[i].0,
        name: v[i].1,
        file: exported_file(base, Some((i + 1) as u64), v[i].2, default),
    })
}

/// Identifier, name and URL of each subtitles file.
pub open spec fn subtitle_triples(v: Seq<MediaSubtitle>) -> Seq<(Seq<char>, Seq<char>, Seq<char>)> {
    v.map_values(|t: MediaSubtitle| (t.id@, t.name@, t.url@))
}

/// Identifier, name and URL of each audio track.
pub open spec fn audio_triples(v: Seq<MediaAudioTrack>) -> Seq<(Seq<char>, Seq<char>, Seq<char>)> {
    v.map_values(|t: MediaAudioTrack| (t.id@, t.name@, t.url@))
}

/// The attachments an exported media asset's metadata lists: name and file
/// `attachment_{n}`.
pub open spec fn exported_attachments(v: Seq<MediaAttachment>) -> Seq<AttachmentExportView> {
    Seq::new(v.len(), |i: int| AttachmentExportView {
        name: v[i].name@,
        file: exported_file("attachment"@, Some((i + 1) as u64), v[i].url@, "bin"@),
    })
}

/// The metadata an export of a media asset writes: the files of its assets (as
/// `export_plan_spec` names them), its title, description, tags by name (those not in
/// the tag list left out), its options and the names of its time slices.
pub open spec fn export_metadata_spec(m: MediaMetadata, tags: Map<u64, String>) -> MediaMetadataExportView {
    MediaMetadataExportView {
        original: exported_single(ready_url(m.url), "original"@, original_default_extension(m.media_type)),
        thumbnail: exported_single(thumbnail_url(m), "thumbnail"@, "jpg"@),
        notes: exported_single(ready_url(m.img_notes_url), "notes"@, "json"@),
        ext_desc: exported_single(ready_url(m.ext_desc_url), "ext_desc"@, "txt"@),
        title: Some(m.title@),
        description: Some(m.description@),
        tags: Some(export_tag_names_spec(m.tags@, tags)),
        force_start_beginning: m.force_start_beginning,
        is_anim: m.is_anim,
        time_slices: opt_texts(m.time_slices),
        subtitles: match m.subtitles {
            Some(v) => Some(exported_tracks(subtitle_triples(v@), "subtitle"@, "srt"@)),
            None => None,
        },
        audios: match m.audios {
            Some(v) => Some(exported_tracks(audio_triples(v@), "audio_track"@, "mp3"@)),
            None => None,
        },
        attachments: match m.attachments {
            Some(v) => Some(exported_attachments(v@)),
            None => None,
        },
    }
}

/// The name of an optional exported file (see `exported_single`).
fn exported_single_name(url: &Option<String>, base: &str, default: &str) -> (r: Option<String>)
    ensures
        opt_text(r) == exported_single(ready_url(*url), base@, default@),
{
    match url {
        Some(u) => {
            if u.unicode_len() > 0 {
                Some(exported_file_name(base, None, u.as_str(), default))
            } else {
                None
            }
        },
        None => None,
    }
}

/// The subtitles files an exported media asset's metadata lists.
fn exported_subtitles(v: &Vec<MediaSubtitle>) -> (r: Vec<MediaSubtitleOrAudioExport>)
    ensures
        opt_tracks(Some(r)) == Some(exported_tracks(subtitle_triples(v@), "subtitle"@, "srt"@)),
{
    let ghost all = exported_tracks(subtitle_triples(v@), "subtitle"@, "srt"@);
    let mut r: Vec<MediaSubtitleOrAudioExport> = Vec::new();
    let mut i: usize = 0;
    while i < v.len()
        invariant
            i <= v@.len(),
            all == exported_tracks(subtitle_triples(v@), "subtitle"@, "srt"@),
            r@.map_values(|t: MediaSubtitleOrAudioExport| track_export_view(t)) == all.take(i as int),
        decreases v.len() - i,
    {
        let file = exported_file_name("subtitle", Some((i + 1) as u64), v[i].url.as_str(), "srt");
        let ghost before = r@.map_values(|t: MediaSubtitleOrAudioExport| track_export_view(t));
        let item = MediaSubtitleOrAudioExport { id: v[i].id.clone(), name: v[i].name.clone(), file };
        assert(subtitle_triples(v@)[i as int] == (v@[i as int].id@, v@[i as int].name@, v@[i as int].url@));
        assert(track_export_view(item) == all[i as int]);
        r.push(item);
        assert(all.take(i + 1) =~= all.take(i as int).push(all[i as int]));
        assert(r@.map_values(|t: MediaSubtitleOrAudioExport| track_export_view(t)) =~= before.push(all[i as int]));
        i = i + 1;
    }
    assert(all.take(v@.len() as int) =~= all);
    r
}

/// The audio tracks an exported media asset's metadata lists.
fn exported_audios(v: &Vec<MediaAudioTrack>) -> (r: Vec<MediaSubtitleOrAudioExport>)
    ensures
        opt_tracks(Some(r)) == Some(exported_tracks(audio_triples(v@), "audio_track"@, "mp3"@)),
{
    let ghost all = exported_tracks(audio_triples(v@), "audio_track"@, "mp3"@);
    let mut r: Vec<MediaSubtitleOrAudioExport> = Vec::new();
    let mut i: usize = 0;
    while i < v.len()
        invariant
            i <= v@.len(),
            all == exported_tracks(audio_triples(v@), "audio_track"@, "mp3"@),
            r@.map_values(|t: MediaSubtitleOrAudioExport| track_export_view(t)) == all.take(i as int),
        decreases v.len() - i,
    {
        let file = exported_file_name("audio_track", Some((i + 1) as u64), v[i].url.as_str(), "mp3");
        let ghost before = r@.map_values(|t: MediaSubtitleOrAudioExport| track_export_view(t));
        let item = MediaSubtitleOrAudioExport { id: v[i].id.clone(), name: v[i].name.clone(), file };
        assert(audio_triples(v@)[i as int] == (v@[i as int].id@, v@[i as int].name@, v@[i as int].url@));
        assert(track_export_view(item) == all[i as int]);
        r.push(item);
        assert(all.take(i + 1) =~= all.take(i as int).push(all[i as int]));
        assert(r@.map_values(|t: MediaSubtitleOrAudioExport| track_export_view(t)) =~= before.push(all[i as int]));
        i = i + 1;
    }
    assert(all.take(v@.len() as int) =~= all);
    r
}

/// The attachments an exported media asset's metadata lists.
fn exported_attachment_list(v: &Vec<MediaAttachment>) -> (r: Vec<MediaAttachmentExport>)
    ensures
        opt_attachments(Some(r)) == Some(exported_attachments(v@)),
{
    let ghost all = exported_attachments(v@);
    let mut r: Vec<MediaAttachmentExport> = Vec::new();
    let mut i: usize = 0;
    while i < v.len()
        invariant
            i <= v@.len(),
            all == exported_attachments(v@),
            r@.map_values(|a: MediaAttachmentExport| attachment_export_view(a)) == all.take(i as int),
        decreases v.len() - i,
    {
        let file = exported_file_name("attachment", Some((i + 1) as u64), v[i].url.as_str(), "bin");
        let ghost before = r@.map_values(|a: MediaAttachmentExport| attachment_export_view(a));
        let item = MediaAttachmentExport { name: v[i].name.clone(), file };
        assert(attachment_export_view(item) == all[i as int]);
        r.push(item);
        assert(all.take(i + 1) =~= all.take(i as int).push(all[i as int]));
        assert(r@.map_values(|a: MediaAttachmentExport| attachment_export_view(a)) =~= before.push(all[i as int]));
        i = i + 1;
    }
    assert(all.take(v@.len() as int) =~= all);
    r
}

/// The metadata an export of a media asset writes (see `export_metadata_spec`).
pub fn export_metadata(m: &MediaMetadata, tags: &HashMap<u64, String>) -> (r: MediaMetadataExport)
    ensures
        r@ == export_metadata_spec(*m, tags@),
{
    let original_ext = default_original_extension(m.media_type);
    let original = exported_single_name(&m.url, "original", original_ext.as_str());
    let thumbnail = if m.thumbnail.unicode_len() > 0 {
        Some(exported_file_name("thumbnail", None, m.thumbnail.as_str(), "jpg"))
    } else {
        None
    };
    let tag_names = export_tag_names(&m.tags, tags);
    assert(texts_of(tag_names@) =~= tag_names@.map_values(|s: String| s@));
    let r = MediaMetadataExport {
        original,
        thumbnail,
        notes: exported_single_name(&m.img_notes_url, "notes", "json"),
        ext_desc: exported_single_name(&m.ext_desc_url, "ext_desc", "txt"),
        title: Some(m.title.clone()),
        description: Some(m.description.clone()),
        tags: Some(tag_names),
        force_start_beginning: m.force_start_beginning,
        is_anim: m.is_anim,
        time_slices: copy_opt_texts(&m.time_slices),
        subtitles: match &m.subtitles {
            Some(v) => Some(exported_subtitles(v)),
            None => None,
        },
        audios: match &m.audios {
            Some(v) => Some(exported_audios(v)),
            None => None,
        },
        attachments: match &m.attachments {
            Some(v) => Some(exported_attachment_list(v)),
            None => None,
        },
    };
    assert(r@ =~= export_metadata_spec(*m, tags@));
    r
}

/// The name of the thumbnail file an exported album gets, when it has a thumbnail.
pub open spec fn album_thumbnail_file(t: Option<String>) -> Option<Seq<char>> {
    match t {
        Some(u) => if u@.len() > 0 { Some(exported_file("thumbnail"@, None, u@, "jpg"@)) } else { None },
        None => None,
    }
}

/// The metadata an export of an album writes: its name, the folders of its media
/// assets in order, and its thumbnail file.
pub fn album_export_metadata(a: &Album) -> (r: AlbumMetadataExport)
    ensures
        r.name@ == a.name@,
        texts_of(r.media_list@) == album_media_folders_spec(a.list@),
        opt_text(r.thumbnail) == album_thumbnail_file(a.thumbnail),
{
    let folders = album_media_folders(a);
    assert(texts_of(folders@) =~= folders@.map_values(|s: String| s@));
    let thumbnail = match &a.thumbnail {
        Some(u) => {
            if u.unicode_len() > 0 {
                Some(exported_file_name("thumbnail", None, u.as_str(), "jpg"))
            } else {
                None
            }
        },
        None => None,
    };
    AlbumMetadataExport { name: a.name.clone(), media_list: folders, thumbnail }
}

/// Shows the progress of the download of one exported file on one terminal line that
/// each update overwrites.
pub struct DownloaderProgressPrinter {
    name: String,
    last_line_width: usize,
}

impl DownloaderProgressPrinter {
    /// The name of the file shown.
    pub closed spec fn name_view(&self) -> Seq<char> {
        self.name@
    }

    /// Display width of the last line printed.
    pub closed spec fn last_width(&self) -> int {
        self.last_line_width as int
    }

    /// A printer for the file `name` that has printed nothing yet.
    pub fn new(name: &str) -> (p: DownloaderProgressPrinter)
        ensures
            p.name_view() == name@,
            p.last_width() == 0,
    {
        let mut n = String::new();
        push_str(&mut n, name);
        DownloaderProgressPrinter { name: n, last_line_width: 0 }
    }

    /// The first line, `Downloading {name}...`.
    pub fn progress_start(&mut self) -> (line: String)
        ensures
            line@ == "Downloading "@ + old(self).name_view() + "..."@,
            final(self).name_view() == old(self).name_view(),
            final(self).last_width() == display_width(line@),
    {
        let mut line = String::from_str("Downloading ");
        push_str(&mut line, self.name.as_str());
        push_str(&mut line, "...");
        self.last_line_width = str_width(line.as_str());
        line
    }

    /// The line for `loaded` of `total` bytes received, padded with spaces to cover the
    /// previous line; `percent` is the percentage written with two decimals.
    pub fn progress_update(&mut self, loaded: u64, total: u64, percent: &str) -> (line: String)
        ensures
            line@ == padded_line(
                transfer_progress_text("Downloading "@ + old(self).name_view(), loaded, total, percent@),
                old(self).last_width(),
            ),
            final(self).name_view() == old(self).name_view(),
            final(self).last_width() == display_width(line@),
            final(self).last_width() == (if old(self).last_width() > display_width(transfer_progress_text("Downloading "@ + old(self).name_view(), loaded, total, percent@)) {
                old(self).last_width()
            } else {
                display_width(transfer_progress_text("Downloading "@ + old(self).name_view(), loaded, total, percent@)) as int
            }),
            final(self).last_width() >= old(self).last_width(),
            printable_ascii(transfer_progress_text("Downloading "@ + old(self).name_view(), loaded, total, percent@)) ==> display_width(
                transfer_progress_text("Downloading "@ + old(self).name_view(), loaded, total, percent@),
            ) == (transfer_progress_text("Downloading "@ + old(self).name_view(), loaded, total, percent@)).len(),
    {
        let mut label = String::from_str("Downloading ");
        push_str(&mut label, self.name.as_str());
        let text = transfer_progress_line(label.as_str(), loaded, total, percent);
        let (line, w) = pad_line(text, self.last_line_width);
        self.last_line_width = w;
        line
    }
}

/// An export creates its folder when it is missing; when it exists, it asks before
/// writing into it unless the `yes` option is on or the export is part of an album's;
/// and a failed fetch of the metadata ends the command unless the export is part of an
/// album's, which then goes on.
pub proof fn law_export_folder_and_fetch(exists: bool, auto_confirm: bool, is_internal: bool)
    ensures
        (export_folder_action_spec(exists, auto_confirm, is_internal) == ExportFolderAction::Create) <==> !exists,
        (export_folder_action_spec(exists, auto_confirm, is_internal) == ExportFolderAction::AskOverwrite) <==> (
        exists && !auto_confirm && !is_internal),
        (export_fetch_failure_spec(is_internal) == ExportFetchFailure::Fail) <==> !is_internal,
{
}

} // verus!
