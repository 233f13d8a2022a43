//! The lines the get command prints about a media asset.
use vstd::prelude::*;
use std::collections::HashMap;

use crate::commands::media::{
    identifier_text, identifier_to_string, media_resolution_lines, media_resolutions_spec, media_status_lines,
    media_status_spec, texts,
};
use crate::models::config::image_resolution_text;
use crate::models::media::{MediaAttachment, MediaAudioTrack, MediaMetadata, MediaSubtitle, MediaType};
use crate::models::tags::{tag_name_or_id, tags_names_from_ids};
use crate::text::{csv_cell, int_decimal, join_seqs, nat_decimal, push_i64_decimal, push_joined, push_str, push_u64_decimal, to_csv_string};

verus! {

broadcast use vstd::std_specs::hash::group_hash_axioms;

/// The texts of the get command that come from the clock or from floating-point
/// numbers, written by the caller.
pub struct MediaInfoTexts {
    /// The duration of the media asset.
    pub duration: String,
    /// The upload date.
    pub upload_date: String,
    /// The size of each attachment, in the attachments' order.
    pub attachment_sizes: Vec<String>,
    /// The time of each time slice, in the time slices' order.
    pub time_slice_times: Vec<String>,
    /// The interval between video previews, when the vault gives one.
    pub previews_interval: Option<String>,
}

/// The text at `i` of a list, empty beyond its end.
pub open spec fn text_at(v: Seq<String>, i: int) -> Seq<char> {
    if 0 <= i < v.len() {
        v[i]@
    } else {
        Seq::<char>::empty()
    }
}

/// The size, frame rate and duration lines, as the kind of media asset has them.
pub open spec fn media_size_spec(m: MediaMetadata, duration: Seq<char>) -> Seq<Seq<char>> {
    let w = match m.width {
        Some(x) => x as int,
        None => 0,
    };
    let h = match m.height {
        Some(x) => x as int,
        None => 0,
    };
    let fps = match m.fps {
        Some(x) => x as int,
        None => 0,
    };
    match m.media_type {
        MediaType::Deleted => Seq::<Seq<char>>::empty(),
        MediaType::Image => seq!["Size: "@ + image_resolution_text(w, h)],
        MediaType::Video => seq![
            "Size: "@ + image_resolution_text(w, h),
            "Frames per second: "@ + int_decimal(fps),
            "Duration: "@ + duration,
        ],
        MediaType::Audio => seq!["Duration: "@ + duration],
    }
}

/// The first lines of the get command: identifier, kind, size, frame rate and
/// duration, the start-from-beginning option when on, upload date, title and
/// description (as CSV cells), thumbnail, and the tags by name when there are some.
pub open spec fn media_head_spec(m: MediaMetadata, tags: Map<u64, String>, duration: Seq<char>, upload_date: Seq<char>) -> Seq<Seq<char>> {
    seq!["ID: "@ + identifier_text(m.id), "Type: "@ + m.media_type.label()]
        + media_size_spec(m, duration)
        + (if m.force_start_beginning == Some(true) {
        seq!["Force start beginning: ENABLED"@]
    } else {
        Seq::<Seq<char>>::empty()
    })
        + seq![
        "Upload date: "@ + upload_date,
        "Title: "@ + csv_cell(m.title@),
        "Description: "@ + csv_cell(m.description@),
        if m.thumbnail@.len() > 0 {
            "Thumbnail: "@ + m.thumbnail@
        } else {
            "Thumbnail: None"@
        },
    ]
        + (if m.tags@.len() > 0 {
        seq!["Tags: "@ + join_seqs(m.tags@.map_values(|id: u64| tag_name_or_id(id, tags)), " "@)]
    } else {
        Seq::<Seq<char>>::empty()
    })
}

/// The lines of the audio tracks of a list.
pub open spec fn audio_block(v: Seq<MediaAudioTrack>) -> Seq<Seq<char>>
    decreases v.len(),
{
    if v.len() == 0 {
        Seq::<Seq<char>>::empty()
    } else {
        audio_block(v.drop_last()) + seq![
            "\t- Audio ID: "@ + csv_cell(v.last().id@),
            "\t  Name: "@ + csv_cell(v.last().name@),
            "\t  File: "@ + v.last().url@,
        ]
    }
}

/// The lines of the subtitles files of a list.
pub open spec fn subtitle_block(v: Seq<MediaSubtitle>) -> Seq<Seq<char>>
    decreases v.len(),
{
    if v.len() == 0 {
        Seq::<Seq<char>>::empty()
    } else {
        subtitle_block(v.drop_last()) + seq![
            "\t- Subtitle ID: "@ + csv_cell(v.last().id@),
            "\t  Name: "@ + csv_cell(v.last().name@),
            "\t  File: "@ + v.last().url@,
        ]
    }
}

/// The lines of the attachments of a list, with their sizes as written.
pub open spec fn attachment_block(v: Seq<MediaAttachment>, sizes: Seq<String>) -> Seq<Seq<char>>
    decreases v.len(),
{
    if v.len() == 0 {
        Seq::<Seq<char>>::empty()
    } else {
        attachment_block(v.drop_last(), sizes) + seq![
            "\t- Attachment ID: "@ + nat_decimal(v.last().id as nat),
            "\t  Name: "@ + csv_cell(v.last().name@),
            "\t  File: "@ + v.last().url@,
            "\t  Size: "@ + text_at(sizes, v.len() - 1),
        ]
    }
}

/// The lines of the time slices named in a list, with their times as written.
pub open spec fn time_slice_block(names: Seq<String>, times: Seq<String>) -> Seq<Seq<char>>
    decreases names.len(),
{
    if names.len() == 0 {
        Seq::<Seq<char>>::empty()
    } else {
        time_slice_block(names.drop_last(), times) + seq![
            "\t- "@ + text_at(times, names.len() - 1) + " - "@ + names.last()@,
        ]
    }
}

/// A titled block, shown only when the list it comes from is there and not empty.
pub open spec fn titled(present: bool, title: Seq<char>, lines: Seq<Seq<char>>) -> Seq<Seq<char>> {
    if present {
        seq![title] + lines
    } else {
        Seq::<Seq<char>>::empty()
    }
}

/// The last lines of the get command: the audio tracks, the subtitles files and the
/// attachments, then the image notes' URL when there are notes, the extended
/// description's URL, the time slices and the video previews.
pub open spec fn media_tail_spec(m: MediaMetadata, t: MediaInfoTexts) -> Seq<Seq<char>> {
    media_lists_spec(m, t) + media_links_spec(m, t)
}

/// The blocks of the audio tracks, the subtitles files and the attachments.
pub open spec fn media_lists_spec(m: MediaMetadata, t: MediaInfoTexts) -> Seq<Seq<char>> {
    (match m.audios {
        Some(v) => titled(v@.len() > 0, "Audio tracks:"@, audio_block(v@)),
        None => Seq::<Seq<char>>::empty(),
    }) + (match m.subtitles {
        Some(v) => titled(v@.len() > 0, "Subtitles:"@, subtitle_block(v@)),
        None => Seq::<Seq<char>>::empty(),
    }) + (match m.attachments {
        Some(v) => titled(v@.len() > 0, "Attachments:"@, attachment_block(v@, t.attachment_sizes@)),
        None => Seq::<Seq<char>>::empty(),
    })
}

/// The image notes' URL when there are notes, the extended description's URL, the
/// time slices and the video previews.
pub open spec fn media_links_spec(m: MediaMetadata, t: MediaInfoTexts) -> Seq<Seq<char>> {
    (match m.img_notes_url {
        Some(u) => if m.img_notes == Some(true) && u@.len() > 0 {
            seq!["Image notes: "@ + u@]
        } else {
            Seq::<Seq<char>>::empty()
        },
        None => Seq::<Seq<char>>::empty(),
    }) + (match m.ext_desc_url {
        Some(u) => seq!["Extended description: "@ + u@],
        None => Seq::<Seq<char>>::empty(),
    }) + (match m.time_slices {
        Some(v) => titled(v@.len() > 0, "Time slices:"@, time_slice_block(v@, t.time_slice_times@)),
        None => Seq::<Seq<char>>::empty(),
    }) + (match (m.video_previews, t.previews_interval) {
        (Some(u), Some(i)) => if u@.len() > 0 {
            seq!["Video previews (Interval: "@ + i@ + "): "@ + u@]
        } else {
            Seq::<Seq<char>>::empty()
        },
        _ => Seq::<Seq<char>>::empty(),
    })
}

/// Everything the get command prints about a media asset, in order: the first lines,
/// the status, the extra resolutions and the last lines.
pub open spec fn media_info_spec(m: MediaMetadata, tags: Map<u64, String>, t: MediaInfoTexts) -> Seq<Seq<char>> {
    media_head_spec(m, tags, t.duration@, t.upload_date@) + media_status_spec(m) + media_resolutions_spec(m)
        + media_tail_spec(m, t)
}

/// Appends a line.
fn push_line(r: &mut Vec<String>, line: String)
    ensures
        texts(final(r)@) == texts(old(r)@).push(line@),
{
    let ghost before = texts(r@);
    let ghost l = line@;
    r.push(line);
    assert(texts(r@) =~= before.push(l));
}

/// Appends lines.
fn push_lines(r: &mut Vec<String>, lines: Vec<String>)
    ensures
        texts(final(r)@) == texts(old(r)@) + texts(lines@),
{
    let ghost r0 = texts(r@);
    let ghost all = texts(lines@);
    let mut i: usize = 0;
    while i < lines.len()
        invariant
            i <= lines@.len(),
            all == texts(lines@),
            texts(r@) == r0 + all.take(i as int),
        decreases lines.len() - i,
    {
        push_line(r, lines[i].clone());
        assert(all.take(i + 1) =~= all.take(i as int).push(all[i as int]));
        i = i + 1;
    }
    assert(all.take(all.len() as int) =~= all);
}

/// Text followed by another.
fn concat(a: &str, b: &str) -> (r: String)
    ensures
        r@ == a@ + b@,
{
    let mut r = String::new();
    push_str(&mut r, a);
    push_str(&mut r, b);
    r
}

/// The size, frame rate and duration lines (see `media_size_spec`).
fn media_size_lines(m: &MediaMetadata, duration: &str) -> (r: Vec<String>)
    ensures
        texts(r@) == media_size_spec(*m, duration@),
{
    let w: i32 = match m.width {
        Some(x) => x,
        None => 0,
    };
    let h: i32 = match m.height {
        Some(x) => x,
        None => 0,
    };
    let fps: i32 = match m.fps {
        Some(x) => x,
        None => 0,
    };
    let mut size = String::from_str("Size: ");
    push_i64_decimal(&mut size, w as i64);
    crate::text::push_char(&mut size, 'x');
    push_i64_decimal(&mut size, h as i64);
    assert(size@ =~= "Size: "@ + image_resolution_text(w as int, h as int));
    let mut r: Vec<String> = Vec::new();
    match m.media_type {
        MediaType::Deleted => {},
        MediaType::Image => {
            push_line(&mut r, size);
        },
        MediaType::Video => {
            push_line(&mut r, size);
            let mut f = String::from_str("Frames per second: ");
            push_i64_decimal(&mut f, fps as i64);
            assert(f@ =~= "Frames per second: "@ + int_decimal(fps as int));
            push_line(&mut r, f);
            push_line(&mut r, concat("Duration: ", duration));
        },
        MediaType::Audio => {
            push_line(&mut r, concat("Duration: ", duration));
        },
    }
    assert(texts(r@) =~= media_size_spec(*m, duration@));
    r
}

/// The first lines of the get command (see `media_head_spec`).
fn media_head_lines(m: &MediaMetadata, tags: &HashMap<u64, String>, duration: &str, upload_date: &str) -> (r: Vec<String>)
    ensures
        texts(r@) == media_head_spec(*m, tags@, duration@, upload_date@),
{
    let mut r: Vec<String> = Vec::new();
    let id = identifier_to_string(m.id);
    push_line(&mut r, concat("ID: ", id.as_str()));
    let label = m.media_type.to_string();
    push_line(&mut r, concat("Type: ", label.as_str()));
    let ghost s0 = texts(r@);
    push_lines(&mut r, media_size_lines(m, duration));
    let ghost s1 = texts(r@);
    if m.force_start_beginning == Some(true) {
        push_line(&mut r, String::from_str("Force start beginning: ENABLED"));
    }
    assert(texts(r@) =~= s1 + (if m.force_start_beginning == Some(true) {
        seq!["Force start beginning: ENABLED"@]
    } else {
        Seq::<Seq<char>>::empty()
    }));
    let ghost s2 = texts(r@);
    push_line(&mut r, concat("Upload date: ", upload_date));
    let title = to_csv_string(m.title.as_str());
    push_line(&mut r, concat("Title: ", title.as_str()));
    let description = to_csv_string(m.description.as_str());
    push_line(&mut r, concat("Description: ", description.as_str()));
    if m.thumbnail.unicode_len() > 0 {
        push_line(&mut r, concat("Thumbnail: ", m.thumbnail.as_str()));
    } else {
        push_line(&mut r, String::from_str("Thumbnail: None"));
    }
    let ghost s3 = texts(r@);
    if m.tags.len() > 0 {
        let names = tags_names_from_ids(&m.tags, tags);
        assert(texts(names@) =~= m.tags@.map_values(|id: u64| tag_name_or_id(id, tags@)));
        let mut line = String::from_str("Tags: ");
        push_joined(&mut line, &names, " ");
        assert(names@.map_values(|x: String| x@) =~= texts(names@));
        push_line(&mut r, line);
    }
    assert(texts(r@) =~= media_head_spec(*m, tags@, duration@, upload_date@));
    r
}

/// The lines of the audio tracks (see `audio_block`).
fn audio_lines(v: &Vec<MediaAudioTrack>) -> (r: Vec<String>)
    ensures
        texts(r@) == audio_block(v@),
{
    let mut r: Vec<String> = Vec::new();
    let mut i: usize = 0;
    while i < v.len()
        invariant
            i <= v@.len(),
            texts(r@) == audio_block(v@.take(i as int)),
        decreases v.len() - i,
    {
        assert(v@.take(i + 1).drop_last() =~= v@.take(i as int));
        let a = &v[i];
        let id = to_csv_string(a.id.as_str());
        push_line(&mut r, concat("\t- Audio ID: ", id.as_str()));
        let name = to_csv_string(a.name.as_str());
        push_line(&mut r, concat("\t  Name: ", name.as_str()));
        push_line(&mut r, concat("\t  File: ", a.url.as_str()));
        assert(texts(r@) =~= audio_block(v@.take(i + 1)));
        i = i + 1;
    }
    assert(v@.take(v@.len() as int) =~= v@);
    r
}

/// The lines of the subtitles files (see `subtitle_block`).
fn subtitle_lines(v: &Vec<MediaSubtitle>) -> (r: Vec<String>)
    ensures
        texts(r@) == subtitle_block(v@),
{
    let mut r: Vec<String> = Vec::new();
    let mut i: usize = 0;
    while i < v.len()
        invariant
            i <= v@.len(),
            texts(r@) == subtitle_block(v@.take(i as int)),
        decreases v.len() - i,
    {
        assert(v@.take(i + 1).drop_last() =~= v@.take(i as int));
        let a = &v[i];
        let id = to_csv_string(a.id.as_str());
        push_line(&mut r, concat("\t- Subtitle ID: ", id.as_str()));
        let name = to_csv_string(a.name.as_str());
        push_line(&mut r, concat("\t  Name: ", name.as_str()));
        push_line(&mut r, concat("\t  File: ", a.url.as_str()));
        assert(texts(r@) =~= subtitle_block(v@.take(i + 1)));
        i = i + 1;
    }
    assert(v@.take(v@.len() as int) =~= v@);
    r
}

/// The text at `i` of a list, empty beyond its end.
fn text_at_of(v: &Vec<String>, i: usize) -> (r: String)
    ensures
        r@ == text_at(v@, i as int),
{
    if i < v.len() {
        v[i].clone()
    } else {
        String::new()
    }
}

/// The lines of the attachments (see `attachment_block`).
fn attachment_lines(v: &Vec<MediaAttachment>, sizes: &Vec<String>) -> (r: Vec<String>)
    ensures
        texts(r@) == attachment_block(v@, sizes@),
{
    let mut r: Vec<String> = Vec::new();
    let mut i: usize = 0;
    while i < v.len()
        invariant
            i <= v@.len(),
            texts(r@) == attachment_block(v@.take(i as int), sizes@),
        decreases v.len() - i,
    {
        assert(v@.take(i + 1).drop_last() =~= v@.take(i as int));
        let a = &v[i];
        let mut first = String::from_str("\t- Attachment ID: ");
        push_u64_decimal(&mut first, a.id);
        push_line(&mut r, first);
        let name = to_csv_string(a.name.as_str());
        push_line(&mut r, concat("\t  Name: ", name.as_str()));
        push_line(&mut r, concat("\t  File: ", a.url.as_str()));
        let size = text_at_of(sizes, i);
        push_line(&mut r, concat("\t  Size: ", size.as_str()));
        assert(texts(r@) =~= attachment_block(v@.take(i + 1), sizes@));
        i = i + 1;
    }
    assert(v@.take(v@.len() as int) =~= v@);
    r
}

/// The lines of the time slices (see `time_slice_block`).
fn time_slice_lines_of(names: &Vec<String>, times: &Vec<String>) -> (r: Vec<String>)
    ensures
        texts(r@) == time_slice_block(names@, times@),
{
    let mut r: Vec<String> = Vec::new();
    let mut i: usize = 0;
    while i < names.len()
        invariant
            i <= names@.len(),
            texts(r@) == time_slice_block(names@.take(i as int), times@),
        decreases names.len() - i,
    {
        assert(names@.take(i + 1).drop_last() =~= names@.take(i as int));
        let time = text_at_of(times, i);
        let mut line = concat("\t- ", time.as_str());
        push_str(&mut line, " - ");
        push_str(&mut line, names[i].as_str());
        push_line(&mut r, line);
        assert(texts(r@) =~= time_slice_block(names@.take(i + 1), times@));
        i = i + 1;
    }
    assert(names@.take(names@.len() as int) =~= names@);
    r
}

/// Appends a titled block when its list is there and not empty.
fn push_titled(r: &mut Vec<String>, present: bool, title: &str, lines: Vec<String>)
    ensures
        texts(final(r)@) == texts(old(r)@) + titled(present, title@, texts(lines@)),
{
    let ghost r0 = texts(r@);
    if present {
        push_line(r, String::from_str(title));
        push_lines(r, lines);
        assert(texts(r@) =~= r0 + titled(present, title@, texts(lines@)));
    } else {
        assert(texts(r@) =~= r0 + titled(present, title@, texts(lines@)));
    }
}

/// The blocks of the lists (see `media_lists_spec`).
fn media_list_lines(m: &MediaMetadata, t: &MediaInfoTexts) -> (r: Vec<String>)
    ensures
        texts(r@) == media_lists_spec(*m, *t),
{
    let mut r: Vec<String> = Vec::new();
    match &m.audios {
        Some(v) => push_titled(&mut r, v.len() > 0, "Audio tracks:", audio_lines(v)),
        None => {},
    }
    let ghost s1 = texts(r@);
    assert(s1 =~= (match m.audios {
        Some(v) => titled(v@.len() > 0, "Audio tracks:"@, audio_block(v@)),
        None => Seq::<Seq<char>>::empty(),
    }));
    match &m.subtitles {
        Some(v) => push_titled(&mut r, v.len() > 0, "Subtitles:", subtitle_lines(v)),
        None => {},
    }
    let ghost s2 = texts(r@);
    assert(s2 =~= s1 + (match m.subtitles {
        Some(v) => titled(v@.len() > 0, "Subtitles:"@, subtitle_block(v@)),
        None => Seq::<Seq<char>>::empty(),
    }));
    match &m.attachments {
        Some(v) => push_titled(&mut r, v.len() > 0, "Attachments:", attachment_lines(v, &t.attachment_sizes)),
        None => {},
    }
    assert(texts(r@) =~= s2 + (match m.attachments {
        Some(v) => titled(v@.len() > 0, "Attachments:"@, attachment_block(v@, t.attachment_sizes@)),
        None => Seq::<Seq<char>>::empty(),
    }));
    r
}

/// The links and time slices (see `media_links_spec`).
fn media_link_lines(m: &MediaMetadata, t: &MediaInfoTexts) -> (r: Vec<String>)
    ensures
        texts(r@) == media_links_spec(*m, *t),
{
    let mut r: Vec<String> = Vec::new();
    if let Some(u) = &m.img_notes_url {
        if m.img_notes == Some(true) && u.unicode_len() > 0 {
            push_line(&mut r, concat("Image notes: ", u.as_str()));
        }
    }
    let ghost s1 = texts(r@);
    assert(s1 =~= (match m.img_notes_url {
        Some(u) => if m.img_notes == Some(true) && u@.len() > 0 {
            seq!["Image notes: "@ + u@]
        } else {
            Seq::<Seq<char>>::empty()
        },
        None => Seq::<Seq<char>>::empty(),
    }));
    if let Some(u) = &m.ext_desc_url {
        push_line(&mut r, concat("Extended description: ", u.as_str()));
    }
    let ghost s2 = texts(r@);
    assert(s2 =~= s1 + (match m.ext_desc_url {
        Some(u) => seq!["Extended description: "@ + u@],
        None => Seq::<Seq<char>>::empty(),
    }));
    match &m.time_slices {
        Some(v) => push_titled(&mut r, v.len() > 0, "Time slices:", time_slice_lines_of(v, &t.time_slice_times)),
        None => {},
    }
    let ghost s3 = texts(r@);
    assert(s3 =~= s2 + (match m.time_slices {
        Some(v) => titled(v@.len() > 0, "Time slices:"@, time_slice_block(v@, t.time_slice_times@)),
        None => Seq::<Seq<char>>::empty(),
    }));
    match (&m.video_previews, &t.previews_interval) {
        (Some(u), Some(i)) => {
            if u.unicode_len() > 0 {
                let mut line = concat("Video previews (Interval: ", i.as_str());
                push_str(&mut line, "): ");
                push_str(&mut line, u.as_str());
                push_line(&mut r, line);
            }
        },
        _ => {},
    }
    assert(texts(r@) =~= media_links_spec(*m, *t));
    r
}

/// The last lines of the get command (see `media_tail_spec`).
fn media_tail_lines(m: &MediaMetadata, t: &MediaInfoTexts) -> (r: Vec<String>)
    ensures
        texts(r@) == media_tail_spec(*m, *t),
{
    let mut r = media_list_lines(m, t);
    push_lines(&mut r, media_link_lines(m, t));
    r
}

/// Everything the get command prints about a media asset (see `media_info_spec`);
/// `tags` names the vault's tags by id.
pub fn media_info_lines(m: &MediaMetadata, tags: &HashMap<u64, String>, t: &MediaInfoTexts) -> (r: Vec<String>)
    ensures
        texts(r@) == media_info_spec(*m, tags@, *t),
{
    let mut r = media_head_lines(m, tags, t.duration.as_str(), t.upload_date.as_str());
    push_lines(&mut r, media_status_lines(m));
    push_lines(&mut r, media_resolution_lines(m));
    push_lines(&mut r, media_tail_lines(m, t));
    r
}

} // verus!
