//! Importing a media asset from an export folder: what the import does, in order,
//! with the metadata file that the export wrote.
use vstd::prelude::*;

use crate::commands::media_download::ready_url;
use crate::commands::media_export::{
    audio_triples, export_metadata_spec, export_plan_spec, export_tag_names_spec, exported_attachments,
    exported_file, exported_single, exported_tracks, original_default_extension, subtitle_triples,
    thumbnail_url,
};
use crate::models::media::{
    opt_texts, texts_of, AttachmentExportView, MediaAttachmentExport, MediaMetadata, MediaMetadataExport,
    MediaMetadataExportView, MediaSubtitleOrAudioExport, TrackExportView,
};

verus! {

/// One step of an import, in the order the import takes them.
#[derive(Debug)]
pub enum ImportStep {
    /// Uploads the original file, with the title, which creates the media asset.
    Upload { file: String, title: Option<String> },
    /// Waits until the vault has encrypted the new media asset.
    WaitForEncryption,
    /// Adds a tag, by name.
    AddTag(String),
    /// Sets the description.
    SetDescription(String),
    /// Turns on the option to always start playing from the beginning.
    SetForceStartBeginning,
    /// Uploads the thumbnail file.
    SetThumbnail(String),
    /// Sets the extended description to the text of a file.
    SetExtendedDescription(String),
    /// Sets the time slices that the metadata file lists.
    SetTimeSlices,
    /// Sets the image notes that a file holds.
    SetNotes(String),
    /// Uploads a subtitles file.
    SetSubtitle { id: String, name: String, file: String },
    /// Uploads an extra audio track.
    SetAudio { id: String, name: String, file: String },
    /// Uploads an attachment, then gives it its name.
    AddAttachment { name: String, file: String },
}

/// A step of an import, as text.
pub enum ImportStepView {
    Upload { file: Seq<char>, title: Option<Seq<char>> },
    WaitForEncryption,
    AddTag(Seq<char>),
    SetDescription(Seq<char>),
    SetForceStartBeginning,
    SetThumbnail(Seq<char>),
    SetExtendedDescription(Seq<char>),
    SetTimeSlices,
    SetNotes(Seq<char>),
    SetSubtitle { id: Seq<char>, name: Seq<char>, file: Seq<char> },
    SetAudio { id: Seq<char>, name: Seq<char>, file: Seq<char> },
    AddAttachment { name: Seq<char>, file: Seq<char> },
}

impl View for ImportStep {
    type V = ImportStepView;

    open spec fn view(&self) -> ImportStepView {
        match self {
            ImportStep::Upload { file, title } => ImportStepView::Upload {
                file: file@,
                title: match title {
                    Some(t) => Some(t@),
                    None => None,
                },
            },
            ImportStep::WaitForEncryption => ImportStepView::WaitForEncryption,
            ImportStep::AddTag(n) => ImportStepView::AddTag(n@),
            ImportStep::SetDescription(d) => ImportStepView::SetDescription(d@),
            ImportStep::SetForceStartBeginning => ImportStepView::SetForceStartBeginning,
            ImportStep::SetThumbnail(f) => ImportStepView::SetThumbnail(f@),
            ImportStep::SetExtendedDescription(f) => ImportStepView::SetExtendedDescription(f@),
            ImportStep::SetTimeSlices => ImportStepView::SetTimeSlices,
            ImportStep::SetNotes(f) => ImportStepView::SetNotes(f@),
            ImportStep::SetSubtitle { id, name, file } => ImportStepView::SetSubtitle {
                id: id@,
                name: name@,
                file: file@,
            },
            ImportStep::SetAudio { id, name, file } => ImportStepView::SetAudio {
                id: id@,
                name: name@,
                file: file@,
            },
            ImportStep::AddAttachment { name, file } => ImportStepView::AddAttachment {
                name: name@,
                file: file@,
            },
        }
    }
}

/// The steps of a list, as text.
pub open spec fn import_steps_view(v: Seq<ImportStep>) -> Seq<ImportStepView> {
    v.map_values(|s: ImportStep| s@)
}

/// Why an export folder cannot be imported.
#[derive(Clone, Copy, Debug, PartialEq, Eq, Structural)]
pub enum ImportError {
    /// The metadata file names no original file.
    NoOriginal,
}

impl ImportError {
    /// The message reported for this error.
    pub fn message(&self) -> (r: String)
        ensures
            r@ == "Invalid metadata: No original file specified."@,
    {
        String::from_str("Invalid metadata: No original file specified.")
    }
}

/// Adding each tag, by name, in order.
pub open spec fn tag_import_steps(tags: Option<Seq<Seq<char>>>) -> Seq<ImportStepView> {
    match tags {
        Some(t) => t.map_values(|n: Seq<char>| ImportStepView::AddTag(n)),
        None => Seq::<ImportStepView>::empty(),
    }
}

/// Setting the description, when there is a non-empty one.
pub open spec fn description_steps(d: Option<Seq<char>>) -> Seq<ImportStepView> {
    match d {
        Some(x) => if x.len() > 0 {
            seq![ImportStepView::SetDescription(x)]
        } else {
            Seq::<ImportStepView>::empty()
        },
        None => Seq::<ImportStepView>::empty(),
    }
}

/// Turning on the start-from-beginning option, when it was on.
pub open spec fn extra_steps(f: Option<bool>) -> Seq<ImportStepView> {
    if f == Some(true) {
        seq![ImportStepView::SetForceStartBeginning]
    } else {
        Seq::<ImportStepView>::empty()
    }
}

/// Uploading the thumbnail, when the metadata names one.
pub open spec fn thumbnail_import_steps(f: Option<Seq<char>>) -> Seq<ImportStepView> {
    match f {
        Some(x) => seq![ImportStepView::SetThumbnail(x)],
        None => Seq::<ImportStepView>::empty(),
    }
}

/// Setting the extended description, when the metadata names its file.
pub open spec fn ext_desc_import_steps(f: Option<Seq<char>>) -> Seq<ImportStepView> {
    match f {
        Some(x) => seq![ImportStepView::SetExtendedDescription(x)],
        None => Seq::<ImportStepView>::empty(),
    }
}

/// Setting the time slices, when the metadata lists some.
pub open spec fn time_slice_steps(t: Option<Seq<Seq<char>>>) -> Seq<ImportStepView> {
    match t {
        Some(x) => if x.len() > 0 {
            seq![ImportStepView::SetTimeSlices]
        } else {
            Seq::<ImportStepView>::empty()
        },
        None => Seq::<ImportStepView>::empty(),
    }
}

/// Setting the image notes, when the metadata names their file.
pub open spec fn notes_import_steps(f: Option<Seq<char>>) -> Seq<ImportStepView> {
    match f {
        Some(x) => seq![ImportStepView::SetNotes(x)],
        None => Seq::<ImportStepView>::empty(),
    }
}

/// Uploading each subtitles file, in order.
pub open spec fn subtitle_import_steps(s: Option<Seq<TrackExportView>>) -> Seq<ImportStepView> {
    match s {
        Some(v) => v.map_values(|t: TrackExportView| ImportStepView::SetSubtitle { id: t.id, name: t.name, file: t.file }),
        None => Seq::<ImportStepView>::empty(),
    }
}

/// Uploading each extra audio track, in order.
pub open spec fn audio_import_steps(s: Option<Seq<TrackExportView>>) -> Seq<ImportStepView> {
    match s {
        Some(v) => v.map_values(|t: TrackExportView| ImportStepView::SetAudio { id: t.id, name: t.name, file: t.file }),
        None => Seq::<ImportStepView>::empty(),
    }
}

/// Uploading each attachment, in order.
pub open spec fn attachment_import_steps(s: Option<Seq<AttachmentExportView>>) -> Seq<ImportStepView> {
    match s {
        Some(v) => v.map_values(|a: AttachmentExportView| ImportStepView::AddAttachment { name: a.name, file: a.file }),
        None => Seq::<ImportStepView>::empty(),
    }
}

/// Appends the steps of the options and single files of a metadata file: the
/// description, the start-from-beginning option, the thumbnail, the extended
/// description, the time slices and the image notes.
fn push_option_steps(r: &mut Vec<ImportStep>, m: &MediaMetadataExport)
    ensures
        import_steps_view(final(r)@) == import_steps_view(old(r)@)
            + description_steps(m@.description)
            + extra_steps(m@.force_start_beginning)
            + thumbnail_import_steps(m@.thumbnail)
            + ext_desc_import_steps(m@.ext_desc)
            + time_slice_steps(m@.time_slices)
            + notes_import_steps(m@.notes),
{
    let ghost s1 = import_steps_view(r@);
    match &m.description {
        Some(d) => {
            if d.unicode_len() > 0 {
                push_import_step(r, ImportStep::SetDescription(d.clone()));
            }
        },
        None => {},
    }
    assert(import_steps_view(r@) =~= s1 + description_steps(m@.description));
    let ghost s2 = import_steps_view(r@);
    if m.force_start_beginning == Some(true) {
        push_import_step(r, ImportStep::SetForceStartBeginning);
    }
    assert(import_steps_view(r@) =~= s2 + extra_steps(m@.force_start_beginning));
    let ghost s3 = import_steps_view(r@);
    if let Some(f) = &m.thumbnail {
        push_import_step(r, ImportStep::SetThumbnail(f.clone()));
    }
    assert(import_steps_view(r@) =~= s3 + thumbnail_import_steps(m@.thumbnail));
    let ghost s4 = import_steps_view(r@);
    if let Some(f) = &m.ext_desc {
        push_import_step(r, ImportStep::SetExtendedDescription(f.clone()));
    }
    assert(import_steps_view(r@) =~= s4 + ext_desc_import_steps(m@.ext_desc));
    let ghost s5 = import_steps_view(r@);
    if let Some(t) = &m.time_slices {
        if t.len() > 0 {
            push_import_step(r, ImportStep::SetTimeSlices);
        }
    }
    assert(import_steps_view(r@) =~= s5 + time_slice_steps(m@.time_slices));
    let ghost s6 = import_steps_view(r@);
    if let Some(f) = &m.notes {
        push_import_step(r, ImportStep::SetNotes(f.clone()));
    }
    assert(import_steps_view(r@) =~= s6 + notes_import_steps(m@.notes));
}

/// What an import does with a metadata file, in order: upload the original with the
/// title and wait for its encryption, add the tags, set the description, the
/// start-from-beginning option, the thumbnail, the extended description, the time
/// slices and the image notes, then upload the subtitles files, the audio tracks and
/// the attachments. Refused when no original file is named.
pub open spec fn import_plan_spec(m: MediaMetadataExportView) -> Result<Seq<ImportStepView>, ImportError> {
    match m.original {
        None => Err(ImportError::NoOriginal),
        Some(o) => Ok(
            seq![ImportStepView::Upload { file: o, title: m.title }, ImportStepView::WaitForEncryption]
                + tag_import_steps(m.tags)
                + description_steps(m.description)
                + extra_steps(m.force_start_beginning)
                + thumbnail_import_steps(m.thumbnail)
                + ext_desc_import_steps(m.ext_desc)
                + time_slice_steps(m.time_slices)
                + notes_import_steps(m.notes)
                + subtitle_import_steps(m.subtitles)
                + audio_import_steps(m.audios)
                + attachment_import_steps(m.attachments),
        ),
    }
}

/// Whether a failed step ends the import: only the upload and the wait for the
/// encryption do; any later step that fails is reported and the import goes on with
/// the next one.
pub open spec fn step_failure_ends_import_spec(s: ImportStepView) -> bool {
    s is Upload || s is WaitForEncryption
}

/// Whether a failed step ends the import (see `step_failure_ends_import_spec`).
pub fn step_failure_ends_import(s: &ImportStep) -> (r: bool)
    ensures
        r == step_failure_ends_import_spec(s@),
{
    match s {
        ImportStep::Upload { .. } => true,
        ImportStep::WaitForEncryption => true,
        _ => false,
    }
}

/// Appends one step.
fn push_import_step(r: &mut Vec<ImportStep>, s: ImportStep)
    ensures
        import_steps_view(final(r)@) == import_steps_view(old(r)@).push(s@),
{
    let ghost before = import_steps_view(r@);
    let ghost v = s@;
    r.push(s);
    assert(import_steps_view(r@) =~= before.push(v));
}

/// Appends the tag steps.
fn push_tag_steps(r: &mut Vec<ImportStep>, tags: &Option<Vec<String>>)
    ensures
        import_steps_view(final(r)@) == import_steps_view(old(r)@) + tag_import_steps(
            crate::models::media::opt_texts(*tags),
        ),
{
    let ghost r0 = import_steps_view(r@);
    let ghost all = tag_import_steps(crate::models::media::opt_texts(*tags));
    match tags {
        Some(v) => {
            let mut i: usize = 0;
            while i < v.len()
                invariant
                    i <= v@.len(),
                    all == tag_import_steps(crate::models::media::opt_texts(*tags)),
                    *tags == Some(*v),
                    all.len() == v@.len(),
                    import_steps_view(r@) == r0 + all.take(i as int),
                decreases v.len() - i,
            {
                assert(all[i as int] == ImportStepView::AddTag(texts_of(v@)[i as int]));
                push_import_step(r, ImportStep::AddTag(v[i].clone()));
                assert(all.take(i + 1) =~= all.take(i as int).push(all[i as int]));
                assert(import_steps_view(r@) =~= r0 + all.take(i + 1));
                i = i + 1;
            }
            assert(all.take(v@.len() as int) =~= all);
        },
        None => {
            assert(import_steps_view(r@) =~= r0 + all);
        },
    }
}

/// Appends the steps of a list of subtitles files or audio tracks.
fn push_track_steps(r: &mut Vec<ImportStep>, tracks: &Option<Vec<MediaSubtitleOrAudioExport>>, audio: bool)
    ensures
        import_steps_view(final(r)@) == import_steps_view(old(r)@) + (if audio {
            audio_import_steps(crate::models::media::opt_tracks(*tracks))
        } else {
            subtitle_import_steps(crate::models::media::opt_tracks(*tracks))
        }),
{
    let ghost r0 = import_steps_view(r@);
    let ghost all = if audio {
        audio_import_steps(crate::models::media::opt_tracks(*tracks))
    } else {
        subtitle_import_steps(crate::models::media::opt_tracks(*tracks))
    };
    match tracks {
        Some(v) => {
            let mut i: usize = 0;
            while i < v.len()
                invariant
                    i <= v@.len(),
                    all == (if audio {
                        audio_import_steps(crate::models::media::opt_tracks(*tracks))
                    } else {
                        subtitle_import_steps(crate::models::media::opt_tracks(*tracks))
                    }),
                    *tracks == Some(*v),
                    all.len() == v@.len(),
                    import_steps_view(r@) == r0 + all.take(i as int),
                decreases v.len() - i,
            {
                let t = &v[i];
                let s = if audio {
                    ImportStep::SetAudio { id: t.id.clone(), name: t.name.clone(), file: t.file.clone() }
                } else {
                    ImportStep::SetSubtitle { id: t.id.clone(), name: t.name.clone(), file: t.file.clone() }
                };
                assert(s@ == all[i as int]);
                push_import_step(r, s);
                assert(all.take(i + 1) =~= all.take(i as int).push(all[i as int]));
                assert(import_steps_view(r@) =~= r0 + all.take(i + 1));
                i = i + 1;
            }
            assert(all.take(v@.len() as int) =~= all);
        },
        None => {
            assert(import_steps_view(r@) =~= r0 + all);
        },
    }
}

/// Appends the attachment steps.
fn push_attachment_import_steps(r: &mut Vec<ImportStep>, atts: &Option<Vec<MediaAttachmentExport>>)
    ensures
        import_steps_view(final(r)@) == import_steps_view(old(r)@) + attachment_import_steps(
            crate::models::media::opt_attachments(*atts),
        ),
{
    let ghost r0 = import_steps_view(r@);
    let ghost all = attachment_import_steps(crate::models::media::opt_attachments(*atts));
    match atts {
        Some(v) => {
            let mut i: usize = 0;
            while i < v.len()
                invariant
                    i <= v@.len(),
                    all == attachment_import_steps(crate::models::media::opt_attachments(*atts)),
                    *atts == Some(*v),
                    all.len() == v@.len(),
                    import_steps_view(r@) == r0 + all.take(i as int),
                decreases v.len() - i,
            {
                let a = &v[i];
                let s = ImportStep::AddAttachment { name: a.name.clone(), file: a.file.clone() };
                assert(s@ == all[i as int]);
                push_import_step(r, s);
                assert(all.take(i + 1) =~= all.take(i as int).push(all[i as int]));
                assert(import_steps_view(r@) =~= r0 + all.take(i + 1));
                i = i + 1;
            }
            assert(all.take(v@.len() as int) =~= all);
        },
        None => {
            assert(import_steps_view(r@) =~= r0 + all);
        },
    }
}

/// What an import does with a metadata file, in order (see `import_plan_spec`), or
/// why it is refused.
pub fn import_plan(m: &MediaMetadataExport) -> (r: Result<Vec<ImportStep>, ImportError>)
    ensures
        match r {
            Ok(s) => import_plan_spec(m@) == Ok::<Seq<ImportStepView>, ImportError>(import_steps_view(s@)),
            Err(e) => import_plan_spec(m@) == Err::<Seq<ImportStepView>, ImportError>(e),
        },
{
    let original = match &m.original {
        Some(o) => o.clone(),
        None => return Err(ImportError::NoOriginal),
    };
    let mut r: Vec<ImportStep> = Vec::new();
    let title = match &m.title {
        Some(t) => Some(t.clone()),
        None => None,
    };
    push_import_step(&mut r, ImportStep::Upload { file: original, title });
    push_import_step(&mut r, ImportStep::WaitForEncryption);
    let ghost s0 = import_steps_view(r@);
    assert(s0 =~= seq![
        ImportStepView::Upload { file: m@.original.unwrap(), title: m@.title },
        ImportStepView::WaitForEncryption,
    ]);
    push_tag_steps(&mut r, &m.tags);
    push_option_steps(&mut r, m);
    push_track_steps(&mut r, &m.subtitles, false);
    push_track_steps(&mut r, &m.audios, true);
    push_attachment_import_steps(&mut r, &m.attachments);
    Ok(r)
}

/// The steps that give a media asset back from its export: upload its original file
/// with its title, add its tags by name in order (those not in the tag list left
/// out), set its description when it has one, turn on the start-from-beginning option
/// when it was on, set its thumbnail, extended description, time slices and image
/// notes, then upload each subtitles file and each audio track with its identifier
/// and name, and each attachment with its name, in order.
pub open spec fn restoring_steps(m: MediaMetadata, tags: Map<u64, String>, original: Seq<char>) -> Seq<ImportStepView> {
    seq![
        ImportStepView::Upload {
            file: exported_file("original"@, None, original, original_default_extension(m.media_type)),
            title: Some(m.title@),
        },
        ImportStepView::WaitForEncryption,
    ]
        + export_tag_names_spec(m.tags@, tags).map_values(|n: Seq<char>| ImportStepView::AddTag(n))
        + description_steps(Some(m.description@))
        + extra_steps(m.force_start_beginning)
        + thumbnail_import_steps(exported_single(thumbnail_url(m), "thumbnail"@, "jpg"@))
        + ext_desc_import_steps(exported_single(ready_url(m.ext_desc_url), "ext_desc"@, "txt"@))
        + time_slice_steps(opt_texts(m.time_slices))
        + notes_import_steps(exported_single(ready_url(m.img_notes_url), "notes"@, "json"@))
        + (match m.subtitles {
            Some(v) => Seq::new(v@.len(), |i: int| ImportStepView::SetSubtitle {
                id: v@[i].id@,
                name: v@[i].name@,
                file: exported_file("subtitle"@, Some((i + 1) as u64), v@[i].url@, "srt"@),
            }),
            None => Seq::<ImportStepView>::empty(),
        })
        + (match m.audios {
            Some(v) => Seq::new(v@.len(), |i: int| ImportStepView::SetAudio {
                id: v@[i].id@,
                name: v@[i].name@,
                file: exported_file("audio_track"@, Some((i + 1) as u64), v@[i].url@, "mp3"@),
            }),
            None => Seq::<ImportStepView>::empty(),
        })
        + (match m.attachments {
            Some(v) => Seq::new(v@.len(), |i: int| ImportStepView::AddAttachment {
                name: v@[i].name@,
                file: exported_file("attachment"@, Some((i + 1) as u64), v@[i].url@, "bin"@),
            }),
            None => Seq::<ImportStepView>::empty(),
        })
}

/// Importing what an export of a media asset wrote gives the media asset back: the
/// import is not refused, it uploads the original file with the title, adds the tags
/// by name in the media asset's order, sets the description, the start-from-beginning
/// option and the other files, and uploads the subtitles files and audio tracks with
/// their identifiers and names, in order (see `restoring_steps`).
pub proof fn law_export_import_round_trip(m: MediaMetadata, tags: Map<u64, String>)
    requires
        export_plan_spec(m) is Ok,
    ensures
        import_plan_spec(export_metadata_spec(m, tags)) == Ok::<Seq<ImportStepView>, ImportError>(
            restoring_steps(m, tags, ready_url(m.url)->Some_0),
        ),
        restoring_steps(m, tags, ready_url(m.url)->Some_0)[0] == (ImportStepView::Upload {
            file: exported_file("original"@, None, ready_url(m.url)->Some_0, original_default_extension(m.media_type)),
            title: Some(m.title@),
        }),
        restoring_steps(m, tags, ready_url(m.url)->Some_0).subrange(
            2,
            2 + export_tag_names_spec(m.tags@, tags).len() as int,
        ) == export_tag_names_spec(m.tags@, tags).map_values(|n: Seq<char>| ImportStepView::AddTag(n)),
{
    let e = export_metadata_spec(m, tags);
    lemma_restored_prefix(m, tags, ready_url(m.url)->Some_0);
    lemma_restored_lists(m, tags);
    assert(e.original == Some(exported_file("original"@, None, ready_url(m.url)->Some_0, original_default_extension(m.media_type))));
    assert(tag_import_steps(e.tags) == export_tag_names_spec(m.tags@, tags).map_values(|n: Seq<char>| ImportStepView::AddTag(n)));
}

/// Appending keeps what comes before.
proof fn lemma_concat_keeps_prefix(a: Seq<ImportStepView>, b: Seq<ImportStepView>, k: int)
    requires
        0 <= k <= a.len(),
    ensures
        (a + b).subrange(0, k) == a.subrange(0, k),
{
    assert((a + b).subrange(0, k) =~= a.subrange(0, k));
}

/// The steps that give a media asset back start with its upload, with its title, and
/// the adding of its tags, in order.
proof fn lemma_restored_prefix(m: MediaMetadata, tags: Map<u64, String>, original: Seq<char>)
    ensures
        ({
            let names = export_tag_names_spec(m.tags@, tags);
            let steps = restoring_steps(m, tags, original);
            &&& steps[0] == (ImportStepView::Upload {
                file: exported_file("original"@, None, original, original_default_extension(m.media_type)),
                title: Some(m.title@),
            })
            &&& steps.subrange(2, 2 + names.len() as int) == names.map_values(|n: Seq<char>| ImportStepView::AddTag(n))
        }),
{
    let names = export_tag_names_spec(m.tags@, tags);
    let head = seq![
        ImportStepView::Upload {
            file: exported_file("original"@, None, original, original_default_extension(m.media_type)),
            title: Some(m.title@),
        },
        ImportStepView::WaitForEncryption,
    ];
    let p = head + names.map_values(|n: Seq<char>| ImportStepView::AddTag(n));
    let k = p.len() as int;
    let s1 = p + description_steps(Some(m.description@));
    let s2 = s1 + extra_steps(m.force_start_beginning);
    let s3 = s2 + thumbnail_import_steps(exported_single(thumbnail_url(m), "thumbnail"@, "jpg"@));
    let s4 = s3 + ext_desc_import_steps(exported_single(ready_url(m.ext_desc_url), "ext_desc"@, "txt"@));
    let s5 = s4 + time_slice_steps(opt_texts(m.time_slices));
    let s6 = s5 + notes_import_steps(exported_single(ready_url(m.img_notes_url), "notes"@, "json"@));
    let l7 = match m.subtitles {
        Some(v) => Seq::new(v@.len(), |i: int| ImportStepView::SetSubtitle {
            id: v@[i].id@,
            name: v@[i].name@,
            file: exported_file("subtitle"@, Some((i + 1) as u64), v@[i].url@, "srt"@),
        }),
        None => Seq::<ImportStepView>::empty(),
    };
    let l8 = match m.audios {
        Some(v) => Seq::new(v@.len(), |i: int| ImportStepView::SetAudio {
            id: v@[i].id@,
            name: v@[i].name@,
            file: exported_file("audio_track"@, Some((i + 1) as u64), v@[i].url@, "mp3"@),
        }),
        None => Seq::<ImportStepView>::empty(),
    };
    let l9 = match m.attachments {
        Some(v) => Seq::new(v@.len(), |i: int| ImportStepView::AddAttachment {
            name: v@[i].name@,
            file: exported_file("attachment"@, Some((i + 1) as u64), v@[i].url@, "bin"@),
        }),
        None => Seq::<ImportStepView>::empty(),
    };
    let s7 = s6 + l7;
    let s8 = s7 + l8;
    let s9 = s8 + l9;
    assert(s9 == restoring_steps(m, tags, original));
    lemma_concat_keeps_prefix(p, description_steps(Some(m.description@)), k);
    lemma_concat_keeps_prefix(s1, extra_steps(m.force_start_beginning), k);
    lemma_concat_keeps_prefix(s2, thumbnail_import_steps(exported_single(thumbnail_url(m), "thumbnail"@, "jpg"@)), k);
    lemma_concat_keeps_prefix(s3, ext_desc_import_steps(exported_single(ready_url(m.ext_desc_url), "ext_desc"@, "txt"@)), k);
    lemma_concat_keeps_prefix(s4, time_slice_steps(opt_texts(m.time_slices)), k);
    lemma_concat_keeps_prefix(s5, notes_import_steps(exported_single(ready_url(m.img_notes_url), "notes"@, "json"@)), k);
    lemma_concat_keeps_prefix(s6, l7, k);
    lemma_concat_keeps_prefix(s7, l8, k);
    lemma_concat_keeps_prefix(s8, l9, k);
    assert(s9.subrange(0, k) == p.subrange(0, k));
    assert(p.subrange(0, k) =~= p);
    assert(s9[0] == s9.subrange(0, k)[0]);
    assert(s9.subrange(2, k) =~= s9.subrange(0, k).subrange(2, k));
    assert(p.subrange(2, k) =~= names.map_values(|n: Seq<char>| ImportStepView::AddTag(n)));
}

/// The list steps of an import of an export: one per subtitles file, audio track and
/// attachment of the media asset, in order.
proof fn lemma_restored_lists(m: MediaMetadata, tags: Map<u64, String>)
    ensures
        ({
            let e = export_metadata_spec(m, tags);
            &&& subtitle_import_steps(e.subtitles) == (match m.subtitles {
                Some(v) => Seq::new(v@.len(), |i: int| ImportStepView::SetSubtitle {
                    id: v@[i].id@,
                    name: v@[i].name@,
                    file: exported_file("subtitle"@, Some((i + 1) as u64), v@[i].url@, "srt"@),
                }),
                None => Seq::<ImportStepView>::empty(),
            })
            &&& audio_import_steps(e.audios) == (match m.audios {
                Some(v) => Seq::new(v@.len(), |i: int| ImportStepView::SetAudio {
                    id: v@[i].id@,
                    name: v@[i].name@,
                    file: exported_file("audio_track"@, Some((i + 1) as u64), v@[i].url@, "mp3"@),
                }),
                None => Seq::<ImportStepView>::empty(),
            })
            &&& attachment_import_steps(e.attachments) == (match m.attachments {
                Some(v) => Seq::new(v@.len(), |i: int| ImportStepView::AddAttachment {
                    name: v@[i].name@,
                    file: exported_file("attachment"@, Some((i + 1) as u64), v@[i].url@, "bin"@),
                }),
                None => Seq::<ImportStepView>::empty(),
            })
        }),
{
    let e = export_metadata_spec(m, tags);
    match m.subtitles {
        Some(v) => {
            assert(subtitle_import_steps(e.subtitles) =~= Seq::new(v@.len(), |i: int| ImportStepView::SetSubtitle {
                id: v@[i].id@,
                name: v@[i].name@,
                file: exported_file("subtitle"@, Some((i + 1) as u64), v@[i].url@, "srt"@),
            }));
        },
        None => {},
    }
    match m.audios {
        Some(v) => {
            assert(audio_import_steps(e.audios) =~= Seq::new(v@.len(), |i: int| ImportStepView::SetAudio {
                id: v@[i].id@,
                name: v@[i].name@,
                file: exported_file("audio_track"@, Some((i + 1) as u64), v@[i].url@, "mp3"@),
            }));
        },
        None => {},
    }
    match m.attachments {
        Some(v) => {
            assert(attachment_import_steps(e.attachments) =~= Seq::new(v@.len(), |i: int| ImportStepView::AddAttachment {
                name: v@[i].name@,
                file: exported_file("attachment"@, Some((i + 1) as u64), v@[i].url@, "bin"@),
            }));
        },
        None => {},
    }
}

} // verus!
