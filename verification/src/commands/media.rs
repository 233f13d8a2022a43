//! The media asset commands.
use vstd::prelude::*;

use crate::models::media::{resolution_text, MediaMetadata, MediaResolution};
use crate::text::{nat_decimal, push_str, push_u64_decimal};

verus! {

/// The media subcommands.
pub enum MediaCommand {
    Get { media: String },
    Stats { media: String },
    Download { media: String, asset: Option<String>, output: Option<String>, print_link: bool },
    Export { media: String, output: Option<String> },
    Upload { path: String, title: Option<String>, album: Option<String>, tags: Option<String>, skip_encryption: bool },
    Import { path: String, album: Option<String> },
    SetTitle { media: String, title: String },
    SetDescription { media: String, description: String },
    SetExtendedDescription { media: String, path: String },
    SetForceStartBeginning { media: String, force_start_beginning: String },
    SetThumbnail { media: String, path: String },
    GetTimeSlices { media: String },
    SetTimeSlices { media: String, path: String },
    SetImageNotes { media: String, path: String },
    AddResolution { media: String, resolution: String },
    RemoveResolution { media: String, resolution: String },
    AddSubtitle { media: String, sub_id: String, path: String, name: Option<String> },
    RemoveSubtitle { media: String, sub_id: String },
    AddAudio { media: String, track_id: String, path: String, name: Option<String> },
    RemoveAudio { media: String, track_id: String },
    AddAttachment { media: String, path: String },
    RenameAttachment { media: String, attachment_id: String, name: String },
    RemoveAttachment { media: String, attachment_id: String },
    ReEncode { media: String },
    Delete { media: String },
}


/// How an identifier is shown: `#{id}`.
pub open spec fn identifier_text(id: u64) -> Seq<char> {
    "#"@ + nat_decimal(id as nat)
}

/// Shows an identifier: `#{id}`.
pub fn identifier_to_string(id: u64) -> (r: String)
    ensures
        r@ == identifier_text(id),
{
    let mut r = String::from_str("#");
    push_u64_decimal(&mut r, id);
    r
}

/// The texts of a list of strings.
pub open spec fn texts(v: Seq<String>) -> Seq<Seq<char>> {
    v.map_values(|s: String| s@)
}

/// The status lines of a media asset: encoded and ready (with the original's URL
/// when known), waiting for its encoding task (or without one), or not ready.
pub open spec fn media_status_spec(m: MediaMetadata) -> Seq<Seq<char>> {
    if m.ready {
        if m.encoded {
            seq!["Status: Encoded and ready"@] + (match m.url {
                Some(u) => seq!["Original: "@ + u@],
                None => Seq::<Seq<char>>::empty(),
            })
        } else {
            seq!["Status: Not encoded yet"@] + (match m.task {
                Some(t) => seq!["Task (Encode): "@ + identifier_text(t)],
                None => seq!["No task to encode the media. Re-encoding may be needed."@],
            })
        }
    } else {
        seq!["Status: Not ready"@]
    }
}

/// The status lines of a media asset (see `media_status_spec`).
pub fn media_status_lines(m: &MediaMetadata) -> (r: Vec<String>)
    ensures
        texts(r@) == media_status_spec(*m),
{
    let mut r: Vec<String> = Vec::new();
    if m.ready {
        if m.encoded {
            r.push(String::from_str("Status: Encoded and ready"));
            if let Some(u) = &m.url {
                let mut line = String::from_str("Original: ");
                push_str(&mut line, u.as_str());
                r.push(line);
            }
        } else {
            r.push(String::from_str("Status: Not encoded yet"));
            match m.task {
                Some(t) => {
                    let mut line = String::from_str("Task (Encode): ");
                    let id = identifier_to_string(t);
                    push_str(&mut line, id.as_str());
                    r.push(line);
                },
                None => r.push(String::from_str("No task to encode the media. Re-encoding may be needed.")),
            }
        }
    } else {
        r.push(String::from_str("Status: Not ready"));
    }
    assert(texts(r@) =~= media_status_spec(*m));
    r
}

/// The lines that describe one extra resolution: its size, then ready with its file
/// when known, or not ready with its encoding task (or without one).
pub open spec fn resolution_block_spec(r: MediaResolution) -> Seq<Seq<char>> {
    seq!["\t- Resolution: "@ + resolution_text(r.width as int, r.height as int, r.fps_or_zero() as int)] + if r.ready {
        seq!["\t  Status: Ready"@] + (match r.url {
            Some(u) => seq!["\t  File: "@ + u@],
            None => Seq::<Seq<char>>::empty(),
        })
    } else {
        seq!["\t  Status: Not ready yet"@] + (match r.task {
            Some(t) => seq!["\t  Task (Encode): "@ + identifier_text(t)],
            None => seq!["\t  No task set to encode. Re-encoding may be needed."@],
        })
    }
}

/// The lines that describe a media asset's extra resolutions: a heading and one block
/// per resolution, or nothing when it has none.
pub open spec fn media_resolutions_spec(m: MediaMetadata) -> Seq<Seq<char>> {
    match m.resolutions {
        Some(rs) => if rs@.len() > 0 {
            seq!["Extra resolutions:"@] + rs@.map_values(|r: MediaResolution| resolution_block_spec(r)).flatten_alt()
        } else {
            Seq::<Seq<char>>::empty()
        },
        None => Seq::<Seq<char>>::empty(),
    }
}

/// The lines that describe one extra resolution (see `resolution_block_spec`).
fn resolution_block(res: &MediaResolution) -> (r: Vec<String>)
    ensures
        texts(r@) == resolution_block_spec(*res),
{
    let mut r: Vec<String> = Vec::new();
    let mut head = String::from_str("\t- Resolution: ");
    let text = res.to_string();
    push_str(&mut head, text.as_str());
    r.push(head);
    if res.ready {
        r.push(String::from_str("\t  Status: Ready"));
        if let Some(u) = &res.url {
            let mut line = String::from_str("\t  File: ");
            push_str(&mut line, u.as_str());
            r.push(line);
        }
    } else {
        r.push(String::from_str("\t  Status: Not ready yet"));
        match res.task {
            Some(t) => {
                let mut line = String::from_str("\t  Task (Encode): ");
                let id = identifier_to_string(t);
                push_str(&mut line, id.as_str());
                r.push(line);
            },
            None => r.push(String::from_str("\t  No task set to encode. Re-encoding may be needed.")),
        }
    }
    assert(texts(r@) =~= resolution_block_spec(*res));
    r
}

/// The lines that describe a media asset's extra resolutions (see
/// `media_resolutions_spec`).
pub fn media_resolution_lines(m: &MediaMetadata) -> (r: Vec<String>)
    ensures
        texts(r@) == media_resolutions_spec(*m),
{
    let mut r: Vec<String> = Vec::new();
    match &m.resolutions {
        Some(rs) => {
            if rs.len() == 0 {
                return r;
            }
            r.push(String::from_str("Extra resolutions:"));
            let ghost blocks = rs@.map_values(|x: MediaResolution| resolution_block_spec(x));
            let mut i: usize = 0;
            while i < rs.len()
                invariant
                    i <= rs@.len(),
                    blocks == rs@.map_values(|x: MediaResolution| resolution_block_spec(x)),
                    texts(r@) == seq!["Extra resolutions:"@] + blocks.take(i as int).flatten_alt(),
                decreases rs.len() - i,
            {
                let block = resolution_block(&rs[i]);
                let ghost before = texts(r@);
                let mut j: usize = 0;
                while j < block.len()
                    invariant
                        j <= block@.len(),
                        texts(r@) == before + texts(block@).take(j as int),
                    decreases block.len() - j,
                {
                    let line = block[j].clone();
                    let ghost prev = texts(r@);
                    r.push(line);
                    assert(texts(r@) =~= prev.push(block@[j as int]@));
                    assert(texts(r@) =~= before + texts(block@).take(j + 1));
                    j = j + 1;
                }
                assert(texts(block@).take(block@.len() as int) =~= texts(block@));
                assert(blocks.take(i + 1).drop_last() =~= blocks.take(i as int));
                assert(blocks.take(i + 1).last() == texts(block@));
                assert(texts(r@) =~= seq!["Extra resolutions:"@] + blocks.take(i + 1).flatten_alt());
                i = i + 1;
            }
            assert(blocks.take(rs@.len() as int) =~= blocks);
            r
        },
        None => r,
    }
}

} // verus!
