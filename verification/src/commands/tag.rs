//! Tags: the order of the tag list, and which tag name a command sends.
use vstd::prelude::*;
use std::collections::HashMap;

use crate::models::tags::MediaTag;
use crate::sorting::{is_stable_order, key_of, keys_of, stable_sort_positions, SortKey};
use crate::text::{chars_of, nat_decimal, push_str, push_u64_decimal};

verus! {

broadcast use vstd::std_specs::hash::group_hash_axioms;

/// The sort key of a tag: its name when sorting alphabetically, else its id.
pub open spec fn tag_key(t: MediaTag, alphabetically: bool) -> (int, Seq<char>) {
    if alphabetically {
        (0, t.name@)
    } else {
        (t.id as int, Seq::<char>::empty())
    }
}

/// The sort keys of a list of tags.
pub open spec fn tag_keys(tags: Seq<MediaTag>, alphabetically: bool) -> Seq<(int, Seq<char>)> {
    tags.map_values(|t: MediaTag| tag_key(t, alphabetically))
}

/// `r` is `tags` sorted stably by name, or by id.
pub open spec fn is_tag_listing(r: Seq<MediaTag>, tags: Seq<MediaTag>, alphabetically: bool) -> bool {
    exists|perm: Seq<usize>|
        is_stable_order(tag_keys(tags, alphabetically), perm) && r == perm.map_values(
            |i: usize| tags[i as int],
        )
}

/// A copy of a tag.
fn copy_tag(t: &MediaTag) -> (r: MediaTag)
    ensures
        r == *t,
{
    MediaTag { id: t.id, name: t.name.clone() }
}

/// The tags to list, sorted by name when `alphabetically`, else by id (see
/// `is_tag_listing`).
pub fn list_tags(tags: &Vec<MediaTag>, alphabetically: bool) -> (r: Vec<MediaTag>)
    ensures
        is_tag_listing(r@, tags@, alphabetically),
{
    let mut keys: Vec<SortKey> = Vec::new();
    let mut j: usize = 0;
    while j < tags.len()
        invariant
            j <= tags@.len(),
            keys@.len() == j,
            forall|q: int| 0 <= q < j ==> key_of(#[trigger] keys@[q]) == tag_key(tags@[q], alphabetically),
        decreases tags.len() - j,
    {
        let t = &tags[j];
        let key = if alphabetically {
            SortKey { num: 0, text: chars_of(t.name.as_str()) }
        } else {
            SortKey { num: t.id as i128, text: Vec::new() }
        };
        keys.push(key);
        j = j + 1;
    }
    assert(keys_of(keys@) =~= tag_keys(tags@, alphabetically));
    let perm = stable_sort_positions(&keys);
    let mut r: Vec<MediaTag> = Vec::new();
    let mut k: usize = 0;
    while k < perm.len()
        invariant
            k <= perm@.len(),
            is_stable_order(tag_keys(tags@, alphabetically), perm@),
            r@ == perm@.take(k as int).map_values(|p: usize| tags@[p as int]),
        decreases perm.len() - k,
    {
        let p = perm[k];
        r.push(copy_tag(&tags[p]));
        assert(perm@.take(k + 1).map_values(|p: usize| tags@[p as int]) =~= perm@.take(k as int).map_values(
            |p: usize| tags@[p as int],
        ).push(tags@[p as int]));
        k = k + 1;
    }
    assert(perm@.take(perm@.len() as int) =~= perm@);
    r
}

/// The tag name sent when a command names a tag: when the argument is a tag identifier
/// (`tag_id` holds its number) of a known tag, that tag's name; else the argument as
/// written.
pub open spec fn tag_param_spec(tag: Seq<char>, tag_id: Option<u64>, tags: Map<u64, String>) -> Seq<char> {
    match tag_id {
        Some(id) => if tags.contains_key(id) { tags[id]@ } else { tag },
        None => tag,
    }
}

/// The tag name sent when a command names a tag (see `tag_param_spec`). `tag_id` is
/// the number of the argument when it is a tag identifier.
pub fn resolve_tag_param(tag: String, tag_id: Option<u64>, tags: &HashMap<u64, String>) -> (r: String)
    ensures
        r@ == tag_param_spec(tag@, tag_id, tags@),
{
    match tag_id {
        Some(id) => match tags.get(&id) {
            Some(name) => name.clone(),
            None => tag,
        },
        None => tag,
    }
}


/// The tag subcommands.
pub enum TagCommand {
    /// Lists the tags.
    List { csv: bool, alphabetically: bool },
    /// Tags a media asset.
    Add { tag: String, media: String },
    /// Removes a tag from a media asset.
    Remove { tag: String, media: String },
}


/// The message reported when a tag was added to (`added`) or removed from a media
/// asset.
pub open spec fn tag_change_text(added: bool, tag_id: u64, tag_name: Seq<char>, media_id: u64) -> Seq<char> {
    if added {
        "Successfully added tag "@ + "#"@ + nat_decimal(tag_id as nat) + " ( "@ + tag_name + " ) to media asset "@
            + "#"@ + nat_decimal(media_id as nat)
    } else {
        "Successfully removed tag "@ + "#"@ + nat_decimal(tag_id as nat) + " ( "@ + tag_name
            + " ) from media asset "@ + "#"@ + nat_decimal(media_id as nat)
    }
}

/// The message reported when a tag was added to or removed from a media asset (see
/// `tag_change_text`).
pub fn tag_change_message(added: bool, tag_id: u64, tag_name: &str, media_id: u64) -> (r: String)
    ensures
        r@ == tag_change_text(added, tag_id, tag_name@, media_id),
{
    let mut r = String::new();
    if added {
        push_str(&mut r, "Successfully added tag ");
    } else {
        push_str(&mut r, "Successfully removed tag ");
    }
    push_str(&mut r, "#");
    push_u64_decimal(&mut r, tag_id);
    push_str(&mut r, " ( ");
    push_str(&mut r, tag_name);
    if added {
        push_str(&mut r, " ) to media asset ");
    } else {
        push_str(&mut r, " ) from media asset ");
    }
    push_str(&mut r, "#");
    push_u64_decimal(&mut r, media_id);
    assert(r@ =~= tag_change_text(added, tag_id, tag_name@, media_id));
    r
}

} // verus!
