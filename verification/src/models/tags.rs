//! Tags attached to media assets.
use vstd::prelude::*;
use std::collections::HashMap;

use crate::text::{nat_decimal, push_char, push_u64_decimal};

verus! {

broadcast use vstd::std_specs::hash::group_hash_axioms;

/// A tag of the vault.
pub struct MediaTag {
    pub id: u64,
    pub name: String,
}

/// Request to tag a media asset.
pub struct AddTagBody {
    pub media_id: u64,
    pub tag_name: String,
}

/// Request to remove a tag from a media asset.
pub struct RemoveTagBody {
    pub media_id: u64,
    pub tag_id: u64,
}

/// Tag names by tag id; a later tag with the same id replaces an earlier one.
pub open spec fn tags_map_spec(list: Seq<MediaTag>) -> Map<u64, String>
    decreases list.len(),
{
    if list.len() == 0 {
        Map::empty()
    } else {
        tags_map_spec(list.drop_last()).insert(list.last().id, list.last().name)
    }
}

/// The name of a tag, or `#{id}` when the map does not know it.
pub open spec fn tag_name_or_id(id: u64, tags_map: Map<u64, String>) -> Seq<char> {
    if tags_map.contains_key(id) {
        tags_map[id]@
    } else {
        seq!['#'] + nat_decimal(id as nat)
    }
}

/// Builds the map from tag ids to tag names.
pub fn tags_map_from_list(list: &Vec<MediaTag>) -> (res: HashMap<u64, String>)
    ensures
        res@ == tags_map_spec(list@),
{
    let mut res: HashMap<u64, String> = HashMap::new();
    let mut i: usize = 0;
    while i < list.len()
        invariant
            i <= list@.len(),
            res@ == tags_map_spec(list@.take(i as int)),
        decreases list.len() - i,
    {
        assert(list@.take(i + 1).drop_last() =~= list@.take(i as int));
        res.insert(list[i].id, list[i].name.clone());
        i = i + 1;
    }
    assert(list@.take(list@.len() as int) =~= list@);
    res
}

/// The names of the tags with the given ids, in order; an unknown id shows as `#{id}`.
pub fn tags_names_from_ids(ids: &Vec<u64>, tags_map: &HashMap<u64, String>) -> (res: Vec<String>)
    ensures
        res@.len() == ids@.len(),
        forall|i: int|
            0 <= i < ids@.len() ==> (#[trigger] res@[i])@ == tag_name_or_id(ids@[i], tags_map@),
{
    let mut res: Vec<String> = Vec::new();
    let mut i: usize = 0;
    while i < ids.len()
        invariant
            i <= ids@.len(),
            res@.len() == i,
            forall|k: int|
                0 <= k < i ==> (#[trigger] res@[k])@ == tag_name_or_id(ids@[k], tags_map@),
        decreases ids.len() - i,
    {
        let id = ids[i];
        match tags_map.get(&id) {
            Some(name) => {
                res.push(name.clone());
            },
            None => {
                let mut s = String::new();
                push_char(&mut s, '#');
                push_u64_decimal(&mut s, id);
                assert(s@ =~= seq!['#'] + nat_decimal(id as nat));
                res.push(s);
            },
        }
        i = i + 1;
    }
    res
}

/// The id of the tag named `name`: the last such tag of the list, as a map from names
/// to ids built from the list in order keeps it.
pub open spec fn tag_id_by_name_spec(tags: Seq<MediaTag>, name: Seq<char>) -> Option<u64>
    decreases tags.len(),
{
    if tags.len() == 0 {
        None
    } else if tags.last().name@ == name {
        Some(tags.last().id)
    } else {
        tag_id_by_name_spec(tags.drop_last(), name)
    }
}

/// The id of the tag named `name` (see `tag_id_by_name_spec`).
pub fn tag_id_by_name(tags: &Vec<MediaTag>, name: &str) -> (r: Option<u64>)
    ensures
        r == tag_id_by_name_spec(tags@, name@),
{
    let mut i: usize = tags.len();
    assert(tags@.take(i as int) =~= tags@);
    while i > 0
        invariant
            i <= tags@.len(),
            tag_id_by_name_spec(tags@, name@) == tag_id_by_name_spec(tags@.take(i as int), name@),
        decreases i,
    {
        let ghost t = tags@.take(i as int);
        assert(t.drop_last() =~= tags@.take(i - 1));
        assert(t.last() == tags@[i - 1]);
        if crate::text::str_equals(tags[i - 1].name.as_str(), name) {
            return Some(tags[i - 1].id);
        }
        i = i - 1;
    }
    None
}

/// The tags a search or a batch operation names, resolved: the names given (empty
/// ones left out), each turned into its tag's id, in order, and the first `max` names,
/// which the request carries; `Err` with the first name that no tag has.
pub open spec fn resolve_tag_names_spec(names: Seq<Seq<char>>, tags: Seq<MediaTag>, max: int) -> Result<(Seq<u64>, Seq<Seq<char>>), Seq<char>>
    decreases names.len(),
{
    if names.len() == 0 {
        Ok((Seq::<u64>::empty(), Seq::<Seq<char>>::empty()))
    } else {
        match resolve_tag_names_spec(names.drop_last(), tags, max) {
            Err(e) => Err(e),
            Ok((ids, sent)) => {
                let n = names.last();
                if n.len() == 0 {
                    Ok((ids, sent))
                } else {
                    match tag_id_by_name_spec(tags, n) {
                        None => Err(n),
                        Some(id) => Ok((ids.push(id), if sent.len() < max {
                            sent.push(n)
                        } else {
                            sent
                        })),
                    }
                }
            },
        }
    }
}

/// The tags a search or a batch operation names, resolved (see
/// `resolve_tag_names_spec`).
pub fn resolve_tag_names(names: &Vec<String>, tags: &Vec<MediaTag>, max: usize) -> (r: Result<(Vec<u64>, Vec<String>), String>)
    ensures
        match r {
            Ok((ids, sent)) => resolve_tag_names_spec(names@.map_values(|n: String| n@), tags@, max as int)
                == Ok::<(Seq<u64>, Seq<Seq<char>>), Seq<char>>((ids@, sent@.map_values(|n: String| n@))),
            Err(e) => resolve_tag_names_spec(names@.map_values(|n: String| n@), tags@, max as int)
                == Err::<(Seq<u64>, Seq<Seq<char>>), Seq<char>>(e@),
        },
{
    let ghost all = names@.map_values(|n: String| n@);
    let mut ids: Vec<u64> = Vec::new();
    let mut sent: Vec<String> = Vec::new();
    let mut i: usize = 0;
    assert(all.take(0).len() == 0);
    assert(sent@.map_values(|n: String| n@) =~= Seq::<Seq<char>>::empty());
    while i < names.len()
        invariant
            i <= names@.len(),
            all == names@.map_values(|n: String| n@),
            resolve_tag_names_spec(all.take(i as int), tags@, max as int)
                == Ok::<(Seq<u64>, Seq<Seq<char>>), Seq<char>>((ids@, sent@.map_values(|n: String| n@))),
        decreases names.len() - i,
    {
        let ghost t = all.take(i + 1);
        assert(t.drop_last() =~= all.take(i as int));
        assert(t.last() == names@[i as int]@);
        let n = &names[i];
        if n.unicode_len() > 0 {
            match tag_id_by_name(tags, n.as_str()) {
                None => {
                    proof {
                        lemma_resolve_err_stays(all, tags@, max as int, i as int + 1);
                    }
                    assert(all.take(names@.len() as int) =~= all);
                    return Err(n.clone());
                },
                Some(id) => {
                    ids.push(id);
                    if sent.len() < max {
                        let ghost before = sent@.map_values(|x: String| x@);
                        sent.push(n.clone());
                        assert(sent@.map_values(|x: String| x@) =~= before.push(n@));
                    }
                },
            }
        }
        i = i + 1;
    }
    assert(all.take(names@.len() as int) =~= all);
    Ok((ids, sent))
}

/// Once a name is unknown, the names after it change nothing.
proof fn lemma_resolve_err_stays(all: Seq<Seq<char>>, tags: Seq<MediaTag>, max: int, k: int)
    requires
        0 <= k <= all.len(),
        resolve_tag_names_spec(all.take(k), tags, max) is Err,
    ensures
        resolve_tag_names_spec(all, tags, max) == resolve_tag_names_spec(all.take(k), tags, max),
    decreases all.len() - k,
{
    if k < all.len() {
        let t = all.take(k + 1);
        assert(t.drop_last() =~= all.take(k));
        lemma_resolve_err_stays(all, tags, max, k + 1);
    } else {
        assert(all.take(k) =~= all);
    }
}

} // verus!
