//! Albums: which to list and in what order, and where a media asset goes when it is
//! moved within an album.
use vstd::prelude::*;

use crate::models::albums::{Album, AlbumListItem};
use crate::models::media::MediaListItem;
use crate::sorting::{is_stable_order, key_of, keys_of, stable_sort_positions, SortKey};
use crate::text::{chars_of, nat_decimal, push_str, push_u64_decimal};

verus! {

broadcast use vstd::seq_lib::group_seq_properties;

// ---------------------------------------------------------------------------
// Membership
// ---------------------------------------------------------------------------

/// Whether an album holds a media asset.
pub open spec fn album_has_media(album: Album, media_id: u64) -> bool {
    exists|i: int| 0 <= i < album.list@.len() && (#[trigger] album.list@[i]).id == media_id
}

/// Whether an album holds a media asset (adding one it holds, or removing one it does
/// not hold, is refused before any request).
pub fn media_is_in_album(album: &Album, media_id: u64) -> (r: bool)
    ensures
        r == album_has_media(*album, media_id),
{
    let mut i: usize = 0;
    while i < album.list.len()
        invariant
            i <= album.list@.len(),
            forall|j: int| 0 <= j < i ==> (#[trigger] album.list@[j]).id != media_id,
        decreases album.list.len() - i,
    {
        if album.list[i].id == media_id {
            assert(album.list@[i as int].id == media_id);
            return true;
        }
        i = i + 1;
    }
    false
}

// ---------------------------------------------------------------------------
// Moving a media asset within an album
// ---------------------------------------------------------------------------

/// The media asset ids of an album's list, in order.
pub open spec fn album_ids(list: Seq<MediaListItem>) -> Seq<u64> {
    list.map_values(|m: MediaListItem| m.id)
}

/// Whether an id differs from `x`.
pub open spec fn not_id(x: u64) -> spec_fn(u64) -> bool {
    |y: u64| y != x
}

/// Whether an id is `x`.
pub open spec fn is_id(x: u64) -> spec_fn(u64) -> bool {
    |y: u64| y == x
}

/// A list of ids without any occurrence of `x`, the others in order.
pub open spec fn without_id(ids: Seq<u64>, x: u64) -> Seq<u64> {
    ids.filter(not_id(x))
}

/// The new order of an album when a media asset is put at a position counted from 1,
/// and the position reported. The asset is first taken out of the list; position 0
/// puts it first (reported as 1); a position within the remaining list puts it before
/// the asset that held that position (reported as that position); a later position
/// appends it (reported as the new length).
pub open spec fn set_position_spec(ids: Seq<u64>, media_id: u64, position: u32) -> (Seq<u64>, u32) {
    let f = without_id(ids, media_id);
    if position < 1 {
        (seq![media_id] + f, 1u32)
    } else if position <= f.len() {
        (f.take(position - 1) + seq![media_id] + f.skip(position - 1), position)
    } else {
        (f.push(media_id), (f.len() + 1) as u32)
    }
}

/// Where a media asset ends up in the new order: the index of its one occurrence.
pub open spec fn set_position_index(ids: Seq<u64>, media_id: u64, position: u32) -> int {
    let f = without_id(ids, media_id);
    if position < 1 {
        0
    } else if position <= f.len() {
        position - 1
    } else {
        f.len() as int
    }
}

/// The ids of an album's list without a media asset, in order.
fn ids_without(list: &Vec<MediaListItem>, media_id: u64) -> (r: Vec<u64>)
    ensures
        r@ == without_id(album_ids(list@), media_id),
{
    let ghost ids = album_ids(list@);
    let mut r: Vec<u64> = Vec::new();
    let mut i: usize = 0;
    while i < list.len()
        invariant
            i <= list@.len(),
            ids == album_ids(list@),
            r@ == without_id(ids.take(i as int), media_id),
        decreases list.len() - i,
    {
        proof {
            reveal_with_fuel(Seq::<_>::filter, 1);
            assert(ids.take(i + 1).drop_last() =~= ids.take(i as int));
            assert(ids.take(i + 1).last() == list@[i as int].id);
        }
        let id = list[i].id;
        if id != media_id {
            r.push(id);
        }
        i = i + 1;
    }
    assert(ids.take(list@.len() as int) =~= ids);
    r
}

/// The new order of an album when a media asset is put at `position` (counted from
/// 1), and the position reported (see `set_position_spec`). The album holds fewer than
/// `u32::MAX` media assets.
pub fn album_set_position(list: &Vec<MediaListItem>, media_id: u64, position: u32) -> (r: (Vec<u64>, u32))
    requires
        list@.len() < u32::MAX,
    ensures
        (r.0@, r.1) == set_position_spec(album_ids(list@), media_id, position),
{
    let filtered = ids_without(list, media_id);
    let ghost f = filtered@;
    proof {
        album_ids(list@).lemma_filter_len(not_id(media_id));
    }
    let n = filtered.len();
    let mut new_list: Vec<u64> = Vec::new();
    let mut inserted = false;
    let mut reported: u32 = position;
    if position < 1 {
        new_list.push(media_id);
        inserted = true;
        reported = 1;
    }
    let mut i: usize = 0;
    while i < n
        invariant
            n == f.len(),
            n < u32::MAX,
            f == filtered@,
            i <= n,
            inserted == (position < 1 || position <= i),
            position < 1 ==> new_list@ == seq![media_id] + f.take(i as int) && reported == 1,
            1 <= position <= i ==> new_list@ == f.take(position - 1) + seq![media_id] + f.subrange(
                position - 1,
                i as int,
            ) && reported == position,
            !inserted ==> new_list@ == f.take(i as int),
        decreases n - i,
    {
        if position as usize == i + 1 {
            new_list.push(media_id);
            inserted = true;
            reported = position;
            assert(new_list@ == f.take(position - 1) + seq![media_id] + f.subrange(position - 1, i as int));
        }
        new_list.push(filtered[i]);
        proof {
            if position < 1 {
                assert(new_list@ =~= seq![media_id] + f.take(i + 1));
            } else if position <= i + 1 {
                assert(new_list@ =~= f.take(position - 1) + seq![media_id] + f.subrange(position - 1, i + 1));
            } else {
                assert(new_list@ =~= f.take(i + 1));
            }
        }
        i = i + 1;
    }
    if !inserted {
        new_list.push(media_id);
        reported = new_list.len() as u32;
        assert(new_list@ =~= f.push(media_id));
    } else if position < 1 {
        assert(f.take(n as int) =~= f);
    } else {
        assert(f.subrange(position - 1, n as int) =~= f.skip(position - 1));
    }
    (new_list, reported)
}

proof fn lemma_filter_keeps_all(s: Seq<u64>, x: u64)
    requires
        forall|i: int| 0 <= i < s.len() ==> s[i] != x,
    ensures
        s.filter(not_id(x)) == s,
        s.filter(is_id(x)) == Seq::<u64>::empty(),
    decreases s.len(),
{
    reveal_with_fuel(Seq::<_>::filter, 1);
    if s.len() > 0 {
        lemma_filter_keeps_all(s.drop_last(), x);
        assert(s =~= s.drop_last().push(s.last()));
    } else {
        assert(s.filter(not_id(x)) =~= s);
    }
}

/// Moving a media asset within an album puts it exactly once in the new order, at the
/// position asked for (clamped to the list), keeps every other media asset in its
/// order, and reports the position, counted from 1, where the asset now stands.
pub proof fn law_set_position_keeps_others(ids: Seq<u64>, media_id: u64, position: u32)
    requires
        ids.len() < u32::MAX,
    ensures
        ({
            let (n, r) = set_position_spec(ids, media_id, position);
            let k = set_position_index(ids, media_id, position);
            &&& n.len() == without_id(ids, media_id).len() + 1
            &&& 0 <= k < n.len()
            &&& n[k] == media_id
            &&& n.filter(is_id(media_id)).len() == 1
            &&& without_id(n, media_id) == without_id(ids, media_id)
            &&& r == k + 1
        }),
{
    let f = without_id(ids, media_id);
    ids.lemma_filter_len(not_id(media_id));
    let (n, _) = set_position_spec(ids, media_id, position);
    let k = set_position_index(ids, media_id, position);
    assert forall|i: int| 0 <= i < f.len() implies f[i] != media_id by {
        ids.lemma_filter_pred(not_id(media_id), i);
    }
    let a = f.take(k);
    let b = f.skip(k);
    assert(f =~= a + b);
    assert(n =~= a + seq![media_id] + b);
    lemma_filter_keeps_all(a, media_id);
    lemma_filter_keeps_all(b, media_id);
    lemma_filter_keeps_all(Seq::<u64>::empty(), media_id);
    let ne = not_id(media_id);
    let eq = is_id(media_id);
    Seq::filter_distributes_over_add(a + seq![media_id], b, ne);
    Seq::filter_distributes_over_add(a, seq![media_id], ne);
    Seq::filter_distributes_over_add(a + seq![media_id], b, eq);
    Seq::filter_distributes_over_add(a, seq![media_id], eq);
    reveal_with_fuel(Seq::<_>::filter, 2);
    assert(seq![media_id].filter(ne) =~= Seq::<u64>::empty()) by {
        assert(seq![media_id].drop_last() =~= Seq::<u64>::empty());
    }
    assert(seq![media_id].filter(eq) =~= seq![media_id]) by {
        assert(seq![media_id].drop_last() =~= Seq::<u64>::empty());
    }
    assert(without_id(n, media_id) =~= f);
    assert(n.filter(eq) =~= seq![media_id]);
}

// ---------------------------------------------------------------------------
// Listing albums
// ---------------------------------------------------------------------------

/// The albums listed: all of them, or, when a media asset's albums are given, those
/// among them, in the order of the full list.
pub open spec fn album_filter_spec(albums: Seq<AlbumListItem>, filter: Option<Seq<u64>>) -> Seq<AlbumListItem> {
    match filter {
        Some(ids) => albums.filter(|a: AlbumListItem| ids.contains(a.id)),
        None => albums,
    }
}

/// The sort key of an album: its name when sorting alphabetically, else its id when
/// sorting by id, else its last modification time, latest first.
pub open spec fn album_key(a: AlbumListItem, alphabetically: bool, id_sorted: bool) -> (int, Seq<char>) {
    if alphabetically {
        (0, a.name@)
    } else if id_sorted {
        (a.id as int, Seq::<char>::empty())
    } else {
        (-(a.lm as int), Seq::<char>::empty())
    }
}

/// The sort keys of a list of albums.
pub open spec fn album_keys(albums: Seq<AlbumListItem>, alphabetically: bool, id_sorted: bool) -> Seq<(int, Seq<char>)> {
    albums.map_values(|a: AlbumListItem| album_key(a, alphabetically, id_sorted))
}

/// The list of albums shown: `albums` filtered, then sorted stably by `album_key`.
pub open spec fn is_album_listing(
    r: Seq<AlbumListItem>,
    albums: Seq<AlbumListItem>,
    filter: Option<Seq<u64>>,
    alphabetically: bool,
    id_sorted: bool,
) -> bool {
    let f = album_filter_spec(albums, filter);
    exists|perm: Seq<usize>|
        is_stable_order(album_keys(f, alphabetically, id_sorted), perm) && r == perm.map_values(
            |i: usize| f[i as int],
        )
}

/// A copy of an album list entry.
fn copy_album(a: &AlbumListItem) -> (r: AlbumListItem)
    ensures
        r == *a,
{
    AlbumListItem { id: a.id, name: a.name.clone(), size: a.size, thumbnail: a.thumbnail.clone(), lm: a.lm }
}

/// The sort key of an album (see `album_key`).
fn album_sort_key(a: &AlbumListItem, alphabetically: bool, id_sorted: bool) -> (r: SortKey)
    ensures
        key_of(r) == album_key(*a, alphabetically, id_sorted),
{
    if alphabetically {
        SortKey { num: 0, text: chars_of(a.name.as_str()) }
    } else if id_sorted {
        SortKey { num: a.id as i128, text: Vec::new() }
    } else {
        SortKey { num: -(a.lm as i128), text: Vec::new() }
    }
}

/// Whether an id is in a list.
fn ids_contain(ids: &Vec<u64>, x: u64) -> (r: bool)
    ensures
        r == ids@.contains(x),
{
    let mut i: usize = 0;
    while i < ids.len()
        invariant
            i <= ids@.len(),
            forall|j: int| 0 <= j < i ==> ids@[j] != x,
        decreases ids.len() - i,
    {
        if ids[i] == x {
            assert(ids@[i as int] == x);
            return true;
        }
        i = i + 1;
    }
    false
}

/// The albums to list: those holding the media asset when its albums are given, sorted
/// by name, by id, or latest modified first (see `is_album_listing`).
pub fn list_albums(
    albums: &Vec<AlbumListItem>,
    media_albums: &Option<Vec<u64>>,
    alphabetically: bool,
    id_sorted: bool,
) -> (r: Vec<AlbumListItem>)
    ensures
        is_album_listing(
            r@,
            albums@,
            match media_albums {
                Some(ids) => Some(ids@),
                None => None,
            },
            alphabetically,
            id_sorted,
        ),
{
    let ghost filter: Option<Seq<u64>> = match media_albums {
        Some(ids) => Some(ids@),
        None => None,
    };
    let mut filtered: Vec<AlbumListItem> = Vec::new();
    let mut i: usize = 0;
    while i < albums.len()
        invariant
            i <= albums@.len(),
            filter == (match media_albums {
                Some(ids) => Some(ids@),
                None => None::<Seq<u64>>,
            }),
            filtered@ == album_filter_spec(albums@.take(i as int), filter),
        decreases albums.len() - i,
    {
        proof {
            reveal_with_fuel(Seq::<_>::filter, 1);
            assert(albums@.take(i + 1).drop_last() =~= albums@.take(i as int));
        }
        let keep = match media_albums {
            Some(ids) => ids_contain(ids, albums[i].id),
            None => true,
        };
        if keep {
            filtered.push(copy_album(&albums[i]));
        }
        proof {
            if filter is None {
                assert(filtered@ =~= albums@.take(i + 1));
            }
        }
        i = i + 1;
    }
    assert(albums@.take(albums@.len() as int) =~= albums@);
    let ghost f = filtered@;
    let mut keys: Vec<SortKey> = Vec::new();
    let mut j: usize = 0;
    while j < filtered.len()
        invariant
            j <= filtered@.len(),
            f == filtered@,
            keys@.len() == j,
            forall|q: int| 0 <= q < j ==> key_of(#[trigger] keys@[q]) == album_key(f[q], alphabetically, id_sorted),
        decreases filtered.len() - j,
    {
        keys.push(album_sort_key(&filtered[j], alphabetically, id_sorted));
        j = j + 1;
    }
    assert(keys_of(keys@) =~= album_keys(f, alphabetically, id_sorted));
    let perm = stable_sort_positions(&keys);
    let mut r: Vec<AlbumListItem> = Vec::new();
    let mut k: usize = 0;
    while k < perm.len()
        invariant
            k <= perm@.len(),
            f == filtered@,
            is_stable_order(album_keys(f, alphabetically, id_sorted), perm@),
            r@ == perm@.take(k as int).map_values(|p: usize| f[p as int]),
        decreases perm.len() - k,
    {
        let p = perm[k];
        r.push(copy_album(&filtered[p]));
        assert(perm@.take(k + 1).map_values(|p: usize| f[p as int]) =~= perm@.take(k as int).map_values(
            |p: usize| f[p as int],
        ).push(f[p as int]));
        k = k + 1;
    }
    assert(perm@.take(perm@.len() as int) =~= perm@);
    r
}


/// The album subcommands.
pub enum AlbumCommand {
    /// Lists albums.
    List { media: Option<String>, csv: bool, alphabetically: bool, id_sorted: bool },
    /// Prints an album.
    Get { album: String, extended: bool, csv: bool },
    /// Creates an album.
    Create { name: String },
    /// Renames an album.
    Rename { album: String, name: String },
    /// Deletes an album.
    Delete { album: String },
    /// Adds a media asset to an album.
    Add { album: String, media: String },
    /// Removes a media asset from an album.
    Remove { album: String, media: String },
    /// Moves a media asset within an album (positions start at 1).
    SetPosition { album: String, media: String, position: u32 },
}


// ---------------------------------------------------------------------------
// Messages
// ---------------------------------------------------------------------------

/// What happened to a media asset in an album.
#[derive(Clone, Copy, Debug, PartialEq, Eq, Structural)]
pub enum AlbumMediaOutcome {
    /// It was already inside (adding is refused).
    AlreadyInside,
    /// It was not inside (removing is refused).
    NotInside,
    /// It was added.
    Added,
    /// It was removed.
    Removed,
    /// It was put at the reported position.
    Inserted(u32),
}

/// The message reported about a media asset and an album.
pub open spec fn album_media_text(o: AlbumMediaOutcome, media_id: u64, album_id: u64, album_name: Seq<char>) -> Seq<char> {
    let m = "#"@ + nat_decimal(media_id as nat);
    let a = "#"@ + nat_decimal(album_id as nat) + ": "@ + album_name;
    match o {
        AlbumMediaOutcome::AlreadyInside => "Media asset "@ + m + " is already inside the album "@ + a,
        AlbumMediaOutcome::NotInside => "Media asset "@ + m + " is not inside the album "@ + a,
        AlbumMediaOutcome::Added => "Successfully added media asset "@ + m + " to album "@ + a,
        AlbumMediaOutcome::Removed => "Successfully removed media asset "@ + m + " from album "@ + a,
        AlbumMediaOutcome::Inserted(p) => "Successfully inserted media asset "@ + m + " into position "@
            + nat_decimal(p as nat) + " of album "@ + a,
    }
}

/// The message reported about a media asset and an album (see `album_media_text`).
pub fn album_media_message(o: AlbumMediaOutcome, media_id: u64, album_id: u64, album_name: &str) -> (r: String)
    ensures
        r@ == album_media_text(o, media_id, album_id, album_name@),
{
    let mut r = String::new();
    match o {
        AlbumMediaOutcome::AlreadyInside | AlbumMediaOutcome::NotInside => push_str(&mut r, "Media asset #"),
        AlbumMediaOutcome::Added => push_str(&mut r, "Successfully added media asset #"),
        AlbumMediaOutcome::Removed => push_str(&mut r, "Successfully removed media asset #"),
        AlbumMediaOutcome::Inserted(_) => push_str(&mut r, "Successfully inserted media asset #"),
    }
    push_u64_decimal(&mut r, media_id);
    match o {
        AlbumMediaOutcome::AlreadyInside => push_str(&mut r, " is already inside the album #"),
        AlbumMediaOutcome::NotInside => push_str(&mut r, " is not inside the album #"),
        AlbumMediaOutcome::Added => push_str(&mut r, " to album #"),
        AlbumMediaOutcome::Removed => push_str(&mut r, " from album #"),
        AlbumMediaOutcome::Inserted(p) => {
            push_str(&mut r, " into position ");
            push_u64_decimal(&mut r, p as u64);
            push_str(&mut r, " of album #");
        },
    }
    push_u64_decimal(&mut r, album_id);
    push_str(&mut r, ": ");
    push_str(&mut r, album_name);
    proof {
        reveal_strlit("#");
        reveal_strlit("Media asset #");
        reveal_strlit("Media asset ");
        reveal_strlit("Successfully added media asset #");
        reveal_strlit("Successfully added media asset ");
        reveal_strlit("Successfully removed media asset #");
        reveal_strlit("Successfully removed media asset ");
        reveal_strlit("Successfully inserted media asset #");
        reveal_strlit("Successfully inserted media asset ");
        reveal_strlit(" is already inside the album #");
        reveal_strlit(" is already inside the album ");
        reveal_strlit(" is not inside the album #");
        reveal_strlit(" is not inside the album ");
        reveal_strlit(" to album #");
        reveal_strlit(" to album ");
        reveal_strlit(" from album #");
        reveal_strlit(" from album ");
        reveal_strlit(" of album #");
        reveal_strlit(" of album ");
    }
    assert(r@ =~= album_media_text(o, media_id, album_id, album_name@));
    r
}

} // verus!
