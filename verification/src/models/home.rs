//! The vault's home page: groups of media assets and albums.
use vstd::prelude::*;

use crate::models::albums::AlbumListItem;
use crate::models::media::MediaListItem;
use crate::text::{
    ascii_upper, chars_of, is_ascii_digit, is_ascii_seq, is_white_space, join_seqs,
    lemma_nat_decimal, lemma_parse_u64_of_decimal, nat_decimal, parse_u64_range, parse_u64_spec,
    push_char, push_str, push_u64_decimal, range_pieces, split_char, split_ranges, str_equals,
    string_of_range, to_uppercase, trim_range, trim_seq, upper_of, has_no_char,
    lemma_split_append, lemma_split_no_sep, lemma_split_char_len, first_non_space_from,
    last_non_space_before,
};

verus! {

/// What a home page group shows.
#[derive(Clone, Copy, Debug, PartialEq, Eq, Structural)]
pub enum HomePageGroupType {
    Custom,
    RecentMedia,
    RecentAlbums,
}

impl HomePageGroupType {
    pub open spec fn label(self) -> Seq<char> {
        match self {
            HomePageGroupType::Custom => "CUSTOM"@,
            HomePageGroupType::RecentMedia => "RECENT_MEDIA"@,
            HomePageGroupType::RecentAlbums => "RECENT_ALBUMS"@,
        }
    }

    /// The group type named by an already uppercased word.
    pub open spec fn from_upper_spec(s: Seq<char>) -> Option<HomePageGroupType> {
        if s == "CUSTOM"@ {
            Some(HomePageGroupType::Custom)
        } else if s == "RECENT_MEDIA"@ {
            Some(HomePageGroupType::RecentMedia)
        } else if s == "RECENT_ALBUMS"@ {
            Some(HomePageGroupType::RecentAlbums)
        } else {
            None
        }
    }

    /// The name of the group type: `CUSTOM`, `RECENT_MEDIA` or `RECENT_ALBUMS`.
    pub fn as_string(&self) -> (r: String)
        ensures
            r@ == self.label(),
    {
        match self {
            HomePageGroupType::Custom => String::from_str("CUSTOM"),
            HomePageGroupType::RecentMedia => String::from_str("RECENT_MEDIA"),
            HomePageGroupType::RecentAlbums => String::from_str("RECENT_ALBUMS"),
        }
    }

    /// Reads a group type from its name, ignoring letter case.
    pub fn from_string(s: &str) -> (r: Option<HomePageGroupType>)
        ensures
            r == Self::from_upper_spec(upper_of(s@)),
    {
        let upper = to_uppercase(s);
        if str_equals(upper.as_str(), "CUSTOM") {
            Some(HomePageGroupType::Custom)
        } else if str_equals(upper.as_str(), "RECENT_MEDIA") {
            Some(HomePageGroupType::RecentMedia)
        } else if str_equals(upper.as_str(), "RECENT_ALBUMS") {
            Some(HomePageGroupType::RecentAlbums)
        } else {
            None
        }
    }
}

/// The name of a group type reads back, through `from_string`, as that type.
pub proof fn law_group_type_name_round_trip(t: HomePageGroupType)
    ensures
        HomePageGroupType::from_upper_spec(upper_of(t.label())) == Some(t),
{
    reveal_strlit("CUSTOM");
    reveal_strlit("RECENT_MEDIA");
    reveal_strlit("RECENT_ALBUMS");
    let n = t.label();
    assert(is_ascii_seq(n));
    assert(n.map_values(|c: char| ascii_upper(c)) =~= n);
    assert("RECENT_MEDIA"@.len() != "CUSTOM"@.len());
    assert("RECENT_ALBUMS"@.len() != "CUSTOM"@.len());
    assert("RECENT_ALBUMS"@.len() != "RECENT_MEDIA"@.len());
}

/// A group of the home page.
pub struct HomePageGroup {
    pub id: u64,
    pub group_type: HomePageGroupType,
    pub name: Option<String>,
    pub elements_count: Option<u32>,
}

/// Request to add a group to the home page.
pub struct HomePageAddGroupBody {
    pub name: Option<String>,
    pub group_type: HomePageGroupType,
    pub prepend: bool,
}

/// Kind of an element of a home page group.
#[derive(Clone, Copy, Debug, PartialEq, Eq, Structural)]
pub enum HomePageElementType {
    Media,
    Album,
}

impl HomePageElementType {
    pub open spec fn label(self) -> Seq<char> {
        match self {
            HomePageElementType::Media => "MEDIA"@,
            HomePageElementType::Album => "ALBUM"@,
        }
    }

    pub open spec fn prefix_char(self) -> char {
        match self {
            HomePageElementType::Media => 'M',
            HomePageElementType::Album => 'A',
        }
    }

    /// The element kind named by an already uppercased prefix.
    pub open spec fn from_upper_prefix_spec(s: Seq<char>) -> Option<HomePageElementType> {
        if s == seq!['M'] {
            Some(HomePageElementType::Media)
        } else if s == seq!['A'] {
            Some(HomePageElementType::Album)
        } else {
            None
        }
    }

    /// The name of the element kind: `MEDIA` or `ALBUM`.
    pub fn as_string(&self) -> (r: String)
        ensures
            r@ == self.label(),
    {
        match self {
            HomePageElementType::Media => String::from_str("MEDIA"),
            HomePageElementType::Album => String::from_str("ALBUM"),
        }
    }

    /// The one-letter prefix of the element kind: `M` or `A`.
    pub fn as_prefix(&self) -> (r: String)
        ensures
            r@ == seq![self.prefix_char()],
    {
        let mut r = String::new();
        match self {
            HomePageElementType::Media => push_char(&mut r, 'M'),
            HomePageElementType::Album => push_char(&mut r, 'A'),
        }
        r
    }

    /// Reads the one-letter prefix of an element kind, ignoring letter case.
    pub fn parse_prefix(prefix: &str) -> (r: Option<HomePageElementType>)
        ensures
            r == Self::from_upper_prefix_spec(upper_of(prefix@)),
    {
        let upper = to_uppercase(prefix);
        let v = chars_of(upper.as_str());
        if v.len() == 1 && v[0] == 'M' {
            assert(v@ =~= seq!['M']);
            Some(HomePageElementType::Media)
        } else if v.len() == 1 && v[0] == 'A' {
            assert(v@ =~= seq!['A']);
            Some(HomePageElementType::Album)
        } else {
            assert(v@ != seq!['M'] && v@ != seq!['A']);
            None
        }
    }
}

/// An element of a home page group: a media asset or an album.
pub struct HomePageElement {
    pub media: Option<MediaListItem>,
    pub album: Option<AlbumListItem>,
}

impl HomePageElement {
    /// Whether the element holds a media asset or an album.
    pub fn is_valid_element(&self) -> (r: bool)
        ensures
            r == (self.album is Some || self.media is Some),
    {
        self.album.is_some() || self.media.is_some()
    }

    /// The kind of the element: an album when it holds one, else a media asset.
    pub fn get_element_type(&self) -> (r: HomePageElementType)
        ensures
            r == (if self.album is Some {
                HomePageElementType::Album
            } else {
                HomePageElementType::Media
            }),
    {
        if self.album.is_some() {
            HomePageElementType::Album
        } else {
            HomePageElementType::Media
        }
    }

    /// The id of the album it holds, else of the media asset, else zero.
    pub fn get_element_id(&self) -> (r: u64)
        ensures
            r == (match self.album {
                Some(a) => a.id,
                None => match self.media {
                    Some(m) => m.id,
                    None => 0,
                },
            }),
    {
        if let Some(a) = &self.album {
            return a.id;
        }
        if let Some(m) = &self.media {
            return m.id;
        }
        0
    }

    /// The name of the album it holds, else the title of the media asset, else empty.
    pub fn get_element_title(&self) -> (r: String)
        ensures
            r@ == (match self.album {
                Some(a) => a.name@,
                None => match self.media {
                    Some(m) => m.title@,
                    None => Seq::<char>::empty(),
                },
            }),
    {
        if let Some(a) = &self.album {
            return a.name.clone();
        }
        if let Some(m) = &self.media {
            return m.title.clone();
        }
        String::new()
    }
}

/// A reference to a media asset or an album, as a home page group lists it.
#[derive(Clone, Copy, Debug, PartialEq, Eq, Structural)]
pub struct HomePageElementRef {
    pub element_type: HomePageElementType,
    pub id: u64,
}

/// Reads an element reference: a kind prefix (`M` or `A`, any case) followed by a
/// decimal id.
pub open spec fn element_ref_from_spec(s: Seq<char>) -> Option<HomePageElementRef> {
    if s.len() < 2 {
        None
    } else {
        match (
            HomePageElementType::from_upper_prefix_spec(upper_of(s.take(1))),
            parse_u64_spec(s.skip(1)),
        ) {
            (Some(t), Some(id)) => Some(HomePageElementRef { element_type: t, id }),
            _ => None,
        }
    }
}

/// The uppercased, trimmed pieces of a comma separated list.
pub open spec fn upper_list_items(list: Seq<char>) -> Seq<Seq<char>> {
    split_char(list, ',').map_values(|p: Seq<char>| upper_of(trim_seq(p)))
}

/// Whether reading an element reference from `u` is defined: it is empty, or its
/// first character is ASCII.
pub open spec fn starts_ascii(u: Seq<char>) -> bool {
    u.len() == 0 || (u[0] as u32) < 128
}

/// Reads the items of a list in order: the references, the index of the first item
/// that is no reference, or `None` when an item that is reached starts with a
/// character outside ASCII.
pub open spec fn element_refs_outcome(us: Seq<Seq<char>>) -> Option<Result<Seq<HomePageElementRef>, int>>
    decreases us.len(),
{
    if us.len() == 0 {
        Some(Ok(Seq::empty()))
    } else {
        match element_refs_outcome(us.drop_last()) {
            Some(Ok(rs)) => {
                let u = us.last();
                if !starts_ascii(u) {
                    None
                } else {
                    match element_ref_from_spec(u) {
                        Some(r) => Some(Ok(rs.push(r))),
                        None => Some(Err(us.len() - 1)),
                    }
                }
            },
            other => other,
        }
    }
}

/// Whether an executable outcome holds what a spec outcome says.
pub open spec fn outcome_matches(
    r: Option<Result<Vec<HomePageElementRef>, usize>>,
    o: Option<Result<Seq<HomePageElementRef>, int>>,
) -> bool {
    match (r, o) {
        (None, None) => true,
        (Some(Ok(v)), Some(Ok(s))) => v@ == s,
        (Some(Err(i)), Some(Err(k))) => i as int == k,
        _ => false,
    }
}

proof fn lemma_outcome_stops(us: Seq<Seq<char>>, k: int)
    requires
        0 <= k <= us.len(),
        !(element_refs_outcome(us.take(k)) is Some && element_refs_outcome(us.take(k))->0 is Ok),
    ensures
        element_refs_outcome(us) == element_refs_outcome(us.take(k)),
    decreases us.len() - k,
{
    if k == us.len() {
        assert(us.take(k) =~= us);
    } else {
        assert(us.take(k + 1).drop_last() =~= us.take(k));
        lemma_outcome_stops(us, k + 1);
    }
}

impl HomePageElementRef {
    /// The text form: the kind prefix followed by the decimal id.
    pub open spec fn text(self) -> Seq<char> {
        seq![self.element_type.prefix_char()] + nat_decimal(self.id as nat)
    }

    /// Writes the reference: its kind prefix followed by its id, e.g. `M12`.
    pub fn as_string(&self) -> (r: String)
        ensures
            r@ == self.text(),
    {
        let mut r = self.element_type.as_prefix();
        push_u64_decimal(&mut r, self.id);
        r
    }

    /// Writes references separated by `, `.
    pub fn as_list_string(element_refs: &[HomePageElementRef]) -> (r: String)
        ensures
            r@ == join_seqs(element_refs@.map_values(|x: HomePageElementRef| x.text()), ", "@),
    {
        let ghost texts = element_refs@.map_values(|x: HomePageElementRef| x.text());
        let mut r = String::new();
        let mut i: usize = 0;
        while i < element_refs.len()
            invariant
                i <= element_refs@.len(),
                texts == element_refs@.map_values(|x: HomePageElementRef| x.text()),
                r@ == join_seqs(texts.take(i as int), ", "@),
            decreases element_refs.len() - i,
        {
            if i > 0 {
                push_str(&mut r, ", ");
            }
            let s = element_refs[i].as_string();
            push_str(&mut r, s.as_str());
            assert(texts.take(i + 1).drop_last() =~= texts.take(i as int));
            assert(texts.take(i + 1).last() == element_refs@[i as int].text());
            if i == 0 {
                assert(r@ =~= join_seqs(texts.take(i + 1), ", "@));
            } else {
                assert(r@ =~= join_seqs(texts.take(i + 1), ", "@));
            }
            i = i + 1;
        }
        assert(texts.take(element_refs@.len() as int) =~= texts);
        r
    }

    /// Reads a reference written as a kind prefix (any case) and a decimal id.
    /// A text whose first character is outside ASCII is out of its domain: the
    /// prefix is the text's first byte.
    pub fn from_string(s: &str) -> (r: Option<HomePageElementRef>)
        requires
            starts_ascii(s@),
        ensures
            r == element_ref_from_spec(s@),
    {
        let v = chars_of(s);
        if v.len() < 2 {
            return None;
        }
        let prefix = string_of_range(&v, 0, 1);
        assert(v@.subrange(0, 1) =~= s@.take(1));
        let t = HomePageElementType::parse_prefix(prefix.as_str());
        let id = parse_u64_range(&v, 1, v.len());
        assert(v@.subrange(1, v@.len() as int) =~= s@.skip(1));
        match (t, id) {
            (Some(t), Some(id)) => Some(HomePageElementRef { element_type: t, id }),
            _ => None,
        }
    }

    /// Reads uppercased list items in order (see `element_refs_outcome`).
    pub fn parse_upper_items(us: &Vec<String>) -> (r: Option<Result<Vec<HomePageElementRef>, usize>>)
        ensures
            outcome_matches(r, element_refs_outcome(us@.map_values(|u: String| u@))),
    {
        let ghost views = us@.map_values(|u: String| u@);
        let mut res: Vec<HomePageElementRef> = Vec::new();
        let mut i: usize = 0;
        assert(views.take(0) =~= Seq::<Seq<char>>::empty());
        while i < us.len()
            invariant
                i <= us@.len(),
                views == us@.map_values(|u: String| u@),
                element_refs_outcome(views.take(i as int)) == Some(
                    Ok::<Seq<HomePageElementRef>, int>(res@),
                ),
            decreases us.len() - i,
        {
            assert(views.take(i + 1).drop_last() =~= views.take(i as int));
            assert(views.take(i + 1).last() == us@[i as int]@);
            let u = us[i].as_str();
            let uv = chars_of(u);
            if uv.len() > 0 && (uv[0] as u32) >= 128 {
                proof {
                    lemma_outcome_stops(views, i + 1);
                }
                return None;
            }
            match Self::from_string(u) {
                Some(e) => {
                    res.push(e);
                },
                None => {
                    proof {
                        lemma_outcome_stops(views, i + 1);
                    }
                    return Some(Err(i));
                },
            }
            i = i + 1;
        }
        assert(views.take(us@.len() as int) =~= views);
        Some(Ok(res))
    }

    /// The uppercased, trimmed items of a comma separated list.
    pub fn upper_items(list: &str) -> (r: Vec<String>)
        ensures
            r@.map_values(|u: String| u@) == upper_list_items(list@),
    {
        let v = chars_of(list);
        let ranges = split_ranges(&v, ',');
        let ghost pieces = split_char(list@, ',');
        let mut r: Vec<String> = Vec::new();
        let mut i: usize = 0;
        while i < ranges.len()
            invariant
                v@ == list@,
                range_pieces(v@, ranges@) == pieces,
                pieces == split_char(list@, ','),
                forall|k: int|
                    0 <= k < ranges@.len() ==> (#[trigger] ranges@[k]).0 <= ranges@[k].1 <= v@.len(),
                i <= ranges@.len(),
                r@.len() == i,
                forall|k: int|
                    0 <= k < i ==> (#[trigger] r@[k])@ == upper_of(trim_seq(pieces[k])),
            decreases ranges.len() - i,
        {
            let (a, b) = trim_range(&v, ranges[i].0, ranges[i].1);
            assert(pieces[i as int] == v@.subrange(ranges@[i as int].0 as int, ranges@[i as int].1 as int));
            let t = string_of_range(&v, a, b);
            let u = to_uppercase(t.as_str());
            r.push(u);
            i = i + 1;
        }
        assert(r@.map_values(|u: String| u@) =~= upper_list_items(list@));
        r
    }

    /// Reads a comma separated list of references; `Err` carries the index of the
    /// first item that is no reference. Items are trimmed and uppercased first. A list
    /// in which a reached item starts with a character outside ASCII is out of the
    /// domain.
    pub fn from_list_string(list: &str) -> (r: Result<Vec<HomePageElementRef>, usize>)
        requires
            element_refs_outcome(upper_list_items(list@)) is Some,
        ensures
            outcome_matches(Some(r), element_refs_outcome(upper_list_items(list@))),
    {
        let us = Self::upper_items(list);
        match Self::parse_upper_items(&us) {
            Some(r) => r,
            None => {
                assert(false);
                Err(0)
            },
        }
    }

    /// Reads a comma separated list of references as `from_list_string` does, or
    /// gives `None` where that list is outside its domain.
    pub fn try_from_list_string(list: &str) -> (r: Option<Result<Vec<HomePageElementRef>, usize>>)
        ensures
            outcome_matches(r, element_refs_outcome(upper_list_items(list@))),
    {
        let us = Self::upper_items(list);
        match Self::parse_upper_items(&us) {
            Some(_) => Some(Self::from_list_string(list)),
            None => None,
        }
    }

    /// The reference to what a home page element holds: its media asset, else its
    /// album, else nothing.
    pub fn from_home_page_element(element: &HomePageElement) -> (r: Option<HomePageElementRef>)
        ensures
            r == element_ref_of(*element),
    {
        match &element.media {
            Some(media) => Some(HomePageElementRef { element_type: HomePageElementType::Media, id: media.id }),
            None => match &element.album {
                Some(album) => Some(HomePageElementRef { element_type: HomePageElementType::Album, id: album.id }),
                None => None,
            },
        }
    }

    /// The references to what the elements hold, in order, skipping empty elements.
    pub fn from_home_page_elements(elements: &[HomePageElement]) -> (r: Vec<HomePageElementRef>)
        ensures
            r@ == element_refs_of(elements@),
    {
        let mut r: Vec<HomePageElementRef> = Vec::new();
        let mut i: usize = 0;
        while i < elements.len()
            invariant
                i <= elements@.len(),
                r@ == element_refs_of(elements@.take(i as int)),
            decreases elements.len() - i,
        {
            assert(elements@.take(i + 1).drop_last() =~= elements@.take(i as int));
            match Self::from_home_page_element(&elements[i]) {
                Some(e) => r.push(e),
                None => {},
            }
            i = i + 1;
        }
        assert(elements@.take(elements@.len() as int) =~= elements@);
        r
    }
}

/// The reference to what a home page element holds, preferring its media asset.
pub open spec fn element_ref_of(e: HomePageElement) -> Option<HomePageElementRef> {
    match e.media {
        Some(m) => Some(HomePageElementRef { element_type: HomePageElementType::Media, id: m.id }),
        None => match e.album {
            Some(a) => Some(HomePageElementRef { element_type: HomePageElementType::Album, id: a.id }),
            None => None,
        },
    }
}

/// The references to what the elements hold, in order, skipping empty elements.
pub open spec fn element_refs_of(es: Seq<HomePageElement>) -> Seq<HomePageElementRef>
    decreases es.len(),
{
    if es.len() == 0 {
        Seq::empty()
    } else {
        match element_ref_of(es.last()) {
            Some(r) => element_refs_of(es.drop_last()).push(r),
            None => element_refs_of(es.drop_last()),
        }
    }
}

/// Request to set the elements of a home page group.
pub struct HomePageGroupSetElementsBody {
    pub elements: Vec<HomePageElementRef>,
}

/// Request to rename a home page group.
pub struct HomePageGroupRenameBody {
    pub name: Option<String>,
}

/// Request to move a home page group.
pub struct HomePageGroupMoveBody {
    pub position: u32,
}

/// The text forms of a list of references.
pub open spec fn ref_texts(refs: Seq<HomePageElementRef>) -> Seq<Seq<char>> {
    refs.map_values(|x: HomePageElementRef| x.text())
}

proof fn lemma_ref_text_facts(r: HomePageElementRef)
    ensures
        r.text().len() >= 2,
        is_ascii_seq(r.text()),
        has_no_char(r.text(), ','),
        upper_of(r.text()) == r.text(),
        trim_seq(r.text()) == r.text(),
        trim_seq(seq![' '] + r.text()) == r.text(),
        starts_ascii(r.text()),
{
    let t = r.text();
    let d = nat_decimal(r.id as nat);
    lemma_nat_decimal(r.id as nat);
    assert forall|i: int| 0 <= i < t.len() implies (#[trigger] t[i] as u32) < 128 && t[i] != ','
        && !is_white_space(t[i]) && ascii_upper(t[i]) == t[i] by {
        if i > 0 {
            assert(t[i] == d[i - 1]);
            assert(is_ascii_digit(d[i - 1]));
        }
    }
    assert(t.map_values(|c: char| ascii_upper(c)) =~= t);
    // trimming
    assert(first_non_space_from(t, 0) == 0);
    assert(last_non_space_before(t, t.len() as int) == t.len());
    assert(t.subrange(0, t.len() as int) =~= t);
    let st = seq![' '] + t;
    assert(st[0] == ' ');
    assert(is_white_space(' '));
    assert(st[1] == t[0]);
    assert(first_non_space_from(st, 1) == 1);
    assert(first_non_space_from(st, 0) == 1);
    assert(st[st.len() - 1] == t[t.len() - 1]);
    assert(last_non_space_before(st, st.len() as int) == st.len());
    assert(st.subrange(1, st.len() as int) =~= t);
}

/// The pieces of a list joined with `, `, split again at `,`: the first piece, then
/// each other piece after one space.
pub open spec fn space_prefixed(xs: Seq<Seq<char>>) -> Seq<Seq<char>> {
    Seq::new(xs.len(), |k: int| if k == 0 { xs[0] } else { seq![' '] + xs[k] })
}

proof fn lemma_split_join(xs: Seq<Seq<char>>)
    requires
        xs.len() > 0,
        forall|k: int| 0 <= k < xs.len() ==> has_no_char(#[trigger] xs[k], ','),
    ensures
        split_char(join_seqs(xs, ", "@), ',') == space_prefixed(xs),
    decreases xs.len(),
{
    reveal_strlit(", ");
    if xs.len() == 1 {
        lemma_split_no_sep(xs[0], ',');
        assert(space_prefixed(xs) =~= seq![xs[0]]);
    } else {
        let xs0 = xs.drop_last();
        assert forall|k: int| 0 <= k < xs0.len() implies has_no_char(#[trigger] xs0[k], ',') by {
            assert(xs0[k] == xs[k]);
        }
        lemma_split_join(xs0);
        let j0 = join_seqs(xs0, ", "@);
        let x = xs.last();
        let t = seq![' '] + x;
        assert(has_no_char(t, ',')) by {
            assert forall|i: int| 0 <= i < t.len() implies #[trigger] t[i] != ',' by {
                if i > 0 {
                    assert(t[i] == x[i - 1]);
                }
            }
        }
        let jc = j0.push(',');
        assert(jc.drop_last() =~= j0);
        lemma_split_char_len(j0, ',');
        assert(split_char(jc, ',') == split_char(j0, ',').push(Seq::<char>::empty()));
        lemma_split_append(jc, t, ',');
        assert(join_seqs(xs, ", "@) =~= jc + t);
        assert(Seq::<char>::empty() + t =~= t);
        assert(split_char(jc + t, ',') =~= split_char(j0, ',').push(t));
        assert(space_prefixed(xs) =~= space_prefixed(xs0).push(t));
    }
}

proof fn lemma_outcome_of_texts(refs: Seq<HomePageElementRef>, i: int)
    requires
        0 <= i <= refs.len(),
    ensures
        element_refs_outcome(ref_texts(refs).take(i)) == Some(
            Ok::<Seq<HomePageElementRef>, int>(refs.take(i)),
        ),
    decreases i,
{
    let xs = ref_texts(refs);
    if i == 0 {
        assert(xs.take(0) =~= Seq::<Seq<char>>::empty());
        assert(refs.take(0) =~= Seq::<HomePageElementRef>::empty());
    } else {
        lemma_outcome_of_texts(refs, i - 1);
        assert(xs.take(i).drop_last() =~= xs.take(i - 1));
        assert(xs.take(i).last() == refs[i - 1].text());
        law_element_ref_text_round_trip(refs[i - 1]);
        assert(refs.take(i) =~= refs.take(i - 1).push(refs[i - 1]));
    }
}

/// A reference's text reads back as that reference.
pub proof fn law_element_ref_text_round_trip(r: HomePageElementRef)
    ensures
        starts_ascii(r.text()),
        element_ref_from_spec(r.text()) == Some(r),
{
    lemma_ref_text_facts(r);
    let t = r.text();
    assert(t.take(1) =~= seq![r.element_type.prefix_char()]);
    assert(is_ascii_seq(t.take(1)));
    assert(t.take(1).map_values(|c: char| ascii_upper(c)) =~= t.take(1));
    assert(t.skip(1) =~= nat_decimal(r.id as nat));
    lemma_parse_u64_of_decimal(r.id);
}

/// Writing a non-empty list of references with `as_list_string` and reading it back
/// with `from_list_string` gives the same references.
pub proof fn law_element_ref_list_round_trip(refs: Seq<HomePageElementRef>)
    requires
        refs.len() > 0,
    ensures
        element_refs_outcome(upper_list_items(join_seqs(ref_texts(refs), ", "@))) == Some(
            Ok::<Seq<HomePageElementRef>, int>(refs),
        ),
{
    let xs = ref_texts(refs);
    assert forall|k: int| 0 <= k < xs.len() implies has_no_char(#[trigger] xs[k], ',') by {
        lemma_ref_text_facts(refs[k]);
    }
    lemma_split_join(xs);
    let us = upper_list_items(join_seqs(xs, ", "@));
    assert forall|k: int| 0 <= k < us.len() implies #[trigger] us[k] == xs[k] by {
        lemma_ref_text_facts(refs[k]);
    }
    assert(us =~= xs);
    lemma_outcome_of_texts(refs, refs.len() as int);
    assert(xs.take(xs.len() as int) =~= xs);
    assert(refs.take(refs.len() as int) =~= refs);
}

} // verus!
