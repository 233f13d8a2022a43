//! Advanced search: which media assets match the filters, and when the search
//! through the vault's pages stops.
use vstd::prelude::*;

use crate::models::media::{MediaListItem, MediaType};
use crate::text::{seq_contains, str_contains};

verus! {

broadcast use vstd::seq_lib::group_seq_properties;

/// How the tags of a media asset are compared with the tags asked for.
#[derive(Clone, Copy, Debug, PartialEq, Eq, Structural)]
pub enum TagSearchMode {
    /// The asset has every tag asked for.
    All,
    /// The asset has at least one tag asked for.
    Any,
    /// The asset has none of the tags asked for.
    NoneOf,
    /// The asset has no tags at all.
    Untagged,
}

/// Every id of `f` is among `tags`.
pub open spec fn has_all_tags(tags: Seq<u64>, f: Seq<u64>) -> bool {
    forall|i: int| 0 <= i < f.len() ==> tags.contains(#[trigger] f[i])
}

/// Some id of `f` is among `tags`.
pub open spec fn has_any_tag(tags: Seq<u64>, f: Seq<u64>) -> bool {
    exists|i: int| 0 <= i < f.len() && tags.contains(#[trigger] f[i])
}

/// No id of `tags` is among `f`.
pub open spec fn has_no_tag_of(tags: Seq<u64>, f: Seq<u64>) -> bool {
    forall|j: int| 0 <= j < tags.len() ==> !f.contains(#[trigger] tags[j])
}

/// Whether the tags of a media asset pass the tag filter.
pub open spec fn tags_filter_holds(tags: Seq<u64>, filter: Option<Seq<u64>>, mode: TagSearchMode) -> bool {
    match mode {
        TagSearchMode::All => match filter {
            Some(f) => has_all_tags(tags, f),
            Option::None => true,
        },
        TagSearchMode::Any => match filter {
            Some(f) => has_any_tag(tags, f),
            Option::None => true,
        },
        TagSearchMode::NoneOf => match filter {
            Some(f) => has_no_tag_of(tags, f),
            Option::None => true,
        },
        TagSearchMode::Untagged => tags.len() == 0,
    }
}

/// Whether a media asset passes every filter: its title and description hold the
/// texts asked for (an empty text asks for nothing), it has the kind asked for, and
/// its tags pass the tag filter.
pub open spec fn media_matches_spec(
    m: MediaListItem,
    title: Seq<char>,
    description: Seq<char>,
    media_type: Option<MediaType>,
    tags: Option<Seq<u64>>,
    mode: TagSearchMode,
) -> bool {
    &&& (title.len() == 0 || seq_contains(m.title@, title))
    &&& (description.len() == 0 || seq_contains(m.description@, description))
    &&& (match media_type {
        Some(t) => t == m.media_type,
        Option::None => true,
    })
    &&& tags_filter_holds(m.tags@, tags, mode)
}

/// The ids of an optional list.
pub open spec fn opt_ids(o: Option<Vec<u64>>) -> Option<Seq<u64>> {
    match o {
        Some(f) => Some(f@),
        Option::None => Option::None,
    }
}

/// Whether a list of ids holds an id.
fn holds_id(ids: &Vec<u64>, x: u64) -> (r: bool)
    ensures
        r == ids@.contains(x),
{
    let mut i: usize = 0;
    while i < ids.len()
        invariant
            i <= ids@.len(),
            forall|j: int| 0 <= j < i ==> ids@[j] != x,
        decreases ids.len() - i,
    {
        if ids[i] == x {
            assert(ids@[i as int] == x);
            return true;
        }
        i = i + 1;
    }
    false
}

/// Whether the tags of a media asset pass the tag filter (see `tags_filter_holds`).
fn tags_pass(tags: &Vec<u64>, filter: &Option<Vec<u64>>, mode: &TagSearchMode) -> (r: bool)
    ensures
        r == tags_filter_holds(tags@, opt_ids(*filter), *mode),
{
    match mode {
        TagSearchMode::All => match filter {
            Some(f) => {
                let mut i: usize = 0;
                while i < f.len()
                    invariant
                        i <= f@.len(),
                        *mode == TagSearchMode::All,
                        opt_ids(*filter) == Some(f@),
                        forall|k: int| 0 <= k < i ==> tags@.contains(#[trigger] f@[k]),
                    decreases f.len() - i,
                {
                    if !holds_id(tags, f[i]) {
                        assert(!tags@.contains(f@[i as int]));
                        assert(!has_all_tags(tags@, f@));
                        return false;
                    }
                    i = i + 1;
                }
                true
            },
            Option::None => true,
        },
        TagSearchMode::Any => match filter {
            Some(f) => {
                let mut i: usize = 0;
                while i < f.len()
                    invariant
                        i <= f@.len(),
                        *mode == TagSearchMode::Any,
                        opt_ids(*filter) == Some(f@),
                        forall|k: int| 0 <= k < i ==> !tags@.contains(#[trigger] f@[k]),
                    decreases f.len() - i,
                {
                    if holds_id(tags, f[i]) {
                        assert(tags@.contains(f@[i as int]));
                        assert(has_any_tag(tags@, f@));
                        return true;
                    }
                    i = i + 1;
                }
                false
            },
            Option::None => true,
        },
        TagSearchMode::NoneOf => match filter {
            Some(f) => {
                let mut j: usize = 0;
                while j < tags.len()
                    invariant
                        j <= tags@.len(),
                        *mode == TagSearchMode::NoneOf,
                        opt_ids(*filter) == Some(f@),
                        forall|k: int| 0 <= k < j ==> !f@.contains(#[trigger] tags@[k]),
                    decreases tags.len() - j,
                {
                    if holds_id(f, tags[j]) {
                        assert(f@.contains(tags@[j as int]));
                        assert(!has_no_tag_of(tags@, f@));
                        return false;
                    }
                    j = j + 1;
                }
                true
            },
            Option::None => true,
        },
        TagSearchMode::Untagged => tags.len() == 0,
    }
}

/// Whether a media asset passes the search filters (see `media_matches_spec`).
pub fn media_matches_filter(
    media: &MediaListItem,
    title: &str,
    description: &str,
    media_type_filter: &Option<MediaType>,
    tags_filter: &Option<Vec<u64>>,
    tags_filter_mode: &TagSearchMode,
) -> (r: bool)
    ensures
        r == media_matches_spec(
            *media,
            title@,
            description@,
            *media_type_filter,
            opt_ids(*tags_filter),
            *tags_filter_mode,
        ),
{
    if title.unicode_len() > 0 && !str_contains(media.title.as_str(), title) {
        return false;
    }
    if description.unicode_len() > 0 && !str_contains(media.description.as_str(), description) {
        return false;
    }
    if let Some(t) = media_type_filter {
        if *t != media.media_type {
            return false;
        }
    }
    tags_pass(&media.tags, tags_filter, tags_filter_mode)
}


// ---------------------------------------------------------------------------
// Filters and result collection
// ---------------------------------------------------------------------------

/// The filters of an advanced search.
pub struct MediaFilter {
    pub title: String,
    pub description: String,
    pub media_type: Option<MediaType>,
    pub tags: Option<Vec<u64>>,
    pub tags_mode: TagSearchMode,
}

impl MediaFilter {
    /// Whether a media asset passes the filters.
    pub open spec fn accepts(&self, m: MediaListItem) -> bool {
        media_matches_spec(m, self.title@, self.description@, self.media_type, opt_ids(self.tags), self.tags_mode)
    }

    /// Whether a media asset passes the filters.
    pub fn matches(&self, m: &MediaListItem) -> (r: bool)
        ensures
            r == self.accepts(*m),
    {
        media_matches_filter(m, self.title.as_str(), self.description.as_str(), &self.media_type, &self.tags, &self.tags_mode)
    }
}

/// The filters as a predicate.
pub open spec fn accepts_fn(f: MediaFilter) -> spec_fn(MediaListItem) -> bool {
    |m: MediaListItem| f.accepts(m)
}

/// How many more matches a search with `have` results and limit `limit` takes before
/// it stops: it stops once it holds `limit` results, and takes at least one match.
pub open spec fn take_count(have: int, limit: int) -> int {
    if limit - have > 1 {
        limit - have
    } else {
        1
    }
}

/// The first `k` items of `m`, or all of them when there are fewer.
pub open spec fn first_n(m: Seq<MediaListItem>, k: int) -> Seq<MediaListItem> {
    if m.len() < k {
        m
    } else {
        m.take(k)
    }
}

/// The items of a list in the opposite order.
pub(crate) fn reversed_items(v: Vec<MediaListItem>) -> (r: Vec<MediaListItem>)
    ensures
        r@ == v@.reverse(),
{
    let ghost v0 = v@;
    let n = v.len();
    let mut v = v;
    let mut r: Vec<MediaListItem> = Vec::new();
    while v.len() > 0
        invariant
            n == v0.len(),
            v@.len() <= n,
            v@ == v0.take(v@.len() as int),
            r@.len() == n - v@.len(),
            forall|j: int| 0 <= j < r@.len() ==> r@[j] == v0[n - 1 - j],
        decreases v.len(),
    {
        let ghost before = v@;
        match v.pop() {
            Some(item) => {
                assert(item == v0[before.len() - 1]);
                r.push(item);
                assert(v@ =~= v0.take(v@.len() as int));
            },
            Option::None => {},
        }
    }
    assert(r@ =~= v0.reverse());
    r
}

/// Adds to `results`, in the order `stack@.reverse()` (the order in which the stack
/// is popped), the items that pass the filters, stopping once `results` holds `limit`
/// items; tells whether it stopped there.
fn append_matches(results: &mut Vec<MediaListItem>, stack: Vec<MediaListItem>, limit: u32, f: &MediaFilter) -> (reached: bool)
    requires
        old(results)@.len() <= limit,
        old(results)@.len() < u32::MAX,
    ensures
        ({
            let m = stack@.reverse().filter(accepts_fn(*f));
            let k = take_count(old(results)@.len() as int, limit as int);
            &&& final(results)@ == old(results)@ + first_n(m, k)
            &&& reached == (m.len() >= k)
        }),
{
    let ghost r0 = results@;
    let ghost order = stack@.reverse();
    let ghost p = accepts_fn(*f);
    let ghost k = take_count(r0.len() as int, limit as int);
    let n = stack.len();
    let mut st = stack;
    let mut i: usize = 0;
    let mut reached = false;
    assert(order.take(0) =~= Seq::<MediaListItem>::empty());
    assert(results@ =~= r0 + order.take(0).filter(p));
    while i < n && !reached
        invariant
            n == order.len(),
            order == stack@.reverse(),
            p == accepts_fn(*f),
            k == take_count(r0.len() as int, limit as int),
            r0.len() <= limit,
            r0.len() < u32::MAX,
            i <= n,
            st@ == stack@.take(n - i),
            !reached ==> results@ == r0 + order.take(i as int).filter(p),
            !reached ==> order.take(i as int).filter(p).len() < k,
            reached ==> results@ == r0 + first_n(order.filter(p), k) && order.filter(p).len() >= k,
        decreases n - i,
    {
        proof {
            reveal_with_fuel(Seq::<_>::filter, 1);
            assert(order.take(i + 1).drop_last() =~= order.take(i as int));
            assert(order.take(i + 1).last() == order[i as int]);
        }
        match st.pop() {
            Some(item) => {
                assert(item == order[i as int]);
                assert(st@ =~= stack@.take(n - (i + 1)));
                if f.matches(&item) {
                    results.push(item);
                    proof {
                        assert(p(order[i as int]));
                        assert(order.take(i + 1).filter(p) =~= order.take(i as int).filter(p).push(order[i as int]));
                        assert(results@ =~= r0 + order.take(i + 1).filter(p));
                    }
                    if results.len() >= limit as usize {
                        proof {
                            let t = order.take(i + 1);
                            let u = order.skip(i + 1);
                            assert(order =~= t + u);
                            Seq::filter_distributes_over_add(t, u, p);
                            assert(t.filter(p).len() == k);
                            assert(order.filter(p).take(k) =~= t.filter(p));
                            assert(order.filter(p).len() >= k);
                            assert(first_n(order.filter(p), k) == t.filter(p));
                        }
                        reached = true;
                    }
                }
            },
            Option::None => {},
        }
        i = i + 1;
    }
    if !reached {
        assert(order.take(n as int) =~= order);
    }
    reached
}

/// The media assets of an album that a search returns: the album's list, or its
/// reverse, filtered, cut after `limit` matches (at least one).
pub fn collect_album_matches(list: Vec<MediaListItem>, reverse: bool, limit: u32, f: &MediaFilter) -> (r: Vec<MediaListItem>)
    ensures
        r@ == first_n(
            (if reverse { list@.reverse() } else { list@ }).filter(accepts_fn(*f)),
            take_count(0, limit as int),
        ),
{
    let ghost l0 = list@;
    let stack = if reverse {
        list
    } else {
        let s = reversed_items(list);
        assert(s@.reverse() =~= l0);
        s
    };
    let mut results: Vec<MediaListItem> = Vec::new();
    append_matches(&mut results, stack, limit, f);
    assert(results@ =~= Seq::<MediaListItem>::empty() + results@);
    results
}

/// The progress of an advanced search through the vault's result pages: the results
/// gathered, whether the search is over, and where the next page starts.
pub struct AdvancedSearch {
    results: Vec<MediaListItem>,
    finished: bool,
    continue_ref: Option<u64>,
    limit: u32,
}

impl AdvancedSearch {
    pub closed spec fn results_view(&self) -> Seq<MediaListItem> {
        self.results@
    }

    pub closed spec fn is_finished(&self) -> bool {
        self.finished
    }

    pub closed spec fn next_ref(&self) -> Option<u64> {
        self.continue_ref
    }

    pub closed spec fn limit_of(&self) -> u32 {
        self.limit
    }

    /// The search never holds more results than its limit.
    pub closed spec fn wf(&self) -> bool {
        self.results@.len() <= self.limit
    }

    /// A search that has gathered nothing and starts at `start_from` (the first page
    /// when absent).
    pub fn new(start_from: Option<u64>, limit: u32) -> (s: AdvancedSearch)
        ensures
            s.wf(),
            s.results_view() == Seq::<MediaListItem>::empty(),
            !s.is_finished(),
            s.next_ref() == start_from,
            s.limit_of() == limit,
    {
        AdvancedSearch { results: Vec::new(), finished: false, continue_ref: start_from, limit }
    }

    /// The page to ask for next: `None` once the search is over or holds `limit`
    /// results, else the reference the page starts at.
    pub fn next_request(&self) -> (r: Option<Option<u64>>)
        requires
            self.wf(),
        ensures
            r == (if self.is_finished() || self.results_view().len() >= self.limit_of() {
                Option::<Option<u64>>::None
            } else {
                Some(self.next_ref())
            }),
    {
        if self.finished || self.results.len() >= self.limit as usize {
            Option::None
        } else {
            Some(self.continue_ref)
        }
    }

    /// Takes in a page of results: adds the items that pass the filters, in order,
    /// until the search holds `limit` results; the search is over when that happened
    /// or when the vault has scanned all its media assets; the next page starts at
    /// `continue_ref`.
    pub fn accept_page(&mut self, page_items: Vec<MediaListItem>, scanned: u64, total_count: u64, continue_ref: u64, f: &MediaFilter)
        requires
            old(self).wf(),
            old(self).results_view().len() < old(self).limit_of(),
        ensures
            final(self).wf(),
            final(self).limit_of() == old(self).limit_of(),
            ({
                let m = page_items@.filter(accepts_fn(*f));
                let k = old(self).limit_of() - old(self).results_view().len();
                &&& final(self).results_view() == old(self).results_view() + first_n(m, k)
                &&& final(self).is_finished() == (m.len() >= k || scanned >= total_count)
            }),
            final(self).next_ref() == Some(continue_ref),
    {
        let ghost p0 = page_items@;
        let stack = reversed_items(page_items);
        assert(stack@.reverse() =~= p0);
        let reached = append_matches(&mut self.results, stack, self.limit, f);
        self.finished = reached || scanned >= total_count;
        self.continue_ref = Some(continue_ref);
    }

    /// The results gathered.
    pub fn into_results(self) -> (r: Vec<MediaListItem>)
        ensures
            r@ == self.results_view(),
    {
        self.results
    }
}

// ---------------------------------------------------------------------------
// Tag parameters sent to the vault
// ---------------------------------------------------------------------------

/// The tag mode sent to the vault: `allof`, `anyof` or `noneof`. An `Any` search with
/// more tags than the vault takes in one request (`max_tags`) asks for `allof`, as an
/// untagged search does.
pub open spec fn tag_mode_api_text(mode: TagSearchMode, tags_count: int, max_tags: int) -> Seq<char> {
    match mode {
        TagSearchMode::All => "allof"@,
        TagSearchMode::Any => if tags_count > max_tags { "allof"@ } else { "anyof"@ },
        TagSearchMode::NoneOf => "noneof"@,
        TagSearchMode::Untagged => "allof"@,
    }
}

/// The tag mode sent to the vault (see `tag_mode_api_text`).
pub fn tag_mode_api_param(mode: TagSearchMode, tags_count: usize, max_tags: usize) -> (r: String)
    ensures
        r@ == tag_mode_api_text(mode, tags_count as int, max_tags as int),
{
    match mode {
        TagSearchMode::All => String::from_str("allof"),
        TagSearchMode::Any => if tags_count > max_tags {
            String::from_str("allof")
        } else {
            String::from_str("anyof")
        },
        TagSearchMode::NoneOf => String::from_str("noneof"),
        TagSearchMode::Untagged => String::from_str("allof"),
    }
}

/// Whether the tag names go to the vault with the request: not for an untagged
/// search, nor for an `Any` search with more tags than one request takes; then the
/// tags are checked here, item by item.
pub fn send_tag_names(mode: TagSearchMode, tags_count: usize, max_tags: usize) -> (r: bool)
    ensures
        r == !(mode == TagSearchMode::Untagged || (mode == TagSearchMode::Any && tags_count > max_tags)),
{
    match mode {
        TagSearchMode::All => true,
        TagSearchMode::Any => tags_count <= max_tags,
        TagSearchMode::NoneOf => true,
        TagSearchMode::Untagged => false,
    }
}


/// An advanced search never holds more results than its limit.
pub proof fn law_search_stays_within_limit(s: &AdvancedSearch)
    requires
        s.wf(),
    ensures
        s.results_view().len() <= s.limit_of(),
{
}

/// The description filter reads the description and nothing else: with no title, type
/// or tag filter, a media asset passes exactly when the description text occurs in its
/// description (an empty text lets every media asset pass), whatever its title.
pub proof fn law_description_filter_reads_the_description(m: MediaListItem, description: Seq<char>)
    ensures
        media_matches_spec(m, Seq::<char>::empty(), description, None, None, TagSearchMode::All) <==> (
        description.len() == 0 || exists|i: int|
            0 <= i && i + description.len() <= m.description@.len() && #[trigger] m.description@.subrange(
                i,
                i + description.len(),
            ) == description),
{
    lemma_contains_iff(m.description@, description);
}

/// Text containment, written out: `s` occurs at some position of `t`.
proof fn lemma_contains_iff(t: Seq<char>, s: Seq<char>)
    ensures
        seq_contains(t, s) <==> exists|i: int|
            0 <= i && i + s.len() <= t.len() && #[trigger] t.subrange(i, i + s.len()) == s,
{
    if seq_contains(t, s) {
        let i = choose|i: int| crate::text::seq_contains_at(t, s, i);
        assert(0 <= i && i + s.len() <= t.len() && t.subrange(i, i + s.len()) == s);
    }
    if exists|i: int| 0 <= i && i + s.len() <= t.len() && #[trigger] t.subrange(i, i + s.len()) == s {
        let i = choose|i: int| 0 <= i && i + s.len() <= t.len() && #[trigger] t.subrange(i, i + s.len()) == s;
        assert(crate::text::seq_contains_at(t, s, i));
    }
}

/// The title filter reads the title and nothing else: with no description, type or
/// tag filter, a media asset passes exactly when the title text occurs in its title
/// (an empty text lets every media asset pass), whatever its description.
pub proof fn law_title_filter_reads_the_title(m: MediaListItem, title: Seq<char>)
    ensures
        media_matches_spec(m, title, Seq::<char>::empty(), None, None, TagSearchMode::All) <==> (title.len()
            == 0 || exists|i: int|
            0 <= i && i + title.len() <= m.title@.len() && #[trigger] m.title@.subrange(i, i + title.len())
                == title),
{
    lemma_contains_iff(m.title@, title);
}

/// Every filter given must hold: a media asset that passes holds the title text in
/// its title, the description text in its description, and is of the type asked for.
pub proof fn law_passing_media_meets_each_filter(
    m: MediaListItem,
    title: Seq<char>,
    description: Seq<char>,
    media_type: Option<MediaType>,
    tags: Option<Seq<u64>>,
    mode: TagSearchMode,
)
    requires
        media_matches_spec(m, title, description, media_type, tags, mode),
    ensures
        title.len() > 0 ==> exists|i: int|
            0 <= i && i + title.len() <= m.title@.len() && #[trigger] m.title@.subrange(i, i + title.len())
                == title,
        description.len() > 0 ==> exists|i: int|
            0 <= i && i + description.len() <= m.description@.len() && #[trigger] m.description@.subrange(
                i,
                i + description.len(),
            ) == description,
        media_type matches Some(t) ==> m.media_type == t,
{
    lemma_contains_iff(m.title@, title);
    lemma_contains_iff(m.description@, description);
}

/// The type and tag filters, each alone: a media asset passes the type filter exactly
/// when it is of that type; with tags `f`, mode `All` asks for every tag of `f`, `Any`
/// for at least one, `NoneOf` for none of them, and `Untagged` for a media asset
/// without tags, whatever `f` is.
pub proof fn law_type_and_tag_filters(m: MediaListItem, t: MediaType, f: Seq<u64>, g: Option<Seq<u64>>)
    ensures
        media_matches_spec(m, Seq::<char>::empty(), Seq::<char>::empty(), Some(t), None, TagSearchMode::All)
            <==> m.media_type == t,
        media_matches_spec(m, Seq::<char>::empty(), Seq::<char>::empty(), None, Some(f), TagSearchMode::All)
            <==> (forall|x: u64| f.contains(x) ==> m.tags@.contains(x)),
        media_matches_spec(m, Seq::<char>::empty(), Seq::<char>::empty(), None, Some(f), TagSearchMode::Any)
            <==> (exists|x: u64| f.contains(x) && m.tags@.contains(x)),
        media_matches_spec(m, Seq::<char>::empty(), Seq::<char>::empty(), None, Some(f), TagSearchMode::NoneOf)
            <==> !(exists|x: u64| f.contains(x) && m.tags@.contains(x)),
        media_matches_spec(m, Seq::<char>::empty(), Seq::<char>::empty(), None, g, TagSearchMode::Untagged)
            <==> m.tags@.len() == 0,
{
    let tags = m.tags@;
    if forall|x: u64| f.contains(x) ==> tags.contains(x) {
        assert forall|i: int| 0 <= i < f.len() implies tags.contains(#[trigger] f[i]) by {
            assert(f.contains(f[i]));
        }
    }
    if has_all_tags(tags, f) {
        assert forall|x: u64| f.contains(x) implies tags.contains(x) by {
            let i = choose|i: int| 0 <= i < f.len() && f[i] == x;
            assert(tags.contains(f[i]));
        }
    }
    if exists|x: u64| f.contains(x) && tags.contains(x) {
        let x = choose|x: u64| f.contains(x) && tags.contains(x);
        let i = choose|i: int| 0 <= i < f.len() && f[i] == x;
        assert(tags.contains(f[i]));
        let j = choose|j: int| 0 <= j < tags.len() && tags[j] == x;
        assert(f.contains(tags[j]));
    }
    if has_any_tag(tags, f) {
        let i = choose|i: int| 0 <= i < f.len() && tags.contains(#[trigger] f[i]);
        assert(f.contains(f[i]));
    }
    if !has_no_tag_of(tags, f) {
        let j = choose|j: int| 0 <= j < tags.len() && f.contains(#[trigger] tags[j]);
        assert(tags.contains(tags[j]));
    }
}

} // verus!
