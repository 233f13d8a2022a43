//! Batch operations: which filters a batch accepts, and which media assets it applies
//! to.
use vstd::prelude::*;

use crate::commands::search_advanced::{accepts_fn, reversed_items, MediaFilter, TagSearchMode};
use crate::models::media::{MediaListItem, MediaType};

verus! {

broadcast use vstd::seq_lib::group_seq_properties;

/// The operation a batch applies to each media asset it selects.
pub enum BatchCommand {
    /// Adds tags (names separated by spaces).
    AddTags { tags: String },
    /// Removes tags (names separated by spaces).
    RemoveTags { tags: String },
    /// Adds the media assets to an album.
    AddToAlbum { album: String },
    /// Removes the media assets from an album, where they are in it.
    RemoveFromAlbum { album: String },
    /// Deletes the media assets.
    Delete,
}

/// Why a batch refuses its filters.
#[derive(Clone, Copy, Debug, PartialEq, Eq, Structural)]
pub enum BatchFilterError {
    /// `--everything` was given together with a filter.
    EverythingWithFilter,
    /// No filter was given, and no `--everything`.
    NoFilter,
}

impl BatchFilterError {
    /// The message reported for the error.
    pub open spec fn text(self) -> Seq<char> {
        match self {
            BatchFilterError::EverythingWithFilter => "Error: The --everything option is incompatible with any other filter."@,
            BatchFilterError::NoFilter => "Error: You must specify at least one filter. Use the --everything option if you want to apply the operation to the entire vault."@,
        }
    }

    /// The message reported for the error.
    pub fn message(&self) -> (r: String)
        ensures
            r@ == self.text(),
    {
        match self {
            BatchFilterError::EverythingWithFilter => String::from_str(
                "Error: The --everything option is incompatible with any other filter.",
            ),
            BatchFilterError::NoFilter => String::from_str(
                "Error: You must specify at least one filter. Use the --everything option if you want to apply the operation to the entire vault.",
            ),
        }
    }
}

/// Whether any filter is given: a tag mode other than `All`, tag names to send, a
/// media type, a description or title text, or an album.
pub open spec fn has_any_filter(
    tags_mode: TagSearchMode,
    sends_tag_names: bool,
    media_type: Option<MediaType>,
    description: Seq<char>,
    title: Seq<char>,
    has_album: bool,
) -> bool {
    tags_mode != TagSearchMode::All || sends_tag_names || media_type is Some || description.len() > 0
        || title.len() > 0 || has_album
}

/// Checks the filters of a batch: `--everything` goes with no filter, and without it
/// at least one filter is needed.
pub fn check_batch_filters(
    everything: bool,
    tags_mode: TagSearchMode,
    sends_tag_names: bool,
    media_type: &Option<MediaType>,
    description: &str,
    title: &str,
    has_album: bool,
) -> (r: Result<(), BatchFilterError>)
    ensures
        r == (if everything {
            if has_any_filter(tags_mode, sends_tag_names, *media_type, description@, title@, has_album) {
                Err::<(), BatchFilterError>(BatchFilterError::EverythingWithFilter)
            } else {
                Ok(())
            }
        } else if has_any_filter(tags_mode, sends_tag_names, *media_type, description@, title@, has_album) {
            Ok(())
        } else {
            Err(BatchFilterError::NoFilter)
        }),
        !everything && has_album ==> r is Ok,
        everything && has_album ==> r == Err::<(), BatchFilterError>(BatchFilterError::EverythingWithFilter),
        !everything ==> (r is Ok <==> (tags_mode != TagSearchMode::All || sends_tag_names || media_type is Some
            || description@.len() > 0 || title@.len() > 0 || has_album)),
        everything ==> (r is Ok <==> (tags_mode == TagSearchMode::All && !sends_tag_names && media_type is None
            && description@.len() == 0 && title@.len() == 0 && !has_album)),
{
    let any = tags_mode != TagSearchMode::All || sends_tag_names || media_type.is_some()
        || description.unicode_len() > 0 || title.unicode_len() > 0 || has_album;
    if everything {
        if any {
            Err(BatchFilterError::EverythingWithFilter)
        } else {
            Ok(())
        }
    } else if any {
        Ok(())
    } else {
        Err(BatchFilterError::NoFilter)
    }
}

/// Adds to `results`, in the order `stack@.reverse()` (the order in which the stack is
/// popped), every item that passes the filters.
fn append_filtered(results: &mut Vec<MediaListItem>, stack: Vec<MediaListItem>, f: &MediaFilter)
    ensures
        final(results)@ == old(results)@ + stack@.reverse().filter(accepts_fn(*f)),
{
    let ghost r0 = results@;
    let ghost order = stack@.reverse();
    let ghost p = accepts_fn(*f);
    let n = stack.len();
    let mut st = stack;
    let mut i: usize = 0;
    assert(order.take(0) =~= Seq::<MediaListItem>::empty());
    assert(results@ =~= r0 + order.take(0).filter(p));
    while i < n
        invariant
            n == order.len(),
            order == stack@.reverse(),
            p == accepts_fn(*f),
            i <= n,
            st@ == stack@.take(n - i),
            results@ == r0 + order.take(i as int).filter(p),
        decreases n - i,
    {
        proof {
            reveal_with_fuel(Seq::<_>::filter, 1);
            assert(order.take(i + 1).drop_last() =~= order.take(i as int));
            assert(order.take(i + 1).last() == order[i as int]);
        }
        match st.pop() {
            Some(item) => {
                assert(item == order[i as int]);
                assert(st@ =~= stack@.take(n - (i + 1)));
                if f.matches(&item) {
                    results.push(item);
                    assert(results@ =~= r0 + order.take(i + 1).filter(p));
                } else {
                    assert(results@ =~= r0 + order.take(i + 1).filter(p));
                }
            },
            Option::None => {},
        }
        i = i + 1;
    }
    assert(order.take(n as int) =~= order);
}

/// The media assets of an album that a batch applies to: those that pass the
/// filters, in the album's order.
pub fn batch_album_matches(list: Vec<MediaListItem>, f: &MediaFilter) -> (r: Vec<MediaListItem>)
    ensures
        r@ == list@.filter(accepts_fn(*f)),
{
    let ghost l0 = list@;
    let stack = reversed_items(list);
    assert(stack@.reverse() =~= l0);
    let mut results: Vec<MediaListItem> = Vec::new();
    append_filtered(&mut results, stack, f);
    assert(results@ =~= l0.filter(accepts_fn(*f)));
    results
}

/// The progress of the search for the media assets a batch applies to, through all
/// the vault's result pages.
pub struct BatchSearch {
    results: Vec<MediaListItem>,
    finished: bool,
    continue_ref: Option<u64>,
}

impl BatchSearch {
    pub closed spec fn results_view(&self) -> Seq<MediaListItem> {
        self.results@
    }

    pub closed spec fn is_finished(&self) -> bool {
        self.finished
    }

    pub closed spec fn next_ref(&self) -> Option<u64> {
        self.continue_ref
    }

    /// A search that starts at the first page.
    pub fn new() -> (s: BatchSearch)
        ensures
            s.results_view() == Seq::<MediaListItem>::empty(),
            !s.is_finished(),
            s.next_ref() is None,
    {
        BatchSearch { results: Vec::new(), finished: false, continue_ref: Option::None }
    }

    /// The page to ask for next: `None` once the search is over, else the reference
    /// the page starts at.
    pub fn next_request(&self) -> (r: Option<Option<u64>>)
        ensures
            r == (if self.is_finished() {
                Option::<Option<u64>>::None
            } else {
                Some(self.next_ref())
            }),
    {
        if self.finished {
            Option::None
        } else {
            Some(self.continue_ref)
        }
    }

    /// Takes in a page of results: adds every item that passes the filters, in order;
    /// the search is over once the vault has scanned all its media assets; the next
    /// page starts at `continue_ref`.
    pub fn accept_page(&mut self, page_items: Vec<MediaListItem>, scanned: u64, total_count: u64, continue_ref: u64, f: &MediaFilter)
        ensures
            final(self).results_view() == old(self).results_view() + page_items@.filter(accepts_fn(*f)),
            final(self).is_finished() == (scanned >= total_count),
            final(self).next_ref() == Some(continue_ref),
    {
        let ghost p0 = page_items@;
        let stack = reversed_items(page_items);
        assert(stack@.reverse() =~= p0);
        append_filtered(&mut self.results, stack, f);
        self.finished = scanned >= total_count;
        self.continue_ref = Some(continue_ref);
    }

    /// The media assets found.
    pub fn into_results(self) -> (r: Vec<MediaListItem>)
        ensures
            r@ == self.results_view(),
    {
        self.results
    }
}

/// What a batch operation does after one of its requests.
#[derive(Clone, Copy, Debug, PartialEq, Eq, Structural)]
pub enum BatchRunOutcome {
    /// The request succeeded and more remain: send the next one.
    Next,
    /// The request succeeded and it was the last one.
    Finished,
    /// The request failed: report it and stop, leaving the rest undone.
    Stopped,
}

/// One step of a batch operation's requests, sent in the order of the media list:
/// from how many are done, out of `total`, and whether the last one succeeded, how
/// many are done now and what comes next.
pub open spec fn batch_run_step_spec(done: int, total: int, ok: bool) -> (int, BatchRunOutcome) {
    if !ok {
        (done, BatchRunOutcome::Stopped)
    } else if done + 1 >= total {
        (done + 1, BatchRunOutcome::Finished)
    } else {
        (done + 1, BatchRunOutcome::Next)
    }
}

/// One step of a batch operation's requests (see `batch_run_step_spec`); `done`
/// requests of `total` were done before the one whose result is `ok`.
pub fn batch_run_step(done: usize, total: usize, ok: bool) -> (r: (usize, BatchRunOutcome))
    requires
        done < total,
    ensures
        (r.0 as int, r.1) == batch_run_step_spec(done as int, total as int, ok),
{
    if !ok {
        (done, BatchRunOutcome::Stopped)
    } else if done + 1 >= total {
        (done + 1, BatchRunOutcome::Finished)
    } else {
        (done + 1, BatchRunOutcome::Next)
    }
}

/// How many requests a batch operation sends when its requests give `results` in
/// order: all of them when every one succeeds, else up to the first that fails.
pub open spec fn batch_requests_sent(results: Seq<bool>) -> int
    decreases results.len(),
{
    if results.len() == 0 {
        0
    } else if !results[0] {
        1
    } else {
        1 + batch_requests_sent(results.skip(1))
    }
}

/// The state a batch operation reaches from `done` requests done, when its next
/// requests give `results`.
pub open spec fn batch_run_from(done: int, total: int, results: Seq<bool>) -> (int, BatchRunOutcome)
    decreases results.len(),
{
    if results.len() == 0 {
        (done, BatchRunOutcome::Next)
    } else {
        let (d, o) = batch_run_step_spec(done, total, results[0]);
        if o is Next {
            batch_run_from(d, total, results.skip(1))
        } else {
            (d, o)
        }
    }
}

/// A batch operation over `total` requests stops at its first failed request: run
/// step by step on results that hold a failure at `k`, it ends `Stopped` with `k`
/// requests done; on results that all succeed, it ends `Finished` with all done.
pub proof fn law_batch_stops_at_first_failure(results: Seq<bool>, k: int)
    requires
        results.len() > 0,
        0 <= k <= results.len(),
        k < results.len() ==> !results[k],
        forall|j: int| 0 <= j < k ==> #[trigger] results[j],
    ensures
        k < results.len() ==> batch_run_from(0, results.len() as int, results) == (k, BatchRunOutcome::Stopped),
        k == results.len() ==> batch_run_from(0, results.len() as int, results) == (
            results.len() as int,
            BatchRunOutcome::Finished,
        ),
{
    lemma_batch_run_from(0, results.len() as int, results, k);
}

proof fn lemma_batch_run_from(done: int, total: int, results: Seq<bool>, k: int)
    requires
        results.len() > 0,
        done + results.len() == total,
        0 <= k <= results.len(),
        k < results.len() ==> !results[k],
        forall|j: int| 0 <= j < k ==> #[trigger] results[j],
    ensures
        k < results.len() ==> batch_run_from(done, total, results) == (done + k, BatchRunOutcome::Stopped),
        k == results.len() ==> batch_run_from(done, total, results) == (total, BatchRunOutcome::Finished),
    decreases results.len(),
{
    if k > 0 && results.len() > 1 {
        let rest = results.skip(1);
        assert forall|j: int| 0 <= j < k - 1 implies #[trigger] rest[j] by {
            assert(rest[j] == results[j + 1]);
        }
        if k - 1 < rest.len() {
            assert(rest[k - 1] == results[k]);
        }
        assert(results[0]);
        lemma_batch_run_from(done + 1, total, rest, k - 1);
    } else if k > 0 {
        assert(results[0]);
    }
}

/// The filters of a batch: "no filter" means exactly that the tag mode is `All`, no
/// tag names are sent, and no media type, description, title or album is given; an
/// album alone is a filter.
pub proof fn law_batch_filters(
    tags_mode: TagSearchMode,
    sends_tag_names: bool,
    media_type: Option<MediaType>,
    description: Seq<char>,
    title: Seq<char>,
    has_album: bool,
)
    ensures
        !has_any_filter(tags_mode, sends_tag_names, media_type, description, title, has_album) <==> (tags_mode
            == TagSearchMode::All && !sends_tag_names && media_type is None && description.len() == 0
            && title.len() == 0 && !has_album),
        has_any_filter(tags_mode, sends_tag_names, media_type, description, title, true),
{
}

} // verus!
