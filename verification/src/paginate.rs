//! The paginated search sequence: a lazy, forward-only, finite sequence of
//! decoded items spanning arbitrarily many pages.
//!
//! The cursor itself performs no network call. A consumer pulls; when the
//! cursor has run out of buffered items and is not yet done, the pull asks
//! for one fetch, the caller performs exactly that one page request and
//! feeds the outcome back, and pulling resumes. Calls are therefore never
//! issued before the corresponding items are demanded, and crossing a page
//! boundary costs exactly one call.
//!
//! A page that reports truncated results is still yielded in full; the
//! truncation is recorded as a warning flag the consumer can read at any
//! time. A fetch that fails makes the error the next and last thing the
//! sequence produces; afterwards the cursor only reports exhaustion and
//! never issues another fetch.

use vstd::prelude::*;

use crate::error::Error;
use crate::github::{spec_path_request, Client, GithubSearchResults, spec_search_path};
use crate::query::SearchIssues;
use crate::signer::{HttpRequest, Method};

verus! {

/// The abstract state of a search cursor.
#[verifier::ext_equal]
pub ghost struct SearchCursor<T> {
    /// The page size every fetch asks for.
    pub page_size: int,
    /// The number of the next page to fetch.
    pub next_page: int,
    /// Items fetched and not yet yielded, in backend order.
    pub buffered: Seq<T>,
    /// A fetch error not yet yielded.
    pub failed: Option<Error>,
    /// Whether no further fetch will ever be issued.
    pub finished: bool,
    /// Whether some page reported backend-side truncation.
    pub incomplete: bool,
}

/// The state of a cursor that has not fetched anything yet.
pub open spec fn cursor_start<T>(page_size: int) -> SearchCursor<T> {
    SearchCursor {
        page_size: page_size,
        next_page: 1,
        buffered: Seq::empty(),
        failed: None,
        finished: false,
        incomplete: false,
    }
}

/// Whether the cursor's next pull would ask for a fetch: nothing is
/// buffered, no error is pending, and the sequence is not finished.
pub open spec fn cursor_wants_fetch<T>(s: SearchCursor<T>) -> bool {
    s.buffered.len() == 0 && s.failed is None && !s.finished
}

/// What feeding one fetch outcome does to a waiting cursor: a page's items
/// are buffered in order and a short page finishes the sequence, while an
/// error is stored to be yielded once, finishing the sequence.
pub open spec fn spec_feed<T>(
    s: SearchCursor<T>,
    outcome: Result<GithubSearchResults<T>, Error>,
) -> SearchCursor<T> {
    match outcome {
        Ok(page) => SearchCursor {
            page_size: s.page_size,
            next_page: s.next_page + 1,
            buffered: page.items@,
            failed: None,
            finished: (page.items@.len() as int) < s.page_size,
            incomplete: s.incomplete || page.incomplete_results,
        },
        Err(e) => SearchCursor {
            page_size: s.page_size,
            next_page: s.next_page,
            buffered: s.buffered,
            failed: Some(e),
            finished: true,
            incomplete: s.incomplete,
        },
    }
}

/// What one pull yields.
#[derive(Debug)]
pub enum PullStep<T> {
    /// The next item, in original order.
    Item(T),
    /// The error that ended the sequence; nothing follows it.
    Failed(Error),
    /// The cursor needs exactly one page fetched before it can go on.
    NeedsFetch,
    /// The sequence is exhausted; no further fetch will be issued.
    Done,
}

/// What one pull does to the cursor and what it yields: buffered items
/// first, then a pending error exactly once, then only `Done` — or
/// `NeedsFetch`, which changes nothing until the fetched page is fed.
pub open spec fn spec_pull<T>(s: SearchCursor<T>) -> (SearchCursor<T>, PullStep<T>) {
    if s.buffered.len() > 0 {
        (
            SearchCursor { buffered: s.buffered.drop_first(), ..s },
            PullStep::Item(s.buffered[0]),
        )
    } else if s.failed is Some {
        (
            SearchCursor { failed: None, finished: true, ..s },
            PullStep::Failed(s.failed.unwrap()),
        )
    } else if s.finished {
        (s, PullStep::Done)
    } else {
        (s, PullStep::NeedsFetch)
    }
}

/// A lazy multi-page search over one backend client's search operation.
#[derive(Debug)]
pub struct PaginatedSearch<T> {
    pub query: SearchIssues,
    pub page_size: u32,
    pub next_page: u32,
    pub buffer: Vec<T>,
    pub pending_error: Option<Error>,
    pub finished: bool,
    pub incomplete: bool,
}

impl<T> View for PaginatedSearch<T> {
    type V = SearchCursor<T>;

    open spec fn view(&self) -> SearchCursor<T> {
        SearchCursor {
            page_size: self.page_size as int,
            next_page: self.next_page as int,
            buffered: self.buffer@,
            failed: self.pending_error,
            finished: self.finished,
            incomplete: self.incomplete,
        }
    }
}

impl<T> PaginatedSearch<T> {
    /// Starts a search sequence for `query`, whose fetches ask for
    /// `page_size` items per page.
    pub fn new(query: SearchIssues, page_size: u32) -> (r: PaginatedSearch<T>)
        ensures
            r@ == cursor_start::<T>(page_size as int),
            r.query == query,
            r.page_size == page_size,
    {
        let r = PaginatedSearch {
            query,
            page_size,
            next_page: 1,
            buffer: Vec::new(),
            pending_error: None,
            finished: false,
            incomplete: false,
        };
        proof {
            assert(r@ =~= cursor_start::<T>(page_size as int));
        }
        r
    }

    /// Whether some page so far reported backend-side truncation: the
    /// warning signal of a degraded-but-usable result set.
    pub fn incomplete_seen(&self) -> (r: bool)
        ensures
            r == self@.incomplete,
    {
        self.incomplete
    }

    /// Pulls the next step of the sequence. No fetch happens here: where a
    /// fetch is needed, the step says so and the cursor is unchanged.
    pub fn pull(&mut self) -> (r: PullStep<T>)
        ensures
            final(self)@ == spec_pull(old(self)@).0,
            r == spec_pull(old(self)@).1,
            final(self).query == old(self).query,
            final(self).page_size == old(self).page_size,
    {
        if self.buffer.len() > 0 {
            let item = self.buffer.remove(0);
            proof {
                assert(self@.buffered =~= old(self)@.buffered.drop_first());
                assert(self@ =~= spec_pull(old(self)@).0);
            }
            PullStep::Item(item)
        } else {
            match self.pending_error.take() {
                Some(e) => {
                    self.finished = true;
                    proof {
                        assert(self@ =~= spec_pull(old(self)@).0);
                    }
                    PullStep::Failed(e)
                },
                None => {
                    if self.finished {
                        PullStep::Done
                    } else {
                        PullStep::NeedsFetch
                    }
                },
            }
        }
    }

    /// Builds the one page request the cursor is waiting for, against
    /// `client`.
    pub fn fetch_request(&self, client: &Client) -> (r: Result<HttpRequest, Error>)
        requires
            cursor_wants_fetch(self@),
        ensures
            spec_path_request(
                client.signer,
                Method::Get,
                spec_search_path(self.query, self.next_page),
                None,
                r,
            ),
    {
        client.search_issues_request(&self.query, self.next_page)
    }

    /// Feeds back the outcome of the one fetch the cursor asked for.
    pub fn feed(&mut self, outcome: Result<GithubSearchResults<T>, Error>)
        requires
            cursor_wants_fetch(old(self)@),
            old(self).next_page < 0xffff_ffffu32,
        ensures
            final(self)@ == spec_feed(old(self)@, outcome),
            final(self).query == old(self).query,
            final(self).page_size == old(self).page_size,
    {
        match outcome {
            Ok(page) => {
                self.incomplete = self.incomplete || page.incomplete_results;
                self.finished = page.items.len() < self.page_size as usize;
                self.next_page = self.next_page + 1;
                self.buffer = page.items;
                proof {
                    assert(self@ =~= spec_feed(old(self)@, outcome));
                }
            },
            Err(e) => {
                self.pending_error = Some(e);
                self.finished = true;
                proof {
                    assert(self@ =~= spec_feed(old(self)@, outcome));
                }
            },
        }
    }
}

// ---------------------------------------------------------------------------
// The sequence as a whole
// ---------------------------------------------------------------------------

/// Everything a cursor yields before its next fetch, when the consumer
/// pulls until it can pull no more: the buffered items in order, then the
/// pending error, if any, exactly once.
pub open spec fn spec_drained_yields<T>(s: SearchCursor<T>) -> Seq<Result<T, Error>> {
    s.buffered.map_values(|t: T| Result::<T, Error>::Ok(t)) + (match s.failed {
        Some(e) => seq![Result::<T, Error>::Err(e)],
        None => Seq::empty(),
    })
}

/// The cursor once the consumer has pulled everything available.
pub open spec fn spec_after_drain<T>(s: SearchCursor<T>) -> SearchCursor<T> {
    SearchCursor {
        buffered: Seq::empty(),
        failed: None,
        finished: s.finished || s.failed is Some,
        ..s
    }
}

/// A whole consumer-driven run: the consumer pulls everything available,
/// and each time the cursor asks for a fetch, the next outcome of
/// `outcomes` is fed to it, until the sequence finishes or the outcomes run
/// out. Yields the produced sequence, the final cursor, and how many
/// fetches were issued.
pub open spec fn spec_run<T>(
    s: SearchCursor<T>,
    outcomes: Seq<Result<GithubSearchResults<T>, Error>>,
) -> (Seq<Result<T, Error>>, SearchCursor<T>, int)
    decreases outcomes.len(),
{
    let ys = spec_drained_yields(s);
    let d = spec_after_drain(s);
    if s.failed is Some || s.finished || outcomes.len() == 0 {
        (ys, d, 0)
    } else {
        let stepped = spec_run(spec_feed(d, outcomes[0]), outcomes.drop_first());
        (ys + stepped.0, stepped.1, 1 + stepped.2)
    }
}

/// Two full pages and then a short one: the sequence yields exactly the
/// pages' items, in original order, across exactly three fetches, and is
/// finished afterwards. Together with `spec_pull`, which asks for a fetch
/// only once everything buffered has been demanded, this is the law that a
/// search of page size `n` over such a backend yields `2n + k` items with
/// no call issued ahead of demand.
pub proof fn lemma_pages_yield_in_order<T>(
    n: int,
    p1: GithubSearchResults<T>,
    p2: GithubSearchResults<T>,
    p3: GithubSearchResults<T>,
)
    requires
        n > 0,
        p1.items@.len() == n,
        !p1.incomplete_results,
        p2.items@.len() == n,
        !p2.incomplete_results,
        p3.items@.len() < n,
        !p3.incomplete_results,
    ensures
        ({
            let run = spec_run(
                cursor_start::<T>(n),
                seq![Ok(p1), Ok(p2), Ok(p3)],
            );
            &&& run.0 =~= (p1.items@ + p2.items@ + p3.items@).map_values(
                |t: T| Result::<T, Error>::Ok(t),
            )
            &&& run.2 == 3
            &&& run.1.finished
            &&& !run.1.incomplete
        }),
{
    reveal_with_fuel(spec_run, 4);
    let outcomes = seq![
        Result::<GithubSearchResults<T>, Error>::Ok(p1),
        Result::<GithubSearchResults<T>, Error>::Ok(p2),
        Result::<GithubSearchResults<T>, Error>::Ok(p3),
    ];
    assert(outcomes =~= seq![Ok(p1), Ok(p2), Ok(p3)]);
    let o1 = outcomes.drop_first();
    let o2 = o1.drop_first();
    let o3 = o2.drop_first();
    assert(o1 =~= seq![Result::<GithubSearchResults<T>, Error>::Ok(p2), Result::<GithubSearchResults<T>, Error>::Ok(p3)]);
    assert(o2 =~= seq![Result::<GithubSearchResults<T>, Error>::Ok(p3)]);
    assert(o3.len() == 0);
    let s0 = cursor_start::<T>(n);
    let s1 = spec_feed(spec_after_drain(s0), outcomes[0]);
    let s2 = spec_feed(spec_after_drain(s1), o1[0]);
    let s3 = spec_feed(spec_after_drain(s2), o2[0]);
    let f = |t: T| Result::<T, Error>::Ok(t);
    assert(spec_drained_yields(s0) =~= Seq::<Result<T, Error>>::empty());
    assert(spec_drained_yields(s1) =~= p1.items@.map_values(f));
    assert(spec_drained_yields(s2) =~= p2.items@.map_values(f));
    assert(spec_drained_yields(s3) =~= p3.items@.map_values(f));
    assert(!s1.finished && s1.failed is None);
    assert(!s2.finished && s2.failed is None);
    assert(s3.finished);
    assert(spec_run(s3, o3).0 =~= spec_drained_yields(s3));
    assert(spec_run(s3, o3).2 == 0);
    assert(spec_run(s2, o2).0 =~= spec_drained_yields(s2) + spec_run(s3, o3).0);
    assert(spec_run(s2, o2).2 == 1 + spec_run(s3, o3).2);
    assert(spec_run(s1, o1).0 =~= spec_drained_yields(s1) + spec_run(s2, o2).0);
    assert(spec_run(s1, o1).2 == 1 + spec_run(s2, o2).2);
    assert(spec_run(s0, outcomes).0 =~= spec_drained_yields(s0) + spec_run(s1, o1).0);
    assert(spec_run(s0, outcomes).2 == 1 + spec_run(s1, o1).2);
    assert(spec_run(s0, outcomes).1 == spec_run(s3, o3).1);
    assert(spec_run(s0, outcomes).0 =~= p1.items@.map_values(f) + p2.items@.map_values(f)
        + p3.items@.map_values(f));
    assert((p1.items@ + p2.items@ + p3.items@).map_values(f) =~= p1.items@.map_values(f)
        + p2.items@.map_values(f) + p3.items@.map_values(f));
}

/// A page that reports backend-side truncation still has all its items
/// buffered for the consumer, and the warning flag is set from then on.
pub proof fn lemma_incomplete_page_still_yields<T>(
    s: SearchCursor<T>,
    page: GithubSearchResults<T>,
)
    requires
        cursor_wants_fetch(s),
    ensures
        spec_feed(s, Ok(page)).buffered == page.items@,
        page.incomplete_results ==> spec_feed(s, Ok(page)).incomplete,
{
}

/// A full first page and then a failing fetch: the sequence yields the
/// first page's items in order, then that error as its final element,
/// across exactly two fetches — and afterwards it is exhausted: however
/// often the consumer keeps pulling, nothing more is yielded and no
/// further fetch is issued.
pub proof fn lemma_error_ends_sequence<T>(
    n: int,
    p1: GithubSearchResults<T>,
    e: Error,
    later: Seq<Result<GithubSearchResults<T>, Error>>,
)
    requires
        n > 0,
        p1.items@.len() == n,
    ensures
        ({
            let run = spec_run(cursor_start::<T>(n), seq![Ok(p1), Err(e)]);
            &&& run.0 =~= p1.items@.map_values(|t: T| Result::<T, Error>::Ok(t)) + seq![
                Result::<T, Error>::Err(e),
            ]
            &&& run.2 == 2
            &&& run.1.finished
            &&& spec_run(run.1, later).0 =~= Seq::<Result<T, Error>>::empty()
            &&& spec_run(run.1, later).2 == 0
        }),
{
    reveal_with_fuel(spec_run, 4);
    let outcomes = seq![
        Result::<GithubSearchResults<T>, Error>::Ok(p1),
        Result::<GithubSearchResults<T>, Error>::Err(e),
    ];
    assert(outcomes =~= seq![Ok(p1), Err(e)]);
    let o1 = outcomes.drop_first();
    let o2 = o1.drop_first();
    assert(o1 =~= seq![Result::<GithubSearchResults<T>, Error>::Err(e)]);
    assert(o2.len() == 0);
    let s0 = cursor_start::<T>(n);
    let s1 = spec_feed(spec_after_drain(s0), outcomes[0]);
    let s2 = spec_feed(spec_after_drain(s1), o1[0]);
    let f = |t: T| Result::<T, Error>::Ok(t);
    assert(spec_drained_yields(s0) =~= Seq::<Result<T, Error>>::empty());
    assert(spec_drained_yields(s1) =~= p1.items@.map_values(f));
    assert(spec_drained_yields(s2) =~= seq![Result::<T, Error>::Err(e)]);
    assert(!s1.finished && s1.failed is None);
    assert(s2.failed is Some);
    assert(spec_run(s2, o2).0 =~= spec_drained_yields(s2));
    assert(spec_run(s2, o2).2 == 0);
    assert(spec_run(s2, o2).1.finished);
    assert(spec_run(s1, o1).0 =~= spec_drained_yields(s1) + spec_run(s2, o2).0);
    assert(spec_run(s1, o1).2 == 1 + spec_run(s2, o2).2);
    assert(spec_run(s0, outcomes).0 =~= spec_drained_yields(s0) + spec_run(s1, o1).0);
    assert(spec_run(s0, outcomes).2 == 1 + spec_run(s1, o1).2);
    assert(spec_run(s0, outcomes).0 =~= p1.items@.map_values(f) + seq![
        Result::<T, Error>::Err(e),
    ]);
    let fin = spec_run(s0, outcomes).1;
    assert(fin.finished && fin.failed is None && fin.buffered.len() == 0);
    assert(spec_run(fin, later).0 =~= Seq::<Result<T, Error>>::empty());
    assert(spec_run(fin, later).2 == 0);
}

impl<T> PaginatedSearch<T> {
    /// Drains the sequence against a fixed list of page outcomes: pulls
    /// until the cursor asks for a fetch, answers with the next outcome in
    /// order, and stops once the sequence is exhausted or the outcomes run
    /// out. What comes back is exactly what the one-step model, folded
    /// over the outcomes, prescribes: the yielded elements in order, and
    /// the number of fetches consumed.
    pub fn drain_with(&mut self, outcomes: Vec<Result<GithubSearchResults<T>, Error>>) -> (r: (
        Vec<Result<T, Error>>,
        usize,
    ))
        requires
            old(self)@.next_page + outcomes@.len() <= 0xffff_ffff,
        ensures
            r.0@ == spec_run(old(self)@, outcomes@).0,
            r.1 as int == spec_run(old(self)@, outcomes@).2,
            final(self)@ == spec_run(old(self)@, outcomes@).1,
    {
        let mut remaining = outcomes;
        let total: usize = remaining.len();
        let mut yielded: Vec<Result<T, Error>> = Vec::new();
        let mut fetches: usize = 0;
        loop
            invariant
                yielded@ + spec_run(self@, remaining@).0 =~= spec_run(old(self)@, outcomes@).0,
                spec_run(self@, remaining@).1 == spec_run(old(self)@, outcomes@).1,
                fetches + spec_run(self@, remaining@).2 == spec_run(old(self)@, outcomes@).2,
                total == outcomes@.len(),
                fetches + remaining@.len() == total,
                self@.next_page + remaining@.len() <= 0xffff_ffff,
            decreases
                remaining@.len(),
                self@.buffered.len() * 2 + (if self@.failed is Some {
                    2int
                } else {
                    0int
                }) + (if !self@.finished {
                    1int
                } else {
                    0int
                }),
        {
            let ghost before = self@;
            match self.pull() {
                PullStep::Item(t) => {
                    proof {
                        lemma_run_item(before, remaining@);
                    }
                    yielded.push(Ok(t));
                    proof {
                        assert(yielded@ + spec_run(self@, remaining@).0 =~= spec_run(
                            old(self)@,
                            outcomes@,
                        ).0);
                    }
                },
                PullStep::Failed(e) => {
                    proof {
                        lemma_run_failed(before, remaining@);
                    }
                    yielded.push(Err(e));
                    proof {
                        assert(yielded@ + spec_run(self@, remaining@).0 =~= spec_run(
                            old(self)@,
                            outcomes@,
                        ).0);
                    }
                },
                PullStep::Done => {
                    proof {
                        lemma_run_done(before, remaining@);
                        assert(yielded@ =~= spec_run(old(self)@, outcomes@).0);
                    }
                    return (yielded, fetches);
                },
                PullStep::NeedsFetch => {
                    if remaining.len() == 0 {
                        proof {
                            lemma_run_fetch_empty(before, remaining@);
                            assert(yielded@ =~= spec_run(old(self)@, outcomes@).0);
                        }
                        return (yielded, fetches);
                    }
                    proof {
                        lemma_run_fetch(before, remaining@);
                    }
                    let outcome = remaining.remove(0);
                    self.feed(outcome);
                    fetches = fetches + 1;
                },
            }
        }
    }
}

/// One pull of a buffered item, seen at the whole-run level: the item leads
/// the run's yield, and nothing else changes.
proof fn lemma_run_item<T>(
    s: SearchCursor<T>,
    outcomes: Seq<Result<GithubSearchResults<T>, Error>>,
)
    requires
        s.buffered.len() > 0,
    ensures
        spec_run(s, outcomes).0 =~= seq![Result::<T, Error>::Ok(s.buffered[0])] + spec_run(
            spec_pull(s).0,
            outcomes,
        ).0,
        spec_run(s, outcomes).1 == spec_run(spec_pull(s).0, outcomes).1,
        spec_run(s, outcomes).2 == spec_run(spec_pull(s).0, outcomes).2,
{
    let f = |t: T| Result::<T, Error>::Ok(t);
    let s1 = spec_pull(s).0;
    assert(s1.buffered =~= s.buffered.drop_first());
    assert(spec_drained_yields(s) =~= seq![f(s.buffered[0])] + spec_drained_yields(s1));
    assert(spec_after_drain(s) =~= spec_after_drain(s1));
    if !(s.failed is Some || s.finished || outcomes.len() == 0) {
        assert(spec_feed(spec_after_drain(s), outcomes[0]) == spec_feed(
            spec_after_drain(s1),
            outcomes[0],
        ));
    }
}

/// One pull of the pending error, seen at the whole-run level: the error is
/// the run's one element, and the run is over.
proof fn lemma_run_failed<T>(
    s: SearchCursor<T>,
    outcomes: Seq<Result<GithubSearchResults<T>, Error>>,
)
    requires
        s.buffered.len() == 0,
        s.failed is Some,
    ensures
        spec_run(s, outcomes).0 =~= seq![Result::<T, Error>::Err(s.failed.unwrap())] + spec_run(
            spec_pull(s).0,
            outcomes,
        ).0,
        spec_run(s, outcomes).1 == spec_run(spec_pull(s).0, outcomes).1,
        spec_run(s, outcomes).2 == spec_run(spec_pull(s).0, outcomes).2,
{
    let s1 = spec_pull(s).0;
    assert(s1.finished);
    assert(spec_drained_yields(s1) =~= Seq::<Result<T, Error>>::empty());
    assert(spec_run(s1, outcomes).0 =~= Seq::<Result<T, Error>>::empty());
    assert(spec_drained_yields(s) =~= seq![Result::<T, Error>::Err(s.failed.unwrap())]);
    assert(spec_after_drain(s) =~= spec_after_drain(s1));
}

/// An exhausted cursor, seen at the whole-run level: the run yields
/// nothing, fetches nothing, and leaves the cursor as it is.
proof fn lemma_run_done<T>(
    s: SearchCursor<T>,
    outcomes: Seq<Result<GithubSearchResults<T>, Error>>,
)
    requires
        s.buffered.len() == 0,
        s.failed is None,
        s.finished,
    ensures
        spec_run(s, outcomes).0 =~= Seq::<Result<T, Error>>::empty(),
        spec_run(s, outcomes).1 == s,
        spec_run(s, outcomes).2 == 0,
{
    assert(spec_drained_yields(s) =~= Seq::<Result<T, Error>>::empty());
    assert(spec_after_drain(s) =~= s);
}

/// A waiting cursor with outcomes left, seen at the whole-run level: the
/// run is the run after feeding the first outcome, plus that one fetch.
proof fn lemma_run_fetch<T>(
    s: SearchCursor<T>,
    outcomes: Seq<Result<GithubSearchResults<T>, Error>>,
)
    requires
        cursor_wants_fetch(s),
        outcomes.len() > 0,
    ensures
        spec_run(s, outcomes).0 =~= spec_run(spec_feed(s, outcomes[0]), outcomes.drop_first()).0,
        spec_run(s, outcomes).1 == spec_run(spec_feed(s, outcomes[0]), outcomes.drop_first()).1,
        spec_run(s, outcomes).2 == 1 + spec_run(spec_feed(s, outcomes[0]), outcomes.drop_first()).2,
{
    assert(spec_drained_yields(s) =~= Seq::<Result<T, Error>>::empty());
    assert(spec_after_drain(s) =~= s);
    assert(spec_feed(spec_after_drain(s), outcomes[0]) == spec_feed(s, outcomes[0]));
}

/// A waiting cursor with no outcomes left, seen at the whole-run level:
/// the run yields nothing, fetches nothing, and leaves the cursor as it is.
proof fn lemma_run_fetch_empty<T>(
    s: SearchCursor<T>,
    outcomes: Seq<Result<GithubSearchResults<T>, Error>>,
)
    requires
        cursor_wants_fetch(s),
        outcomes.len() == 0,
    ensures
        spec_run(s, outcomes).0 =~= Seq::<Result<T, Error>>::empty(),
        spec_run(s, outcomes).1 == s,
        spec_run(s, outcomes).2 == 0,
{
    assert(spec_drained_yields(s) =~= Seq::<Result<T, Error>>::empty());
    assert(spec_after_drain(s) =~= s);
}

} // verus!
