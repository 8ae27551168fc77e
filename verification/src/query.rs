//! Search parameters: the issue-search request object, the query-term
//! builder that assembles its `q` value, and the query string each page
//! request carries. Absent optional parameters are omitted from the query
//! string entirely.

use vstd::prelude::*;
use vstd::string::*;
use vstd::utf8::encode_utf8;

use crate::text::{
    chars_to_string, push_dec, push_dec_pad, push_str_chars, push_urlencoded, spec_dec,
    spec_dec_pad, spec_urlencode,
};

verus! {

/// The state of an issue or milestone, as the backend spells it.
#[derive(Debug, Clone, Copy, PartialEq, Eq, Structural)]
pub enum State {
    Open,
    Closed,
}

impl State {
    /// The wire spelling of this state.
    pub open spec fn spec_str(self) -> Seq<char> {
        match self {
            State::Open => "open"@,
            State::Closed => "closed"@,
        }
    }

    /// Returns the wire spelling of this state.
    pub fn as_str(&self) -> (r: &'static str)
        ensures
            r@ == self.spec_str(),
    {
        match self {
            State::Open => "open",
            State::Closed => "closed",
        }
    }
}

/// A sort direction, as the search API spells it.
#[derive(Debug, Clone, Copy, PartialEq, Eq, Structural)]
pub enum Direction {
    Ascending,
    Descending,
}

impl Direction {
    /// The wire spelling of this direction.
    pub open spec fn spec_str(self) -> Seq<char> {
        match self {
            Direction::Ascending => "asc"@,
            Direction::Descending => "desc"@,
        }
    }

    /// Returns the wire spelling of this direction.
    pub fn as_str(&self) -> (r: &'static str)
        ensures
            r@ == self.spec_str(),
    {
        match self {
            Direction::Ascending => "asc",
            Direction::Descending => "desc",
        }
    }
}

/// Request to search issues. Only `q` is required; absent optional fields
/// never reach the query string.
#[derive(Debug)]
pub struct SearchIssues {
    pub q: String,
    pub sort: Option<String>,
    pub order: Option<Direction>,
    pub per_page: Option<u32>,
}

/// The form-urlencoding of the UTF-8 bytes of the text `s`: how a query
/// parameter value appears in the query string.
pub open spec fn spec_query_encode(s: Seq<char>) -> Seq<char> {
    spec_urlencode(encode_utf8(s))
}

/// The query string of the page-`page` search request for `q`: the encoded
/// parameters in fixed order, each optional one present exactly when set,
/// and the page number present exactly from the second page on.
pub open spec fn spec_query_string(q: SearchIssues, page: u32) -> Seq<char> {
    "q="@ + spec_query_encode(q.q@) + (match q.sort {
        Some(s) => "&sort="@ + spec_query_encode(s@),
        None => Seq::<char>::empty(),
    }) + (match q.order {
        Some(d) => "&order="@ + d.spec_str(),
        None => Seq::<char>::empty(),
    }) + (match q.per_page {
        Some(n) => "&per_page="@ + spec_dec(n as nat),
        None => Seq::<char>::empty(),
    }) + (if page >= 2 {
        "&page="@ + spec_dec(page as nat)
    } else {
        Seq::<char>::empty()
    })
}

/// Builds the query string of the page-`page` search request for `q`.
pub fn build_query_string(q: &SearchIssues, page: u32) -> (r: String)
    ensures
        r@ == spec_query_string(*q, page),
{
    let mut out: Vec<char> = Vec::new();
    push_str_chars(&mut out, "q=");
    push_urlencoded(&mut out, q.q.as_str());
    match &q.sort {
        Some(s) => {
            push_str_chars(&mut out, "&sort=");
            push_urlencoded(&mut out, s.as_str());
        },
        None => {},
    }
    match &q.order {
        Some(d) => {
            push_str_chars(&mut out, "&order=");
            push_str_chars(&mut out, d.as_str());
        },
        None => {},
    }
    match &q.per_page {
        Some(n) => {
            push_str_chars(&mut out, "&per_page=");
            push_dec(&mut out, *n as u64);
        },
        None => {},
    }
    if page >= 2 {
        push_str_chars(&mut out, "&page=");
        push_dec(&mut out, page as u64);
    }
    proof {
        assert(out@ =~= spec_query_string(*q, page));
    }
    chars_to_string(out)
}

/// The terms of a search query joined by single spaces, in order.
pub open spec fn spec_join_terms(ts: Seq<Seq<char>>) -> Seq<char>
    decreases ts.len(),
{
    if ts.len() == 0 {
        Seq::empty()
    } else if ts.len() == 1 {
        ts[0]
    } else {
        spec_join_terms(ts.drop_last()) + " "@ + ts.last()
    }
}

/// Accumulates the space-separated terms of an issue-search `q` value, in
/// the order the caller adds them.
#[derive(Debug)]
pub struct SearchQueryBuilder {
    pub terms: Vec<String>,
}

/// The term a date filter uses: the date in `YYYY-MM-DD` form.
pub open spec fn spec_date(year: u32, month: u32, day: u32) -> Seq<char> {
    spec_dec_pad(year as nat, 4) + "-"@ + spec_dec_pad(month as nat, 2) + "-"@ + spec_dec_pad(
        day as nat,
        2,
    )
}

impl SearchQueryBuilder {
    /// Starts an empty query.
    pub fn new() -> (r: SearchQueryBuilder)
        ensures
            r.terms.deep_view() == Seq::<Seq<char>>::empty(),
    {
        let r = SearchQueryBuilder { terms: Vec::new() };
        proof {
            assert(r.terms.deep_view() =~= Seq::<Seq<char>>::empty());
        }
        r
    }

    /// Adds one already-built term.
    fn push_term(&mut self, term: Vec<char>)
        ensures
            final(self).terms.deep_view() == old(self).terms.deep_view().push(term@),
    {
        let t: String = chars_to_string(term);
        self.terms.push(t);
        proof {
            assert(self.terms.deep_view() =~= old(self).terms.deep_view().push(term@));
        }
    }

    /// Restricts matches to issues in `state`.
    pub fn state(self, state: &State) -> (r: SearchQueryBuilder)
        ensures
            r.terms.deep_view() == self.terms.deep_view().push("state:"@ + state.spec_str()),
    {
        let mut this = self;
        let mut term: Vec<char> = Vec::new();
        push_str_chars(&mut term, "state:");
        push_str_chars(&mut term, state.as_str());
        proof {
            assert(term@ =~= "state:"@ + state.spec_str());
        }
        this.push_term(term);
        this
    }

    /// Restricts matches to issues in the milestone titled `title`.
    pub fn milestone(self, title: &str) -> (r: SearchQueryBuilder)
        ensures
            r.terms.deep_view() == self.terms.deep_view().push(
                "milestone:\""@ + title@ + "\""@,
            ),
    {
        let mut this = self;
        let mut term: Vec<char> = Vec::new();
        push_str_chars(&mut term, "milestone:\"");
        push_str_chars(&mut term, title);
        push_str_chars(&mut term, "\"");
        proof {
            assert(term@ =~= "milestone:\""@ + title@ + "\""@);
        }
        this.push_term(term);
        this
    }

    /// Restricts matches to issues closed on or after the given date.
    pub fn closed_on_or_after(self, year: u32, month: u32, day: u32) -> (r: SearchQueryBuilder)
        ensures
            r.terms.deep_view() == self.terms.deep_view().push("state:closed"@).push(
                "closed:>="@ + spec_date(year, month, day),
            ),
    {
        let mut this = self;
        let mut closed: Vec<char> = Vec::new();
        push_str_chars(&mut closed, "state:closed");
        this.push_term(closed);
        let mut term: Vec<char> = Vec::new();
        push_str_chars(&mut term, "closed:>=");
        push_dec_pad(&mut term, year as u64, 4);
        push_str_chars(&mut term, "-");
        push_dec_pad(&mut term, month as u64, 2);
        push_str_chars(&mut term, "-");
        push_dec_pad(&mut term, day as u64, 2);
        proof {
            assert(term@ =~= "closed:>="@ + spec_date(year, month, day));
        }
        this.push_term(term);
        this
    }

    /// Restricts matches to the repository `owner`/`repo`.
    pub fn owner_repo(self, owner: &str, repo: &str) -> (r: SearchQueryBuilder)
        ensures
            r.terms.deep_view() == self.terms.deep_view().push(
                "repo:"@ + owner@ + "/"@ + repo@,
            ),
    {
        let mut this = self;
        let mut term: Vec<char> = Vec::new();
        push_str_chars(&mut term, "repo:");
        push_str_chars(&mut term, owner);
        push_str_chars(&mut term, "/");
        push_str_chars(&mut term, repo);
        proof {
            assert(term@ =~= "repo:"@ + owner@ + "/"@ + repo@);
        }
        this.push_term(term);
        this
    }

    /// Restricts matches to issues (as opposed to pull requests).
    pub fn issue(self) -> (r: SearchQueryBuilder)
        ensures
            r.terms.deep_view() == self.terms.deep_view().push("type:issue"@),
    {
        let mut this = self;
        let mut term: Vec<char> = Vec::new();
        push_str_chars(&mut term, "type:issue");
        this.push_term(term);
        this
    }

    /// Joins the accumulated terms with single spaces, in order.
    pub fn build(&self) -> (r: String)
        ensures
            r@ == spec_join_terms(self.terms.deep_view()),
    {
        let mut out: Vec<char> = Vec::new();
        let n: usize = self.terms.len();
        let mut i: usize = 0;
        while i < n
            invariant
                i <= n,
                n == self.terms@.len(),
                out@ == spec_join_terms(self.terms.deep_view().take(i as int)),
            decreases n - i,
        {
            if i > 0 {
                push_str_chars(&mut out, " ");
            }
            push_str_chars(&mut out, self.terms[i].as_str());
            proof {
                let ts = self.terms.deep_view();
                assert(ts.take(i as int + 1).drop_last() =~= ts.take(i as int));
                assert(ts.take(i as int + 1).last() == ts[i as int]);
                assert(out@ =~= spec_join_terms(ts.take(i as int + 1)));
            }
            i = i + 1;
        }
        proof {
            assert(self.terms.deep_view().take(n as int) =~= self.terms.deep_view());
        }
        chars_to_string(out)
    }
}

} // verus!
