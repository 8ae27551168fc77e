//! The issue-tracking backend: its data shapes, the tri-state update
//! objects with their exact serialization rule, and the client that builds
//! one authenticated request per endpoint.
//!
//! Dates travel through this layer as their wire text; nothing here
//! interprets them.

use vstd::prelude::*;
use vstd::string::*;

use crate::error::Error;
use crate::query::{spec_query_string, build_query_string, SearchIssues, State};
use crate::signer::{
    path_error_message, signed_headers, token_error_message, url_error_message, HttpRequest,
    Method, Signer,
};
use crate::text::{
    chars_to_string, push_dec, push_json_escaped, push_str_chars, spec_dec, spec_fnv_text,
    spec_json_escape, valid_header_text, fnv_text, FNV_OFFSET,
};
use crate::urls::{joined_url, parsed_url};

verus! {

// ---------------------------------------------------------------------------
// Data shapes
// ---------------------------------------------------------------------------

/// A Github Milestone. `due_on` is the wire text of the due date.
#[derive(Debug, Clone)]
pub struct Milestone {
    pub id: u32,
    pub number: u32,
    pub title: String,
    pub state: String,
    pub due_on: String,
}

impl Milestone {
    /// Returns the one-line account of this milestone: title and state.
    pub fn display(&self) -> (r: String)
        ensures
            r@ == self.title@ + " ("@ + self.state@ + ")"@,
    {
        let mut out: Vec<char> = Vec::new();
        push_str_chars(&mut out, self.title.as_str());
        push_str_chars(&mut out, " (");
        push_str_chars(&mut out, self.state.as_str());
        push_str_chars(&mut out, ")");
        proof {
            assert(out@ =~= self.title@ + " ("@ + self.state@ + ")"@);
        }
        chars_to_string(out)
    }
}

/// A member reference in an Organisation.
#[derive(Debug, Clone)]
pub struct OrganisationMember {
    pub login: String,
    pub id: u32,
}

/// A Github User.
#[derive(Debug, Clone)]
pub struct User {
    pub login: String,
    pub id: u32,
    pub name: String,
}

/// A Github Issue. The timestamps are the wire text of the dates.
#[derive(Debug, Clone)]
pub struct Issue {
    pub id: u32,
    pub number: u32,
    pub state: String,
    pub title: String,
    pub milestone: Option<Milestone>,
    pub assignees: Vec<OrganisationMember>,
    pub created_at: String,
    pub updated_at: String,
    pub closed_at: Option<String>,
}

impl Issue {
    /// Returns the one-line account of this issue: number and title.
    pub fn display(&self) -> (r: String)
        ensures
            r@ == spec_dec(self.number as nat) + ": "@ + self.title@,
    {
        let mut out: Vec<char> = Vec::new();
        push_dec(&mut out, self.number as u64);
        push_str_chars(&mut out, ": ");
        push_str_chars(&mut out, self.title.as_str());
        proof {
            assert(out@ =~= spec_dec(self.number as nat) + ": "@ + self.title@);
        }
        chars_to_string(out)
    }
}

/// A Github Repository.
#[derive(Debug, Clone)]
pub struct Repository {
    pub id: u64,
    pub name: String,
}

/// A response from the Github search API: one page of results, and whether
/// the backend itself truncated the result set.
#[derive(Debug)]
pub struct GithubSearchResults<T> {
    pub incomplete_results: bool,
    pub items: Vec<T>,
}

// ---------------------------------------------------------------------------
// Update objects: explicit three-state fields
// ---------------------------------------------------------------------------

/// One field of a patch-style update: left untouched, set to a value, or
/// explicitly cleared. An untouched field is entirely absent from the
/// outgoing payload; a cleared one is sent as an explicit `null`.
#[derive(Debug, Clone)]
pub enum FieldUpdate<T> {
    Unset,
    Value(T),
    Clear,
}

/// A JSON string literal holding the text `s`.
pub open spec fn spec_json_string(s: Seq<char>) -> Seq<char> {
    "\""@ + spec_json_escape(s) + "\""@
}

/// JSON texts joined by commas, in order.
pub open spec fn spec_join_comma(ts: Seq<Seq<char>>) -> Seq<char>
    decreases ts.len(),
{
    if ts.len() == 0 {
        Seq::empty()
    } else if ts.len() == 1 {
        ts[0]
    } else {
        spec_join_comma(ts.drop_last()) + ","@ + ts.last()
    }
}

/// A JSON object holding exactly `fields`, in order.
pub open spec fn spec_json_object(fields: Seq<Seq<char>>) -> Seq<char> {
    "{"@ + spec_join_comma(fields) + "}"@
}

/// A JSON array of string literals holding `items`, in order.
pub open spec fn spec_string_array(items: Seq<Seq<char>>) -> Seq<char> {
    "["@ + spec_join_comma(items.map_values(|s: Seq<char>| spec_json_string(s))) + "]"@
}

/// Appends the already-built texts in `fields`, joined by commas.
fn push_join_comma(out: &mut Vec<char>, fields: &Vec<String>)
    ensures
        final(out)@ == old(out)@ + spec_join_comma(fields.deep_view()),
{
    let n: usize = fields.len();
    let mut i: usize = 0;
    while i < n
        invariant
            i <= n,
            n == fields@.len(),
            out@ == old(out)@ + spec_join_comma(fields.deep_view().take(i as int)),
        decreases n - i,
    {
        if i > 0 {
            push_str_chars(out, ",");
        }
        push_str_chars(out, fields[i].as_str());
        proof {
            let ts = fields.deep_view();
            assert(ts.take(i as int + 1).drop_last() =~= ts.take(i as int));
            assert(ts.take(i as int + 1).last() == ts[i as int]);
            assert(out@ =~= old(out)@ + spec_join_comma(ts.take(i as int + 1)));
        }
        i = i + 1;
    }
    proof {
        assert(fields.deep_view().take(n as int) =~= fields.deep_view());
    }
}

/// Appends the JSON array of string literals holding `items`.
fn push_string_array(out: &mut Vec<char>, items: &Vec<String>)
    ensures
        final(out)@ == old(out)@ + spec_string_array(items.deep_view()),
{
    push_str_chars(out, "[");
    let n: usize = items.len();
    let mut i: usize = 0;
    while i < n
        invariant
            i <= n,
            n == items@.len(),
            out@ == old(out)@ + "["@ + spec_join_comma(
                items.deep_view().take(i as int).map_values(|s: Seq<char>| spec_json_string(s)),
            ),
        decreases n - i,
    {
        if i > 0 {
            push_str_chars(out, ",");
        }
        push_str_chars(out, "\"");
        push_json_escaped(out, items[i].as_str());
        push_str_chars(out, "\"");
        proof {
            let f = |s: Seq<char>| spec_json_string(s);
            let dv = items.deep_view();
            assert(dv.take(i as int + 1).map_values(f).drop_last() =~= dv.take(i as int).map_values(
                f,
            ));
            assert(dv.take(i as int + 1).map_values(f).last() == f(dv[i as int]));
            assert(out@ =~= old(out)@ + "["@ + spec_join_comma(dv.take(i as int + 1).map_values(f)));
        }
        i = i + 1;
    }
    push_str_chars(out, "]");
    proof {
        let f = |s: Seq<char>| spec_json_string(s);
        assert(items.deep_view().take(n as int).map_values(f) =~= items.deep_view().map_values(f));
        assert(out@ =~= old(out)@ + spec_string_array(items.deep_view()));
    }
}

/// Update an issue. Fields the caller leaves unset are entirely absent from
/// the payload; a cleared milestone is sent as an explicit `null`.
#[derive(Debug)]
pub struct IssueUpdate {
    pub milestone: FieldUpdate<u32>,
    pub assignees: FieldUpdate<Vec<String>>,
}

/// The serialized `milestone` field of an issue update, where present.
pub open spec fn spec_milestone_field(f: FieldUpdate<u32>) -> Seq<char> {
    match f {
        FieldUpdate::Unset => Seq::empty(),
        FieldUpdate::Value(n) => "\"milestone\":"@ + spec_dec(n as nat),
        FieldUpdate::Clear => "\"milestone\":null"@,
    }
}

/// The serialized `assignees` field of an issue update, where present.
pub open spec fn spec_assignees_field(f: FieldUpdate<Vec<String>>) -> Seq<char> {
    match f {
        FieldUpdate::Unset => Seq::empty(),
        FieldUpdate::Value(v) => "\"assignees\":"@ + spec_string_array(v.deep_view()),
        FieldUpdate::Clear => "\"assignees\":null"@,
    }
}

/// The serialized fields of an issue update: exactly the ones not left
/// unset, in declaration order.
pub open spec fn spec_issue_update_fields(u: IssueUpdate) -> Seq<Seq<char>> {
    let f0 = Seq::<Seq<char>>::empty();
    let f1 = if (u.milestone matches FieldUpdate::Unset) {
        f0
    } else {
        f0.push(spec_milestone_field(u.milestone))
    };
    if (u.assignees matches FieldUpdate::Unset) {
        f1
    } else {
        f1.push(spec_assignees_field(u.assignees))
    }
}

/// The payload of an issue update.
pub open spec fn spec_issue_update_json(u: IssueUpdate) -> Seq<char> {
    spec_json_object(spec_issue_update_fields(u))
}

impl IssueUpdate {
    /// An update that touches nothing.
    pub fn new() -> (r: IssueUpdate)
        ensures
            r.milestone matches FieldUpdate::Unset,
            r.assignees matches FieldUpdate::Unset,
    {
        IssueUpdate { milestone: FieldUpdate::Unset, assignees: FieldUpdate::Unset }
    }

    /// Serializes this update: only fields the caller set appear, and a
    /// cleared field appears as an explicit `null`.
    pub fn to_json(&self) -> (r: String)
        ensures
            r@ == spec_issue_update_json(*self),
    {
        let mut fields: Vec<String> = Vec::new();
        match &self.milestone {
            FieldUpdate::Unset => {},
            FieldUpdate::Value(n) => {
                let mut f: Vec<char> = Vec::new();
                push_str_chars(&mut f, "\"milestone\":");
                push_dec(&mut f, *n as u64);
                proof {
                    assert(f@ =~= spec_milestone_field(self.milestone));
                }
                fields.push(chars_to_string(f));
            },
            FieldUpdate::Clear => {
                let mut f: Vec<char> = Vec::new();
                push_str_chars(&mut f, "\"milestone\":null");
                proof {
                    assert(f@ =~= spec_milestone_field(self.milestone));
                }
                fields.push(chars_to_string(f));
            },
        }
        proof {
            assert(fields.deep_view() =~= spec_issue_update_fields(*self).take(
                fields.deep_view().len() as int,
            ));
        }
        match &self.assignees {
            FieldUpdate::Unset => {},
            FieldUpdate::Value(v) => {
                let mut f: Vec<char> = Vec::new();
                push_str_chars(&mut f, "\"assignees\":");
                push_string_array(&mut f, v);
                proof {
                    assert(f@ =~= spec_assignees_field(self.assignees));
                }
                fields.push(chars_to_string(f));
            },
            FieldUpdate::Clear => {
                let mut f: Vec<char> = Vec::new();
                push_str_chars(&mut f, "\"assignees\":null");
                proof {
                    assert(f@ =~= spec_assignees_field(self.assignees));
                }
                fields.push(chars_to_string(f));
            },
        }
        proof {
            assert(fields.deep_view() =~= spec_issue_update_fields(*self));
        }
        let mut out: Vec<char> = Vec::new();
        push_str_chars(&mut out, "{");
        push_join_comma(&mut out, &fields);
        push_str_chars(&mut out, "}");
        proof {
            assert(out@ =~= spec_issue_update_json(*self));
        }
        chars_to_string(out)
    }
}

/// Update a milestone. Fields the caller leaves unset are entirely absent
/// from the payload.
#[derive(Debug)]
pub struct MilestoneUpdate {
    pub title: FieldUpdate<String>,
    pub state: FieldUpdate<State>,
    pub due_on: FieldUpdate<String>,
}

/// The serialized `title` field of a milestone update, where present.
pub open spec fn spec_title_field(f: FieldUpdate<String>) -> Seq<char> {
    match f {
        FieldUpdate::Unset => Seq::empty(),
        FieldUpdate::Value(t) => "\"title\":"@ + spec_json_string(t@),
        FieldUpdate::Clear => "\"title\":null"@,
    }
}

/// The serialized `state` field of a milestone update, where present.
pub open spec fn spec_state_field(f: FieldUpdate<State>) -> Seq<char> {
    match f {
        FieldUpdate::Unset => Seq::empty(),
        FieldUpdate::Value(s) => "\"state\":\""@ + s.spec_str() + "\""@,
        FieldUpdate::Clear => "\"state\":null"@,
    }
}

/// The serialized `due_on` field of a milestone update, where present.
pub open spec fn spec_due_on_field(f: FieldUpdate<String>) -> Seq<char> {
    match f {
        FieldUpdate::Unset => Seq::empty(),
        FieldUpdate::Value(t) => "\"due_on\":"@ + spec_json_string(t@),
        FieldUpdate::Clear => "\"due_on\":null"@,
    }
}

/// The serialized fields of a milestone update: exactly the ones not left
/// unset, in declaration order.
pub open spec fn spec_milestone_update_fields(u: MilestoneUpdate) -> Seq<Seq<char>> {
    let f0 = Seq::<Seq<char>>::empty();
    let f1 = if (u.title matches FieldUpdate::Unset) {
        f0
    } else {
        f0.push(spec_title_field(u.title))
    };
    let f2 = if (u.state matches FieldUpdate::Unset) {
        f1
    } else {
        f1.push(spec_state_field(u.state))
    };
    if (u.due_on matches FieldUpdate::Unset) {
        f2
    } else {
        f2.push(spec_due_on_field(u.due_on))
    }
}

/// The payload of a milestone update.
pub open spec fn spec_milestone_update_json(u: MilestoneUpdate) -> Seq<char> {
    spec_json_object(spec_milestone_update_fields(u))
}

impl MilestoneUpdate {
    /// An update that touches nothing.
    pub fn new() -> (r: MilestoneUpdate)
        ensures
            r.title matches FieldUpdate::Unset,
            r.state matches FieldUpdate::Unset,
            r.due_on matches FieldUpdate::Unset,
    {
        MilestoneUpdate {
            title: FieldUpdate::Unset,
            state: FieldUpdate::Unset,
            due_on: FieldUpdate::Unset,
        }
    }

    /// Serializes this update: only fields the caller set appear, and a
    /// cleared field appears as an explicit `null`.
    pub fn to_json(&self) -> (r: String)
        ensures
            r@ == spec_milestone_update_json(*self),
    {
        let mut fields: Vec<String> = Vec::new();
        match &self.title {
            FieldUpdate::Unset => {},
            FieldUpdate::Value(t) => {
                let mut f: Vec<char> = Vec::new();
                push_str_chars(&mut f, "\"title\":");
                push_str_chars(&mut f, "\"");
                push_json_escaped(&mut f, t.as_str());
                push_str_chars(&mut f, "\"");
                proof {
                    assert(f@ =~= spec_title_field(self.title));
                }
                fields.push(chars_to_string(f));
            },
            FieldUpdate::Clear => {
                let mut f: Vec<char> = Vec::new();
                push_str_chars(&mut f, "\"title\":null");
                proof {
                    assert(f@ =~= spec_title_field(self.title));
                }
                fields.push(chars_to_string(f));
            },
        }
        proof {
            assert(fields.deep_view() =~= spec_milestone_update_fields(*self).take(
                fields.deep_view().len() as int,
            ));
        }
        match &self.state {
            FieldUpdate::Unset => {},
            FieldUpdate::Value(s) => {
                let mut f: Vec<char> = Vec::new();
                push_str_chars(&mut f, "\"state\":\"");
                push_str_chars(&mut f, s.as_str());
                push_str_chars(&mut f, "\"");
                proof {
                    assert(f@ =~= spec_state_field(self.state));
                }
                fields.push(chars_to_string(f));
            },
            FieldUpdate::Clear => {
                let mut f: Vec<char> = Vec::new();
                push_str_chars(&mut f, "\"state\":null");
                proof {
                    assert(f@ =~= spec_state_field(self.state));
                }
                fields.push(chars_to_string(f));
            },
        }
        proof {
            assert(fields.deep_view() =~= spec_milestone_update_fields(*self).take(
                fields.deep_view().len() as int,
            ));
        }
        match &self.due_on {
            FieldUpdate::Unset => {},
            FieldUpdate::Value(t) => {
                let mut f: Vec<char> = Vec::new();
                push_str_chars(&mut f, "\"due_on\":");
                push_str_chars(&mut f, "\"");
                push_json_escaped(&mut f, t.as_str());
                push_str_chars(&mut f, "\"");
                proof {
                    assert(f@ =~= spec_due_on_field(self.due_on));
                }
                fields.push(chars_to_string(f));
            },
            FieldUpdate::Clear => {
                let mut f: Vec<char> = Vec::new();
                push_str_chars(&mut f, "\"due_on\":null");
                proof {
                    assert(f@ =~= spec_due_on_field(self.due_on));
                }
                fields.push(chars_to_string(f));
            },
        }
        proof {
            assert(fields.deep_view() =~= spec_milestone_update_fields(*self));
        }
        let mut out: Vec<char> = Vec::new();
        push_str_chars(&mut out, "{");
        push_join_comma(&mut out, &fields);
        push_str_chars(&mut out, "}");
        proof {
            assert(out@ =~= spec_milestone_update_json(*self));
        }
        chars_to_string(out)
    }
}

/// An update that only clears the milestone serializes to exactly
/// `{"milestone":null}`: the `assignees` key is omitted entirely, and the
/// cleared milestone travels as an explicit `null`, never as an absent
/// field.
pub proof fn lemma_clear_milestone_payload(u: IssueUpdate)
    requires
        u.milestone matches FieldUpdate::Clear,
        u.assignees matches FieldUpdate::Unset,
    ensures
        spec_issue_update_json(u) == "{\"milestone\":null}"@,
{
    reveal_strlit("{");
    reveal_strlit("}");
    reveal_strlit("\"milestone\":null");
    reveal_strlit("{\"milestone\":null}");
    assert(spec_issue_update_fields(u) =~= seq!["\"milestone\":null"@]);
    assert(spec_join_comma(seq!["\"milestone\":null"@]) == "\"milestone\":null"@);
    assert(spec_issue_update_json(u) =~= "{\"milestone\":null}"@);
}

// ---------------------------------------------------------------------------
// The client
// ---------------------------------------------------------------------------

/// The identity of a backend client built from `url` and `token`: the same
/// inputs always yield the same identity.
pub open spec fn spec_client_id(url: Seq<char>, token: Seq<char>) -> u64 {
    spec_fnv_text(spec_fnv_text(FNV_OFFSET, url), token)
}

/// The endpoint path of one issue.
pub open spec fn spec_issue_path(owner: Seq<char>, repo: Seq<char>, number: nat) -> Seq<char> {
    "/repos/"@ + owner + "/"@ + repo + "/issues/"@ + spec_dec(number)
}

/// The endpoint path of one repository.
pub open spec fn spec_repo_path(owner: Seq<char>, repo: Seq<char>) -> Seq<char> {
    "/repos/"@ + owner + "/"@ + repo
}

/// The endpoint path of an organisation's members.
pub open spec fn spec_members_path(organisation: Seq<char>) -> Seq<char> {
    "orgs/"@ + organisation + "/members"@
}

/// The endpoint path of a repository's milestones.
pub open spec fn spec_milestones_path(owner: Seq<char>, repo: Seq<char>) -> Seq<char> {
    "/repos/"@ + owner + "/"@ + repo + "/milestones"@
}

/// The endpoint path of one milestone.
pub open spec fn spec_milestone_path(owner: Seq<char>, repo: Seq<char>, number: nat) -> Seq<char> {
    "/repos/"@ + owner + "/"@ + repo + "/milestones/"@ + spec_dec(number)
}

/// The endpoint path, query string included, of one search page.
pub open spec fn spec_search_path(q: SearchIssues, page: u32) -> Seq<char> {
    "search/issues?"@ + spec_query_string(q, page)
}

/// Whether `r` is the outcome of building a signed `method` request for
/// `path` against `signer`, carrying `body`: on success the resolved,
/// authenticated request, and otherwise the loud configuration error for a
/// path that cannot be resolved against the base URL.
pub open spec fn spec_path_request(
    signer: Signer,
    method: Method,
    path: Seq<char>,
    body: Option<Seq<char>>,
    r: Result<HttpRequest, Error>,
) -> bool {
    match r {
        Ok(req) => {
            &&& req.method == method
            &&& joined_url(signer.base_url@, path) == Some(req.url@)
            &&& signed_headers(req.headers@, signer.auth@)
            &&& match body {
                Some(b) => req.body matches Some(s) && s@ == b,
                None => req.body is None,
            }
        },
        Err(e) => joined_url(signer.base_url@, path) is None && (e matches Error::Config {
            description,
        } && description@ == path_error_message(path)),
    }
}

/// The issue-tracking backend client: a validated signer plus the
/// deterministic identity derived from its base URL and token.
#[derive(Debug)]
pub struct Client {
    pub id: u64,
    pub signer: Signer,
}

impl Client {
    /// Whether this client was built by `Client::new` from `url` and
    /// `token`.
    pub open spec fn wf_for(&self, url: Seq<char>, token: Seq<char>) -> bool {
        &&& self.signer.wf_for(url, token)
        &&& self.id == spec_client_id(url, token)
    }

    /// Create a new client that can make requests to the Github API using
    /// token auth. Construction fails, and no client is produced, exactly
    /// when the token cannot be carried in the Authorization header or the
    /// base URL is not a valid absolute URL.
    pub fn new(url: &str, token: &str) -> (r: Result<Client, Error>)
        ensures
            r is Ok <==> valid_header_text(token@) && parsed_url(url@) is Some,
            match r {
                Ok(c) => c.wf_for(url@, token@),
                Err(e) => match e {
                    Error::Config { description } => {
                        if !valid_header_text(token@) {
                            description@ == token_error_message("Github"@)
                        } else {
                            description@ == url_error_message("Github"@, url@)
                        }
                    },
                    _ => false,
                },
            },
    {
        let signer = Signer::new("Github", url, token)?;
        let h: u64 = fnv_text(FNV_OFFSET, url);
        let id: u64 = fnv_text(h, token);
        Ok(Client { id, signer })
    }

    /// Two clients built from the same base URL and token have the same
    /// identity; the fingerprint is a function of those inputs alone.
    pub proof fn lemma_identity_deterministic(c1: Client, c2: Client, url: Seq<char>, token: Seq<char>)
        requires
            c1.wf_for(url, token),
            c2.wf_for(url, token),
        ensures
            c1.id == c2.id,
    {
    }

    /// Returns this client's identity.
    pub fn id(&self) -> (r: u64)
        ensures
            r == self.id,
    {
        self.id
    }

    /// Builds an authenticated request for an already-resolved URL.
    pub fn request(&self, method: Method, url: String) -> (r: HttpRequest)
        ensures
            r.method == method,
            r.url@ == url@,
            signed_headers(r.headers@, self.signer.auth@),
            r.body is None,
    {
        self.signer.request(method, url)
    }

    /// Builds the request that gets an issue by owner, repo name and issue
    /// number.
    pub fn get_issue_request(&self, owner: &str, repo: &str, issue_number: u32) -> (r: Result<
        HttpRequest,
        Error,
    >)
        ensures
            spec_path_request(
                self.signer,
                Method::Get,
                spec_issue_path(owner@, repo@, issue_number as nat),
                None,
                r,
            ),
    {
        let mut path: Vec<char> = Vec::new();
        push_str_chars(&mut path, "/repos/");
        push_str_chars(&mut path, owner);
        push_str_chars(&mut path, "/");
        push_str_chars(&mut path, repo);
        push_str_chars(&mut path, "/issues/");
        push_dec(&mut path, issue_number as u64);
        proof {
            assert(path@ =~= spec_issue_path(owner@, repo@, issue_number as nat));
        }
        let p: String = chars_to_string(path);
        self.signer.signed_request(Method::Get, p.as_str())
    }

    /// Builds the request that gets a repository by owner and repo name.
    pub fn get_repository_request(&self, owner: &str, repo: &str) -> (r: Result<
        HttpRequest,
        Error,
    >)
        ensures
            spec_path_request(self.signer, Method::Get, spec_repo_path(owner@, repo@), None, r),
    {
        let mut path: Vec<char> = Vec::new();
        push_str_chars(&mut path, "/repos/");
        push_str_chars(&mut path, owner);
        push_str_chars(&mut path, "/");
        push_str_chars(&mut path, repo);
        proof {
            assert(path@ =~= spec_repo_path(owner@, repo@));
        }
        let p: String = chars_to_string(path);
        self.signer.signed_request(Method::Get, p.as_str())
    }

    /// Builds the request that gets members by organisation.
    pub fn get_members_request(&self, organisation: &str) -> (r: Result<HttpRequest, Error>)
        ensures
            spec_path_request(self.signer, Method::Get, spec_members_path(organisation@), None, r),
    {
        let mut path: Vec<char> = Vec::new();
        push_str_chars(&mut path, "orgs/");
        push_str_chars(&mut path, organisation);
        push_str_chars(&mut path, "/members");
        proof {
            assert(path@ =~= spec_members_path(organisation@));
        }
        let p: String = chars_to_string(path);
        self.signer.signed_request(Method::Get, p.as_str())
    }

    /// Builds the request that gets milestones by owner and repo name.
    pub fn get_milestones_request(&self, owner: &str, repo: &str) -> (r: Result<
        HttpRequest,
        Error,
    >)
        ensures
            spec_path_request(
                self.signer,
                Method::Get,
                spec_milestones_path(owner@, repo@),
                None,
                r,
            ),
    {
        let mut path: Vec<char> = Vec::new();
        push_str_chars(&mut path, "/repos/");
        push_str_chars(&mut path, owner);
        push_str_chars(&mut path, "/");
        push_str_chars(&mut path, repo);
        push_str_chars(&mut path, "/milestones");
        proof {
            assert(path@ =~= spec_milestones_path(owner@, repo@));
        }
        let p: String = chars_to_string(path);
        self.signer.signed_request(Method::Get, p.as_str())
    }

    /// Builds the request that updates an issue: only the fields the
    /// caller set travel in the payload.
    pub fn patch_issue_request(
        &self,
        owner: &str,
        repo: &str,
        issue_number: u32,
        update: &IssueUpdate,
    ) -> (r: Result<HttpRequest, Error>)
        ensures
            spec_path_request(
                self.signer,
                Method::Patch,
                spec_issue_path(owner@, repo@, issue_number as nat),
                Some(spec_issue_update_json(*update)),
                r,
            ),
    {
        let mut path: Vec<char> = Vec::new();
        push_str_chars(&mut path, "/repos/");
        push_str_chars(&mut path, owner);
        push_str_chars(&mut path, "/");
        push_str_chars(&mut path, repo);
        push_str_chars(&mut path, "/issues/");
        push_dec(&mut path, issue_number as u64);
        proof {
            assert(path@ =~= spec_issue_path(owner@, repo@, issue_number as nat));
        }
        let p: String = chars_to_string(path);
        let mut req = self.signer.signed_request(Method::Patch, p.as_str())?;
        req.body = Some(update.to_json());
        Ok(req)
    }

    /// Builds the request that creates a milestone.
    pub fn create_milestone_request(&self, owner: &str, repo: &str, update: &MilestoneUpdate) -> (r:
        Result<HttpRequest, Error>)
        ensures
            spec_path_request(
                self.signer,
                Method::Post,
                spec_milestones_path(owner@, repo@),
                Some(spec_milestone_update_json(*update)),
                r,
            ),
    {
        let mut path: Vec<char> = Vec::new();
        push_str_chars(&mut path, "/repos/");
        push_str_chars(&mut path, owner);
        push_str_chars(&mut path, "/");
        push_str_chars(&mut path, repo);
        push_str_chars(&mut path, "/milestones");
        proof {
            assert(path@ =~= spec_milestones_path(owner@, repo@));
        }
        let p: String = chars_to_string(path);
        let mut req = self.signer.signed_request(Method::Post, p.as_str())?;
        req.body = Some(update.to_json());
        Ok(req)
    }

    /// Builds the request that updates a milestone: only the fields the
    /// caller set travel in the payload.
    pub fn patch_milestone_request(
        &self,
        owner: &str,
        repo: &str,
        milestone_number: u32,
        update: &MilestoneUpdate,
    ) -> (r: Result<HttpRequest, Error>)
        ensures
            spec_path_request(
                self.signer,
                Method::Patch,
                spec_milestone_path(owner@, repo@, milestone_number as nat),
                Some(spec_milestone_update_json(*update)),
                r,
            ),
    {
        let mut path: Vec<char> = Vec::new();
        push_str_chars(&mut path, "/repos/");
        push_str_chars(&mut path, owner);
        push_str_chars(&mut path, "/");
        push_str_chars(&mut path, repo);
        push_str_chars(&mut path, "/milestones/");
        push_dec(&mut path, milestone_number as u64);
        proof {
            assert(path@ =~= spec_milestone_path(owner@, repo@, milestone_number as nat));
        }
        let p: String = chars_to_string(path);
        let mut req = self.signer.signed_request(Method::Patch, p.as_str())?;
        req.body = Some(update.to_json());
        Ok(req)
    }

    /// Builds the request that fetches one page of an issue search. Absent
    /// optional parameters are omitted from the query string entirely.
    pub fn search_issues_request(&self, query: &SearchIssues, page: u32) -> (r: Result<
        HttpRequest,
        Error,
    >)
        ensures
            spec_path_request(self.signer, Method::Get, spec_search_path(*query, page), None, r),
    {
        let mut path: Vec<char> = Vec::new();
        push_str_chars(&mut path, "search/issues?");
        let qs: String = build_query_string(query, page);
        push_str_chars(&mut path, qs.as_str());
        proof {
            assert(path@ =~= spec_search_path(*query, page));
        }
        let p: String = chars_to_string(path);
        self.signer.signed_request(Method::Get, p.as_str())
    }
}

} // verus!
