//! The board/estimation backend: its data shapes, the payloads it accepts,
//! and the client that builds one authenticated request per endpoint.
//!
//! It shares the request signer and the response classifier with the
//! issue-tracking backend; only the endpoint layout and payloads differ.

use vstd::prelude::*;
use vstd::string::*;

use crate::error::Error;
use crate::github::{spec_client_id, spec_json_string, spec_path_request};
use crate::signer::{token_error_message, url_error_message, HttpRequest, Method, Signer};
use crate::text::{
    chars_to_string, fnv_text, push_dec, push_json_escaped, push_str_chars, spec_dec,
    valid_header_text, FNV_OFFSET,
};
use crate::urls::parsed_url;

verus! {

/// A sprint start date, as its wire text.
#[derive(Debug, Clone)]
pub struct StartDate {
    pub start_date: String,
}

/// The payload that sets a start date.
pub open spec fn spec_start_date_json(d: StartDate) -> Seq<char> {
    "{"@ + "\"start_date\":"@ + spec_json_string(d.start_date@) + "}"@
}

impl StartDate {
    /// Serializes this start date.
    pub fn to_json(&self) -> (r: String)
        ensures
            r@ == spec_start_date_json(*self),
    {
        let mut out: Vec<char> = Vec::new();
        push_str_chars(&mut out, "{");
        push_str_chars(&mut out, "\"start_date\":");
        push_str_chars(&mut out, "\"");
        push_json_escaped(&mut out, self.start_date.as_str());
        push_str_chars(&mut out, "\"");
        push_str_chars(&mut out, "}");
        proof {
            assert(out@ =~= spec_start_date_json(*self));
        }
        chars_to_string(out)
    }
}

/// A board workspace.
#[derive(Debug, Clone)]
pub struct Workspace {
    pub id: String,
    pub name: String,
}

/// A pipeline stage on a board.
#[derive(Debug, Clone)]
pub struct Pipeline {
    pub id: String,
    pub name: String,
}

/// A board: its pipeline stages, in order.
#[derive(Debug, Clone)]
pub struct Board {
    pub pipelines: Vec<Pipeline>,
}

/// Board metadata for one issue.
#[derive(Debug, Clone)]
pub struct Issue {
    pub estimate: Option<u32>,
    pub is_epic: bool,
}

/// A position in a pipeline stage.
#[derive(Debug, Clone)]
pub struct PipelinePosition {
    pub pipeline_id: String,
    pub position: String,
}

/// The payload that moves an issue to a pipeline position.
pub open spec fn spec_position_json(p: PipelinePosition) -> Seq<char> {
    "{"@ + "\"pipeline_id\":"@ + spec_json_string(p.pipeline_id@) + ","@ + "\"position\":"@
        + spec_json_string(p.position@) + "}"@
}

impl PipelinePosition {
    /// Serializes this position.
    pub fn to_json(&self) -> (r: String)
        ensures
            r@ == spec_position_json(*self),
    {
        let mut out: Vec<char> = Vec::new();
        push_str_chars(&mut out, "{");
        push_str_chars(&mut out, "\"pipeline_id\":");
        push_str_chars(&mut out, "\"");
        push_json_escaped(&mut out, self.pipeline_id.as_str());
        push_str_chars(&mut out, "\"");
        push_str_chars(&mut out, ",");
        push_str_chars(&mut out, "\"position\":");
        push_str_chars(&mut out, "\"");
        push_json_escaped(&mut out, self.position.as_str());
        push_str_chars(&mut out, "\"");
        push_str_chars(&mut out, "}");
        proof {
            assert(out@ =~= spec_position_json(*self));
        }
        chars_to_string(out)
    }
}

/// The payload that sets an estimate.
pub open spec fn spec_estimate_json(estimate: u32) -> Seq<char> {
    "{"@ + "\"estimate\":"@ + spec_dec(estimate as nat) + "}"@
}

/// Picks the first workspace of a repository's workspace list, if any.
pub fn first_workspace(workspaces: Vec<Workspace>) -> (r: Option<Workspace>)
    ensures
        match r {
            Some(w) => workspaces@.len() > 0 && w == workspaces@[0],
            None => workspaces@.len() == 0,
        },
{
    let mut ws = workspaces;
    if ws.len() > 0 {
        Some(ws.remove(0))
    } else {
        None
    }
}

// ---------------------------------------------------------------------------
// Endpoint paths
// ---------------------------------------------------------------------------

/// The endpoint path of a milestone's start date.
pub open spec fn spec_start_date_path(repo_id: nat, milestone_number: nat) -> Seq<char> {
    "/p1/repositories/"@ + spec_dec(repo_id) + "/milestones/"@ + spec_dec(milestone_number)
        + "/start_date"@
}

/// The endpoint path of a repository's workspaces.
pub open spec fn spec_workspaces_path(repo_id: nat) -> Seq<char> {
    "/p2/repositories/"@ + spec_dec(repo_id) + "/workspaces"@
}

/// The endpoint path of a repository's board in a workspace.
pub open spec fn spec_board_path(workspace_id: Seq<char>, repo_id: nat) -> Seq<char> {
    "/p2/workspaces/"@ + workspace_id + "/repositories/"@ + spec_dec(repo_id) + "/board"@
}

/// The endpoint path of one issue's board metadata.
pub open spec fn spec_issue_path(repo_id: nat, issue_number: nat) -> Seq<char> {
    "/p1/repositories/"@ + spec_dec(repo_id) + "/issues/"@ + spec_dec(issue_number)
}

/// The endpoint path of one issue's estimate.
pub open spec fn spec_estimate_path(repo_id: nat, issue_number: nat) -> Seq<char> {
    "/p1/repositories/"@ + spec_dec(repo_id) + "/issues/"@ + spec_dec(issue_number) + "/estimate"@
}

/// The endpoint path that moves one issue between pipeline stages.
pub open spec fn spec_moves_path(workspace_id: Seq<char>, repo_id: nat, issue_number: nat) -> Seq<
    char,
> {
    "/p2/workspaces/"@ + workspace_id + "/repositories/"@ + spec_dec(repo_id) + "/issues/"@
        + spec_dec(issue_number) + "/moves"@
}

// ---------------------------------------------------------------------------
// The client
// ---------------------------------------------------------------------------

/// The board/estimation backend client: a validated signer plus the
/// deterministic identity derived from its base URL and token.
#[derive(Debug)]
pub struct Client {
    pub id: u64,
    pub signer: Signer,
}

impl Client {
    /// Whether this client was built by `Client::new` from `url` and
    /// `token`.
    pub open spec fn wf_for(&self, url: Seq<char>, token: Seq<char>) -> bool {
        &&& self.signer.wf_for(url, token)
        &&& self.id == spec_client_id(url, token)
    }

    /// Create a new client that can make requests to the Zenhub API using
    /// token auth. Construction fails, and no client is produced, exactly
    /// when the token cannot be carried in the Authorization header or the
    /// base URL is not a valid absolute URL.
    pub fn new(url: &str, token: &str) -> (r: Result<Client, Error>)
        ensures
            r is Ok <==> valid_header_text(token@) && parsed_url(url@) is Some,
            match r {
                Ok(c) => c.wf_for(url@, token@),
                Err(e) => match e {
                    Error::Config { description } => {
                        if !valid_header_text(token@) {
                            description@ == token_error_message("Zenhub"@)
                        } else {
                            description@ == url_error_message("Zenhub"@, url@)
                        }
                    },
                    _ => false,
                },
            },
    {
        let signer = Signer::new("Zenhub", url, token)?;
        let h: u64 = fnv_text(FNV_OFFSET, url);
        let id: u64 = fnv_text(h, token);
        Ok(Client { id, signer })
    }

    /// Returns this client's identity.
    pub fn id(&self) -> (r: u64)
        ensures
            r == self.id,
    {
        self.id
    }

    /// Builds the request that gets the start date of a milestone.
    pub fn get_start_date_request(&self, repo_id: u64, milestone_number: u32) -> (r: Result<
        HttpRequest,
        Error,
    >)
        ensures
            spec_path_request(
                self.signer,
                Method::Get,
                spec_start_date_path(repo_id as nat, milestone_number as nat),
                None,
                r,
            ),
    {
        let mut path: Vec<char> = Vec::new();
        push_str_chars(&mut path, "/p1/repositories/");
        push_dec(&mut path, repo_id);
        push_str_chars(&mut path, "/milestones/");
        push_dec(&mut path, milestone_number as u64);
        push_str_chars(&mut path, "/start_date");
        proof {
            assert(path@ =~= spec_start_date_path(repo_id as nat, milestone_number as nat));
        }
        let p: String = chars_to_string(path);
        self.signer.signed_request(Method::Get, p.as_str())
    }

    /// Builds the request that sets the start date of a milestone.
    pub fn set_start_date_request(
        &self,
        repo_id: u64,
        milestone_number: u32,
        start_date: &StartDate,
    ) -> (r: Result<HttpRequest, Error>)
        ensures
            spec_path_request(
                self.signer,
                Method::Post,
                spec_start_date_path(repo_id as nat, milestone_number as nat),
                Some(spec_start_date_json(*start_date)),
                r,
            ),
    {
        let mut path: Vec<char> = Vec::new();
        push_str_chars(&mut path, "/p1/repositories/");
        push_dec(&mut path, repo_id);
        push_str_chars(&mut path, "/milestones/");
        push_dec(&mut path, milestone_number as u64);
        push_str_chars(&mut path, "/start_date");
        proof {
            assert(path@ =~= spec_start_date_path(repo_id as nat, milestone_number as nat));
        }
        let p: String = chars_to_string(path);
        let mut req = self.signer.signed_request(Method::Post, p.as_str())?;
        req.body = Some(start_date.to_json());
        Ok(req)
    }

    /// Builds the request that lists a repository's workspaces.
    pub fn get_workspaces_request(&self, repo_id: u64) -> (r: Result<HttpRequest, Error>)
        ensures
            spec_path_request(
                self.signer,
                Method::Get,
                spec_workspaces_path(repo_id as nat),
                None,
                r,
            ),
    {
        let mut path: Vec<char> = Vec::new();
        push_str_chars(&mut path, "/p2/repositories/");
        push_dec(&mut path, repo_id);
        push_str_chars(&mut path, "/workspaces");
        proof {
            assert(path@ =~= spec_workspaces_path(repo_id as nat));
        }
        let p: String = chars_to_string(path);
        self.signer.signed_request(Method::Get, p.as_str())
    }

    /// Builds the request that gets a repository's board in a workspace.
    pub fn get_board_request(&self, repo_id: u64, workspace_id: &str) -> (r: Result<
        HttpRequest,
        Error,
    >)
        ensures
            spec_path_request(
                self.signer,
                Method::Get,
                spec_board_path(workspace_id@, repo_id as nat),
                None,
                r,
            ),
    {
        let mut path: Vec<char> = Vec::new();
        push_str_chars(&mut path, "/p2/workspaces/");
        push_str_chars(&mut path, workspace_id);
        push_str_chars(&mut path, "/repositories/");
        push_dec(&mut path, repo_id);
        push_str_chars(&mut path, "/board");
        proof {
            assert(path@ =~= spec_board_path(workspace_id@, repo_id as nat));
        }
        let p: String = chars_to_string(path);
        self.signer.signed_request(Method::Get, p.as_str())
    }

    /// Builds the request that gets one issue's board metadata.
    pub fn get_issue_request(&self, repo_id: u64, issue_number: u32) -> (r: Result<
        HttpRequest,
        Error,
    >)
        ensures
            spec_path_request(
                self.signer,
                Method::Get,
                spec_issue_path(repo_id as nat, issue_number as nat),
                None,
                r,
            ),
    {
        let mut path: Vec<char> = Vec::new();
        push_str_chars(&mut path, "/p1/repositories/");
        push_dec(&mut path, repo_id);
        push_str_chars(&mut path, "/issues/");
        push_dec(&mut path, issue_number as u64);
        proof {
            assert(path@ =~= spec_issue_path(repo_id as nat, issue_number as nat));
        }
        let p: String = chars_to_string(path);
        self.signer.signed_request(Method::Get, p.as_str())
    }

    /// Builds the request that sets one issue's estimate.
    pub fn set_estimate_request(&self, repo_id: u64, issue_number: u32, estimate: u32) -> (r:
        Result<HttpRequest, Error>)
        ensures
            spec_path_request(
                self.signer,
                Method::Put,
                spec_estimate_path(repo_id as nat, issue_number as nat),
                Some(spec_estimate_json(estimate)),
                r,
            ),
    {
        let mut path: Vec<char> = Vec::new();
        push_str_chars(&mut path, "/p1/repositories/");
        push_dec(&mut path, repo_id);
        push_str_chars(&mut path, "/issues/");
        push_dec(&mut path, issue_number as u64);
        push_str_chars(&mut path, "/estimate");
        proof {
            assert(path@ =~= spec_estimate_path(repo_id as nat, issue_number as nat));
        }
        let p: String = chars_to_string(path);
        let mut req = self.signer.signed_request(Method::Put, p.as_str())?;
        let mut body: Vec<char> = Vec::new();
        push_str_chars(&mut body, "{");
        push_str_chars(&mut body, "\"estimate\":");
        push_dec(&mut body, estimate as u64);
        push_str_chars(&mut body, "}");
        proof {
            assert(body@ =~= spec_estimate_json(estimate));
        }
        req.body = Some(chars_to_string(body));
        Ok(req)
    }

    /// Builds the request that moves one issue to a pipeline position.
    pub fn move_issue_request(
        &self,
        repo_id: u64,
        workspace_id: &str,
        issue_number: u32,
        position: &PipelinePosition,
    ) -> (r: Result<HttpRequest, Error>)
        ensures
            spec_path_request(
                self.signer,
                Method::Post,
                spec_moves_path(workspace_id@, repo_id as nat, issue_number as nat),
                Some(spec_position_json(*position)),
                r,
            ),
    {
        let mut path: Vec<char> = Vec::new();
        push_str_chars(&mut path, "/p2/workspaces/");
        push_str_chars(&mut path, workspace_id);
        push_str_chars(&mut path, "/repositories/");
        push_dec(&mut path, repo_id);
        push_str_chars(&mut path, "/issues/");
        push_dec(&mut path, issue_number as u64);
        push_str_chars(&mut path, "/moves");
        proof {
            assert(path@ =~= spec_moves_path(workspace_id@, repo_id as nat, issue_number as nat));
        }
        let p: String = chars_to_string(path);
        let mut req = self.signer.signed_request(Method::Post, p.as_str())?;
        req.body = Some(position.to_json());
        Ok(req)
    }
}

} // verus!
