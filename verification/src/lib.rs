//! A sprint-management client core: an authenticated-request / response
//! layer shared by two REST backends — an issue tracker and a
//! board/estimation service — plus the lazy multi-page search sequence
//! built on top of it.
//!
//! Nothing in this crate performs a network call. Every operation is split
//! into building the exact signed request, and classifying the response
//! that some outside transport obtained; the paginated search is a cursor
//! that asks its consumer for one fetch at a time.

pub mod classify;
pub mod error;
pub mod github;
pub mod paginate;
pub mod query;
pub mod signer;
mod text;
mod urls;
pub mod zenhub;

use vstd::prelude::*;
use vstd::string::*;

use crate::error::Error;
use crate::github::{
    spec_issue_path, spec_json_object, spec_json_string, spec_members_path, spec_milestone_path,
    spec_milestones_path, spec_path_request, spec_repo_path, spec_string_array, FieldUpdate,
    Issue, IssueUpdate, Milestone, MilestoneUpdate, OrganisationMember, Repository,
};
use crate::paginate::{cursor_start, PaginatedSearch};
use crate::query::{spec_join_terms, Direction, SearchIssues, SearchQueryBuilder, State};
use crate::signer::{HttpRequest, Method};
use crate::text::{
    chars_to_string, fnv_step, fnv_text, push_str_chars, spec_dec, spec_fnv_step, spec_fnv_text,
    FNV_OFFSET,
};
use crate::zenhub::{
    spec_board_path, spec_estimate_json, spec_estimate_path, spec_moves_path,
    spec_start_date_json, spec_start_date_path, spec_workspaces_path, Pipeline, StartDate,
    Workspace,
};

verus! {

/// A sprint: a milestone of the issue tracker together with its start date
/// on the board service.
#[derive(Debug, Clone)]
pub struct Sprint {
    pub milestone: Milestone,
    pub start_date: StartDate,
}

/// Assembles a sprint from a milestone and the start date fetched for it.
pub fn make_sprint(milestone: Milestone, start_date: StartDate) -> (r: Sprint)
    ensures
        r.milestone == milestone,
        r.start_date == start_date,
{
    Sprint { milestone, start_date }
}

/// The identity of an orchestration client: derived deterministically from
/// its owner/repository context and both backend clients' identities.
pub open spec fn spec_orchestration_id(
    owner: Seq<char>,
    repo: Seq<char>,
    github_id: u64,
    zenhub_id: u64,
) -> u64 {
    spec_fnv_step(
        spec_fnv_step(spec_fnv_text(spec_fnv_text(FNV_OFFSET, owner), repo), github_id),
        zenhub_id,
    )
}

/// The payload that creates a sprint's milestone: its title and due date,
/// nothing else.
pub open spec fn spec_sprint_milestone_json(
    sprint_number: Seq<char>,
    due_on: Seq<char>,
) -> Seq<char> {
    spec_json_object(
        seq![
            "\"title\":"@ + spec_json_string("Sprint "@ + sprint_number),
            "\"due_on\":"@ + spec_json_string(due_on),
        ],
    )
}

/// Orchestration client, used to abstract complex tasks over several APIs:
/// holds the owner/repository context and both backend clients, and builds
/// every request of a cross-API operation. It performs no retries and no
/// compensating actions: its caller sequences the calls.
#[derive(Debug)]
pub struct Client<'a> {
    pub owner: &'a str,
    pub repo: &'a str,
    pub github: &'a github::Client,
    pub zenhub: &'a zenhub::Client,
    pub id: u64,
}

impl<'a> Client<'a> {
    /// Create a new orchestration client over both backend clients.
    pub fn new(
        owner: &'a str,
        repo: &'a str,
        github: &'a github::Client,
        zenhub: &'a zenhub::Client,
    ) -> (r: Result<Client<'a>, Error>)
        ensures
            r matches Ok(c) && c.owner@ == owner@ && c.repo@ == repo@ && c.github == github
                && c.zenhub == zenhub && c.id == spec_orchestration_id(
                owner@,
                repo@,
                github.id,
                zenhub.id,
            ),
    {
        let h0: u64 = fnv_text(FNV_OFFSET, owner);
        let h1: u64 = fnv_text(h0, repo);
        let h2: u64 = fnv_step(h1, github.id());
        let id: u64 = fnv_step(h2, zenhub.id());
        Ok(Client { owner, repo, github, zenhub, id })
    }

    /// Returns the owner context.
    pub fn owner(&self) -> (r: &str)
        ensures
            r@ == self.owner@,
    {
        self.owner
    }

    /// Returns the repository context.
    pub fn repo(&self) -> (r: &str)
        ensures
            r@ == self.repo@,
    {
        self.repo
    }

    /// Builds the request that gets the board start date of a milestone.
    pub fn get_start_date_request(&self, repository: &Repository, milestone: &Milestone) -> (r:
        Result<HttpRequest, Error>)
        ensures
            spec_path_request(
                self.zenhub.signer,
                Method::Get,
                spec_start_date_path(repository.id as nat, milestone.number as nat),
                None,
                r,
            ),
    {
        self.zenhub.get_start_date_request(repository.id, milestone.number)
    }

    /// Builds the request that lists a repository's workspaces; the first
    /// of the list is the one the board operations use.
    pub fn get_first_workspace_request(&self, repository: &Repository) -> (r: Result<
        HttpRequest,
        Error,
    >)
        ensures
            spec_path_request(
                self.zenhub.signer,
                Method::Get,
                spec_workspaces_path(repository.id as nat),
                None,
                r,
            ),
    {
        self.zenhub.get_workspaces_request(repository.id)
    }

    /// Builds the request that gets a repository's board.
    pub fn get_board_request(&self, repository: &Repository, workspace: &Workspace) -> (r: Result<
        HttpRequest,
        Error,
    >)
        ensures
            spec_path_request(
                self.zenhub.signer,
                Method::Get,
                spec_board_path(workspace.id@, repository.id as nat),
                None,
                r,
            ),
    {
        self.zenhub.get_board_request(repository.id, workspace.id.as_str())
    }

    /// Builds the request that gets an issue's board metadata.
    pub fn get_zenhub_issue_request(&self, repository: &Repository, issue: &Issue) -> (r: Result<
        HttpRequest,
        Error,
    >)
        ensures
            spec_path_request(
                self.zenhub.signer,
                Method::Get,
                zenhub::spec_issue_path(repository.id as nat, issue.number as nat),
                None,
                r,
            ),
    {
        self.zenhub.get_issue_request(repository.id, issue.number)
    }

    /// Builds the request that sets an issue's estimate.
    pub fn set_estimate_request(&self, repository: &Repository, issue: &Issue, estimate: u32) -> (r:
        Result<HttpRequest, Error>)
        ensures
            spec_path_request(
                self.zenhub.signer,
                Method::Put,
                spec_estimate_path(repository.id as nat, issue.number as nat),
                Some(spec_estimate_json(estimate)),
                r,
            ),
    {
        self.zenhub.set_estimate_request(repository.id, issue.number, estimate)
    }

    /// Builds the first request of creating a sprint: the milestone named
    /// after the sprint number, with its due date. Its result's milestone
    /// number then feeds `create_sprint_start_date_request`.
    pub fn create_sprint_milestone_request(&self, sprint_number: &str, due_on: &str) -> (r: Result<
        HttpRequest,
        Error,
    >)
        ensures
            spec_path_request(
                self.github.signer,
                Method::Post,
                spec_milestones_path(self.owner@, self.repo@),
                Some(spec_sprint_milestone_json(sprint_number@, due_on@)),
                r,
            ),
    {
        let mut title: Vec<char> = Vec::new();
        push_str_chars(&mut title, "Sprint ");
        push_str_chars(&mut title, sprint_number);
        proof {
            assert(title@ =~= "Sprint "@ + sprint_number@);
        }
        let update = MilestoneUpdate {
            title: FieldUpdate::Value(chars_to_string(title)),
            state: FieldUpdate::Unset,
            due_on: FieldUpdate::Value(String::from_str(due_on)),
        };
        proof {
            let tf = "\"title\":"@ + spec_json_string("Sprint "@ + sprint_number@);
            let df = "\"due_on\":"@ + spec_json_string(due_on@);
            let fields = github::spec_milestone_update_fields(update);
            assert(github::spec_title_field(update.title) == tf);
            assert(github::spec_due_on_field(update.due_on) == df);
            assert(fields =~= seq![tf, df]);
            assert(seq![tf, df].drop_last() =~= seq![tf]);
            assert(github::spec_join_comma(seq![tf]) == tf);
            assert(github::spec_join_comma(seq![tf, df]) =~= tf + ","@ + df);
            assert(github::spec_join_comma(fields) =~= tf + ","@ + df);
            assert(github::spec_milestone_update_json(update) =~= spec_sprint_milestone_json(
                sprint_number@,
                due_on@,
            ));
        }
        self.github.create_milestone_request(self.owner, self.repo, &update)
    }

    /// Builds the second request of creating a sprint: setting the created
    /// milestone's start date on the board service. No compensation happens
    /// if this call fails after the milestone was created; the caller sees
    /// the error and reconciles.
    pub fn create_sprint_start_date_request(
        &self,
        repository: &Repository,
        milestone_number: u32,
        start_date: &StartDate,
    ) -> (r: Result<HttpRequest, Error>)
        ensures
            spec_path_request(
                self.zenhub.signer,
                Method::Post,
                spec_start_date_path(repository.id as nat, milestone_number as nat),
                Some(spec_start_date_json(*start_date)),
                r,
            ),
    {
        self.zenhub.set_start_date_request(repository.id, milestone_number, start_date)
    }

    /// Builds the request that moves an issue to the top of a pipeline.
    pub fn move_issue_to_pipeline_request(
        &self,
        repository: &Repository,
        workspace: &Workspace,
        issue: &Issue,
        pipeline: &Pipeline,
    ) -> (r: Result<HttpRequest, Error>)
        ensures
            spec_path_request(
                self.zenhub.signer,
                Method::Post,
                spec_moves_path(workspace.id@, repository.id as nat, issue.number as nat),
                Some(
                    "{"@ + "\"pipeline_id\":"@ + spec_json_string(pipeline.id@) + ","@
                        + "\"position\":"@ + spec_json_string("top"@) + "}"@,
                ),
                r,
            ),
    {
        let position = zenhub::PipelinePosition {
            pipeline_id: pipeline.id.clone(),
            position: String::from_str("top"),
        };
        self.zenhub.move_issue_request(
            repository.id,
            workspace.id.as_str(),
            issue.number,
            &position,
        )
    }

    /// Builds the request that gets the repository of this client's
    /// context.
    pub fn get_repository_request(&self) -> (r: Result<HttpRequest, Error>)
        ensures
            spec_path_request(
                self.github.signer,
                Method::Get,
                spec_repo_path(self.owner@, self.repo@),
                None,
                r,
            ),
    {
        self.github.get_repository_request(self.owner, self.repo)
    }

    /// Builds the request that gets an issue by number.
    pub fn get_issue_request(&self, issue_number: u32) -> (r: Result<HttpRequest, Error>)
        ensures
            spec_path_request(
                self.github.signer,
                Method::Get,
                spec_issue_path(self.owner@, self.repo@, issue_number as nat),
                None,
                r,
            ),
    {
        self.github.get_issue_request(self.owner, self.repo, issue_number)
    }

    /// Builds the request that lists the repository's milestones.
    pub fn get_milestones_request(&self) -> (r: Result<HttpRequest, Error>)
        ensures
            spec_path_request(
                self.github.signer,
                Method::Get,
                spec_milestones_path(self.owner@, self.repo@),
                None,
                r,
            ),
    {
        self.github.get_milestones_request(self.owner, self.repo)
    }

    /// Builds the request that assigns an issue to a milestone. Passing
    /// `None` clears the milestone with an explicit `null`; either way the
    /// payload touches nothing else.
    pub fn assign_issue_to_milestone_request(
        &self,
        issue: &Issue,
        milestone: Option<&Milestone>,
    ) -> (r: Result<HttpRequest, Error>)
        ensures
            spec_path_request(
                self.github.signer,
                Method::Patch,
                spec_issue_path(self.owner@, self.repo@, issue.number as nat),
                Some(
                    spec_json_object(
                        seq![
                            match milestone {
                                Some(m) => "\"milestone\":"@ + spec_dec(m.number as nat),
                                None => "\"milestone\":null"@,
                            },
                        ],
                    ),
                ),
                r,
            ),
    {
        let update = IssueUpdate {
            milestone: match milestone {
                Some(m) => FieldUpdate::Value(m.number),
                None => FieldUpdate::Clear,
            },
            assignees: FieldUpdate::Unset,
        };
        proof {
            assert(github::spec_issue_update_fields(update) =~= seq![
                match milestone {
                    Some(m) => "\"milestone\":"@ + spec_dec(m.number as nat),
                    None => "\"milestone\":null"@,
                },
            ]);
        }
        self.github.patch_issue_request(self.owner, self.repo, issue.number, &update)
    }

    /// Builds the request that assigns an organisation member to an issue,
    /// overwriting any existing assignees and touching nothing else.
    pub fn assign_member_to_issue_request(
        &self,
        member: &OrganisationMember,
        issue: &Issue,
    ) -> (r: Result<HttpRequest, Error>)
        ensures
            spec_path_request(
                self.github.signer,
                Method::Patch,
                spec_issue_path(self.owner@, self.repo@, issue.number as nat),
                Some(
                    spec_json_object(
                        seq!["\"assignees\":"@ + spec_string_array(seq![member.login@])],
                    ),
                ),
                r,
            ),
    {
        let mut assignees: Vec<String> = Vec::new();
        assignees.push(member.login.clone());
        proof {
            assert(assignees.deep_view() =~= seq![member.login@]);
        }
        let update = IssueUpdate {
            milestone: FieldUpdate::Unset,
            assignees: FieldUpdate::Value(assignees),
        };
        proof {
            assert(github::spec_issue_update_fields(update) =~= seq![
                "\"assignees\":"@ + spec_string_array(seq![member.login@]),
            ]);
        }
        self.github.patch_issue_request(self.owner, self.repo, issue.number, &update)
    }

    /// Starts a search for issues matching the given query within this
    /// client's repository, sorted ascending by time updated, one hundred
    /// to the page. The returned sequence fetches pages only as its
    /// consumer demands items.
    pub fn search_issues(&self, query_builder: SearchQueryBuilder) -> (r: PaginatedSearch<Issue>)
        ensures
            r@ == cursor_start::<Issue>(100),
            r.page_size == 100,
            r.query.q@ == spec_join_terms(
                query_builder.terms.deep_view().push(
                    "repo:"@ + self.owner@ + "/"@ + self.repo@,
                ).push("type:issue"@),
            ),
            (r.query.sort matches Some(s) && s@ == "updated"@),
            r.query.order == Some(Direction::Ascending),
            r.query.per_page == Some(100u32),
    {
        let q: String = query_builder.owner_repo(self.owner, self.repo).issue().build();
        let query = SearchIssues {
            q,
            sort: Some(String::from_str("updated")),
            order: Some(Direction::Ascending),
            per_page: Some(100),
        };
        PaginatedSearch::new(query, 100)
    }

    /// Builds the request that lists the organisation's members.
    pub fn get_members_request(&self) -> (r: Result<HttpRequest, Error>)
        ensures
            spec_path_request(
                self.github.signer,
                Method::Get,
                spec_members_path(self.owner@),
                None,
                r,
            ),
    {
        self.github.get_members_request(self.owner)
    }

    /// Builds the request that retitles a milestone, touching nothing
    /// else.
    pub fn update_milestone_title_request(&self, milestone: &Milestone, new_title: String) -> (r:
        Result<HttpRequest, Error>)
        ensures
            spec_path_request(
                self.github.signer,
                Method::Patch,
                spec_milestone_path(self.owner@, self.repo@, milestone.number as nat),
                Some(spec_json_object(seq!["\"title\":"@ + spec_json_string(new_title@)])),
                r,
            ),
    {
        let update = MilestoneUpdate {
            title: FieldUpdate::Value(new_title),
            state: FieldUpdate::Unset,
            due_on: FieldUpdate::Unset,
        };
        proof {
            assert(github::spec_milestone_update_fields(update) =~= seq![
                "\"title\":"@ + spec_json_string(new_title@),
            ]);
        }
        self.github.patch_milestone_request(self.owner, self.repo, milestone.number, &update)
    }

    /// Builds the request that closes a milestone, touching nothing else.
    pub fn close_milestone_request(&self, milestone: &Milestone) -> (r: Result<HttpRequest, Error>)
        ensures
            spec_path_request(
                self.github.signer,
                Method::Patch,
                spec_milestone_path(self.owner@, self.repo@, milestone.number as nat),
                Some(spec_json_object(seq!["\"state\":\""@ + "closed"@ + "\""@])),
                r,
            ),
    {
        let update = MilestoneUpdate {
            title: FieldUpdate::Unset,
            state: FieldUpdate::Value(State::Closed),
            due_on: FieldUpdate::Unset,
        };
        proof {
            assert(github::spec_milestone_update_fields(update) =~= seq![
                "\"state\":\""@ + "closed"@ + "\""@,
            ]);
        }
        self.github.patch_milestone_request(self.owner, self.repo, milestone.number, &update)
    }
}

} // verus!
