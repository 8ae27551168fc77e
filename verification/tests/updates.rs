//! Update payloads and the orchestration client's cross-API requests.

use decadog::github::{
    self, FieldUpdate, Issue, IssueUpdate, Milestone, MilestoneUpdate, OrganisationMember,
    Repository,
};
use decadog::zenhub::{self, Pipeline, StartDate, Workspace};
use decadog::{Client, Sprint};

fn mock_clients() -> (github::Client, zenhub::Client) {
    (
        github::Client::new("https://api.mygithub.com/", "mock_token").unwrap(),
        zenhub::Client::new("https://api.myzenhub.com/", "mock_token").unwrap(),
    )
}

fn mock_issue(number: u32) -> Issue {
    Issue {
        id: 1,
        number,
        state: "open".to_string(),
        title: "A bug".to_string(),
        milestone: None,
        assignees: Vec::new(),
        created_at: "2011-04-22T13:33:48Z".to_string(),
        updated_at: "2011-04-22T13:33:48Z".to_string(),
        closed_at: None,
    }
}

fn mock_milestone(number: u32) -> Milestone {
    Milestone {
        id: 17,
        number,
        title: "Sprint 2".to_string(),
        state: "open".to_string(),
        due_on: "2019-10-01T00:00:00Z".to_string(),
    }
}

#[test]
fn clearing_only_the_milestone_omits_assignees() {
    let update = IssueUpdate { milestone: FieldUpdate::Clear, assignees: FieldUpdate::Unset };
    assert_eq!(update.to_json(), "{\"milestone\":null}");
}

#[test]
fn unset_fields_are_entirely_absent() {
    let update = IssueUpdate::new();
    assert_eq!(update.to_json(), "{}");
    let update = IssueUpdate {
        milestone: FieldUpdate::Value(7),
        assignees: FieldUpdate::Unset,
    };
    assert_eq!(update.to_json(), "{\"milestone\":7}");
}

#[test]
fn set_fields_serialize_in_order() {
    let update = IssueUpdate {
        milestone: FieldUpdate::Value(7),
        assignees: FieldUpdate::Value(vec!["alice".to_string(), "bob".to_string()]),
    };
    assert_eq!(update.to_json(), "{\"milestone\":7,\"assignees\":[\"alice\",\"bob\"]}");
}

#[test]
fn string_values_are_escaped() {
    let update = MilestoneUpdate {
        title: FieldUpdate::Value("A \"quoted\"\ttitle".to_string()),
        state: FieldUpdate::Unset,
        due_on: FieldUpdate::Unset,
    };
    assert_eq!(update.to_json(), "{\"title\":\"A \\\"quoted\\\"\\ttitle\"}");
}

#[test]
fn assign_issue_to_milestone_builds_exact_patch() {
    let (gh, zh) = mock_clients();
    let client = Client::new("tommilligan", "decadog", &gh, &zh).unwrap();
    let issue = mock_issue(12);
    let milestone = mock_milestone(3);
    let req = client.assign_issue_to_milestone_request(&issue, Some(&milestone)).unwrap();
    assert_eq!(req.url, "https://api.mygithub.com/repos/tommilligan/decadog/issues/12");
    assert_eq!(req.method.as_str(), "PATCH");
    assert_eq!(req.body.as_deref(), Some("{\"milestone\":3}"));

    let req = client.assign_issue_to_milestone_request(&issue, None).unwrap();
    assert_eq!(req.body.as_deref(), Some("{\"milestone\":null}"));
}

#[test]
fn assign_member_overwrites_assignees_only() {
    let (gh, zh) = mock_clients();
    let client = Client::new("tommilligan", "decadog", &gh, &zh).unwrap();
    let member = OrganisationMember { login: "alice".to_string(), id: 5 };
    let req = client.assign_member_to_issue_request(&member, &mock_issue(12)).unwrap();
    assert_eq!(req.body.as_deref(), Some("{\"assignees\":[\"alice\"]}"));
}

#[test]
fn close_milestone_sends_only_the_state() {
    let (gh, zh) = mock_clients();
    let client = Client::new("tommilligan", "decadog", &gh, &zh).unwrap();
    let req = client.close_milestone_request(&mock_milestone(3)).unwrap();
    assert_eq!(req.url, "https://api.mygithub.com/repos/tommilligan/decadog/milestones/3");
    assert_eq!(req.method.as_str(), "PATCH");
    assert_eq!(req.body.as_deref(), Some("{\"state\":\"closed\"}"));
}

#[test]
fn update_milestone_title_sends_only_the_title() {
    let (gh, zh) = mock_clients();
    let client = Client::new("tommilligan", "decadog", &gh, &zh).unwrap();
    let req = client
        .update_milestone_title_request(&mock_milestone(3), "Sprint 3".to_string())
        .unwrap();
    assert_eq!(req.body.as_deref(), Some("{\"title\":\"Sprint 3\"}"));
}

#[test]
fn create_sprint_requests_thread_the_milestone_number() {
    let (gh, zh) = mock_clients();
    let client = Client::new("tommilligan", "decadog", &gh, &zh).unwrap();
    let req = client
        .create_sprint_milestone_request("4", "2019-10-14T00:00:00Z")
        .unwrap();
    assert_eq!(req.url, "https://api.mygithub.com/repos/tommilligan/decadog/milestones");
    assert_eq!(req.method.as_str(), "POST");
    assert_eq!(
        req.body.as_deref(),
        Some("{\"title\":\"Sprint 4\",\"due_on\":\"2019-10-14T00:00:00Z\"}")
    );

    let repository = Repository { id: 99, name: "decadog".to_string() };
    let created = mock_milestone(8);
    let start = StartDate { start_date: "2019-10-07T00:00:00Z".to_string() };
    let req = client
        .create_sprint_start_date_request(&repository, created.number, &start)
        .unwrap();
    assert_eq!(
        req.url,
        "https://api.myzenhub.com/p1/repositories/99/milestones/8/start_date"
    );
    assert_eq!(req.method.as_str(), "POST");
    assert_eq!(req.headers[0].1, "token mock_token");
    assert_eq!(
        req.body.as_deref(),
        Some("{\"start_date\":\"2019-10-07T00:00:00Z\"}")
    );

    let sprint: Sprint = decadog::make_sprint(created, start);
    assert_eq!(sprint.milestone.number, 8);
    assert_eq!(sprint.start_date.start_date, "2019-10-07T00:00:00Z");
}

#[test]
fn move_issue_to_pipeline_posts_the_position() {
    let (gh, zh) = mock_clients();
    let client = Client::new("tommilligan", "decadog", &gh, &zh).unwrap();
    let repository = Repository { id: 99, name: "decadog".to_string() };
    let workspace = Workspace { id: "ws1".to_string(), name: "Main".to_string() };
    let pipeline = Pipeline { id: "pipe7".to_string(), name: "In Progress".to_string() };
    let req = client
        .move_issue_to_pipeline_request(&repository, &workspace, &mock_issue(12), &pipeline)
        .unwrap();
    assert_eq!(
        req.url,
        "https://api.myzenhub.com/p2/workspaces/ws1/repositories/99/issues/12/moves"
    );
    assert_eq!(
        req.body.as_deref(),
        Some("{\"pipeline_id\":\"pipe7\",\"position\":\"top\"}")
    );
}

#[test]
fn set_estimate_puts_the_estimate() {
    let (gh, zh) = mock_clients();
    let client = Client::new("tommilligan", "decadog", &gh, &zh).unwrap();
    let repository = Repository { id: 99, name: "decadog".to_string() };
    let req = client.set_estimate_request(&repository, &mock_issue(12), 5).unwrap();
    assert_eq!(req.url, "https://api.myzenhub.com/p1/repositories/99/issues/12/estimate");
    assert_eq!(req.method.as_str(), "PUT");
    assert_eq!(req.body.as_deref(), Some("{\"estimate\":5}"));
}

#[test]
fn display_lines_match_the_originals() {
    let milestone = mock_milestone(3);
    assert_eq!(milestone.display(), "Sprint 2 (open)");
    let issue = mock_issue(12);
    assert_eq!(issue.display(), "12: A bug");
}

#[test]
fn orchestration_identity_is_deterministic() {
    let (gh, zh) = mock_clients();
    let a = Client::new("tommilligan", "decadog", &gh, &zh).unwrap();
    let b = Client::new("tommilligan", "decadog", &gh, &zh).unwrap();
    assert_eq!(a.id, b.id);
    assert_eq!(a.owner(), "tommilligan");
    assert_eq!(a.repo(), "decadog");
}
