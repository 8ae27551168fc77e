//! The paginated search sequence and the search requests it issues.

use decadog::classify::{classify_response, DecodedBody};
use decadog::error::Error;
use decadog::github::{self, GithubSearchResults, Issue};
use decadog::paginate::{PaginatedSearch, PullStep};
use decadog::query::{SearchIssues, SearchQueryBuilder, State};
use decadog::zenhub;
use decadog::Client;

fn mock_clients() -> (github::Client, zenhub::Client) {
    (
        github::Client::new("https://api.mygithub.com/", "mock_token").unwrap(),
        zenhub::Client::new("https://api.myzenhub.com/", "mock_token").unwrap(),
    )
}

fn empty_page() -> GithubSearchResults<Issue> {
    GithubSearchResults { incomplete_results: false, items: Vec::new() }
}

#[test]
fn test_get_issues_closed_after() {
    let (gh, zh) = mock_clients();
    let client = Client::new("tommilligan", "decadog", &gh, &zh).unwrap();
    let mut search =
        client.search_issues(SearchQueryBuilder::new().closed_on_or_after(2011, 4, 22));

    match search.pull() {
        PullStep::NeedsFetch => {}
        _ => panic!("the sequence must not yield before any page was fetched"),
    }
    let req = search.fetch_request(&gh).unwrap();
    assert_eq!(
        req.url,
        "https://api.mygithub.com/search/issues?q=state%3Aclosed+closed%3A%3E%3D2011-04-22+repo%3Atommilligan%2Fdecadog+type%3Aissue&sort=updated&order=asc&per_page=100"
    );
    assert_eq!(req.method.as_str(), "GET");
    assert_eq!(req.headers[0].0, "Authorization");
    assert_eq!(req.headers[0].1, "token mock_token");

    search.feed(classify_response(200, DecodedBody::Success(empty_page())));
    let mut issues: Vec<Issue> = Vec::new();
    loop {
        match search.pull() {
            PullStep::Item(issue) => issues.push(issue),
            PullStep::Done => break,
            _ => panic!("expected only items and exhaustion"),
        }
    }
    assert!(issues.is_empty());
}

#[test]
fn test_get_milestone_open_issues() {
    let (gh, zh) = mock_clients();
    let client = Client::new("tommilligan", "decadog", &gh, &zh).unwrap();
    let mut search = client.search_issues(
        SearchQueryBuilder::new().state(&State::Open).milestone("Sprint 2"),
    );

    match search.pull() {
        PullStep::NeedsFetch => {}
        _ => panic!("the sequence must not yield before any page was fetched"),
    }
    let req = search.fetch_request(&gh).unwrap();
    assert_eq!(
        req.url,
        "https://api.mygithub.com/search/issues?q=state%3Aopen+milestone%3A%22Sprint+2%22+repo%3Atommilligan%2Fdecadog+type%3Aissue&sort=updated&order=asc&per_page=100"
    );
    assert_eq!(req.headers[0].1, "token mock_token");

    search.feed(classify_response(200, DecodedBody::Success(empty_page())));
    let mut issues: Vec<Issue> = Vec::new();
    loop {
        match search.pull() {
            PullStep::Item(issue) => issues.push(issue),
            PullStep::Done => break,
            _ => panic!("expected only items and exhaustion"),
        }
    }
    assert!(issues.is_empty());
}

fn number_query() -> SearchIssues {
    SearchIssues {
        q: "state:open".to_string(),
        sort: None,
        order: None,
        per_page: Some(2),
    }
}

#[test]
fn three_pages_yield_all_items_in_order() {
    let mut search: PaginatedSearch<u32> = PaginatedSearch::new(number_query(), 2);
    let pages = vec![vec![1u32, 2], vec![3, 4], vec![5]];
    let mut yielded: Vec<u32> = Vec::new();
    let mut fetches: usize = 0;
    loop {
        match search.pull() {
            PullStep::Item(n) => yielded.push(n),
            PullStep::NeedsFetch => {
                let items = pages[fetches].clone();
                fetches += 1;
                search.feed(Ok(GithubSearchResults { incomplete_results: false, items }));
            }
            PullStep::Done => break,
            PullStep::Failed(_) => panic!("no fetch failed"),
        }
    }
    assert_eq!(yielded, vec![1, 2, 3, 4, 5]);
    assert_eq!(fetches, 3);
    assert!(!search.incomplete_seen());
    // exhausted: later pulls keep reporting exhaustion, never a fetch
    match search.pull() {
        PullStep::Done => {}
        _ => panic!("an exhausted sequence must only report exhaustion"),
    }
}

#[test]
fn page_requests_carry_increasing_page_numbers() {
    let (gh, _zh) = mock_clients();
    let mut search: PaginatedSearch<u32> = PaginatedSearch::new(number_query(), 2);
    let req = search.fetch_request(&gh).unwrap();
    assert_eq!(
        req.url,
        "https://api.mygithub.com/search/issues?q=state%3Aopen&per_page=2"
    );
    search.feed(Ok(GithubSearchResults { incomplete_results: false, items: vec![1u32, 2] }));
    assert!(matches!(search.pull(), PullStep::Item(1)));
    assert!(matches!(search.pull(), PullStep::Item(2)));
    assert!(matches!(search.pull(), PullStep::NeedsFetch));
    let req = search.fetch_request(&gh).unwrap();
    assert_eq!(
        req.url,
        "https://api.mygithub.com/search/issues?q=state%3Aopen&per_page=2&page=2"
    );
}

#[test]
fn incomplete_page_still_yields_and_warns() {
    let mut search: PaginatedSearch<u32> = PaginatedSearch::new(number_query(), 2);
    assert!(matches!(search.pull(), PullStep::NeedsFetch));
    search.feed(Ok(GithubSearchResults { incomplete_results: true, items: vec![9u32] }));
    assert!(search.incomplete_seen());
    assert!(matches!(search.pull(), PullStep::Item(9)));
    assert!(matches!(search.pull(), PullStep::Done));
}

#[test]
fn error_on_second_page_ends_the_sequence() {
    let mut search: PaginatedSearch<u32> = PaginatedSearch::new(number_query(), 2);
    assert!(matches!(search.pull(), PullStep::NeedsFetch));
    search.feed(Ok(GithubSearchResults { incomplete_results: false, items: vec![1u32, 2] }));
    assert!(matches!(search.pull(), PullStep::Item(1)));
    assert!(matches!(search.pull(), PullStep::Item(2)));
    assert!(matches!(search.pull(), PullStep::NeedsFetch));
    search.feed(Err(Error::Transport { description: "connection reset".to_string() }));
    match search.pull() {
        PullStep::Failed(Error::Transport { description }) => {
            assert_eq!(description, "connection reset")
        }
        _ => panic!("the transport error must be the next element"),
    }
    // after the error the sequence is exhausted and asks for nothing more
    assert!(matches!(search.pull(), PullStep::Done));
    assert!(matches!(search.pull(), PullStep::Done));
}

#[test]
fn first_workspace_picks_the_head_of_the_list() {
    let ws = vec![
        zenhub::Workspace { id: "abc".to_string(), name: "Main".to_string() },
        zenhub::Workspace { id: "def".to_string(), name: "Other".to_string() },
    ];
    let first = zenhub::first_workspace(ws).unwrap();
    assert_eq!(first.id, "abc");
    assert!(zenhub::first_workspace(Vec::new()).is_none());
}

#[test]
fn date_terms_are_zero_padded() {
    let q = SearchQueryBuilder::new().closed_on_or_after(99, 1, 2).build();
    assert_eq!(q, "state:closed closed:>=0099-01-02");
}

#[test]
fn drain_with_runs_the_whole_sequence() {
    let mut search: PaginatedSearch<u32> = PaginatedSearch::new(number_query(), 2);
    let outcomes = vec![
        Ok(GithubSearchResults { incomplete_results: false, items: vec![1u32, 2] }),
        Ok(GithubSearchResults { incomplete_results: false, items: vec![3, 4] }),
        Ok(GithubSearchResults { incomplete_results: false, items: vec![5] }),
    ];
    let (yielded, fetches) = search.drain_with(outcomes);
    assert_eq!(fetches, 3);
    let values: Vec<u32> = yielded.into_iter().map(|r| r.unwrap()).collect();
    assert_eq!(values, vec![1, 2, 3, 4, 5]);
}

#[test]
fn drain_with_stops_at_the_first_error() {
    let mut search: PaginatedSearch<u32> = PaginatedSearch::new(number_query(), 2);
    let outcomes = vec![
        Ok(GithubSearchResults { incomplete_results: false, items: vec![1u32, 2] }),
        Err(Error::Transport { description: "connection reset".to_string() }),
        Ok(GithubSearchResults { incomplete_results: false, items: vec![9] }),
    ];
    let (yielded, fetches) = search.drain_with(outcomes);
    assert_eq!(fetches, 2);
    assert_eq!(yielded.len(), 3);
    assert_eq!(*yielded[0].as_ref().unwrap(), 1);
    assert_eq!(*yielded[1].as_ref().unwrap(), 2);
    assert!(yielded[2].is_err());
}
