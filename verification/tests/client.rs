//! Client construction, request signing and response classification.

use decadog::classify::{body_kind, classify_response, BodyKind, DecodedBody};
use decadog::error::{Error, GithubClientErrorBody, GithubClientErrorDetail};
use decadog::github;
use decadog::zenhub;

#[test]
fn invalid_github_token() {
    assert!(github::Client::new("https://api.mygithub.com/", "github_token").is_ok());
    match github::Client::new("https://api.mygithub.com/", "invalid header char -> \n") {
        Err(Error::Config { description }) => assert_eq!(
            description,
            "Invalid Github token for Authorization header."
        ),
        _ => panic!("Unexpected error"),
    }
}

#[test]
fn invalid_zenhub_token() {
    match zenhub::Client::new("https://api.myzenhub.com/", "bad\u{7f}char") {
        Err(Error::Config { description }) => assert_eq!(
            description,
            "Invalid Zenhub token for Authorization header."
        ),
        _ => panic!("Unexpected error"),
    }
}

#[test]
fn invalid_base_url() {
    match github::Client::new("not a url", "github_token") {
        Err(Error::Config { description }) => {
            assert_eq!(description, "Invalid Github base url not a url")
        }
        _ => panic!("Unexpected error"),
    }
}

#[test]
fn client_identity_is_deterministic() {
    let a = github::Client::new("https://api.mygithub.com/", "github_token").unwrap();
    let b = github::Client::new("https://api.mygithub.com/", "github_token").unwrap();
    let c = github::Client::new("https://api.mygithub.com/", "other_token").unwrap();
    assert_eq!(a.id(), b.id());
    assert_ne!(a.id(), c.id());
}

#[test]
fn signed_request_carries_authorization() {
    let client = github::Client::new("https://api.mygithub.com/", "mock_token").unwrap();
    let req = client.get_issue_request("tommilligan", "decadog", 12).unwrap();
    assert_eq!(req.url, "https://api.mygithub.com/repos/tommilligan/decadog/issues/12");
    assert_eq!(req.method.as_str(), "GET");
    assert_eq!(req.headers.len(), 1);
    assert_eq!(req.headers[0].0, "Authorization");
    assert_eq!(req.headers[0].1, "token mock_token");
    assert!(req.body.is_none());
    assert_eq!(
        req.trace_line(),
        "GET https://api.mygithub.com/repos/tommilligan/decadog/issues/12"
    );
}

#[test]
fn members_path_is_relative_to_base() {
    let client = github::Client::new("https://api.mygithub.com/", "mock_token").unwrap();
    let req = client.get_members_request("tommilligan").unwrap();
    assert_eq!(req.url, "https://api.mygithub.com/orgs/tommilligan/members");
}

#[test]
fn body_kind_follows_status_ranges() {
    assert_eq!(body_kind(200), BodyKind::Success);
    assert_eq!(body_kind(299), BodyKind::Success);
    assert_eq!(body_kind(400), BodyKind::ClientError);
    assert_eq!(body_kind(404), BodyKind::ClientError);
    assert_eq!(body_kind(499), BodyKind::ClientError);
    assert_eq!(body_kind(199), BodyKind::Ignored);
    assert_eq!(body_kind(300), BodyKind::Ignored);
    assert_eq!(body_kind(302), BodyKind::Ignored);
    assert_eq!(body_kind(500), BodyKind::Ignored);
}

#[test]
fn success_response_yields_decoded_value() {
    let r: Result<u32, Error> = classify_response(200, DecodedBody::Success(7));
    assert_eq!(r.unwrap(), 7);
}

#[test]
fn undecodable_success_body_is_deserialization_error() {
    let r: Result<u32, Error> = classify_response(204, DecodedBody::Undecodable);
    match r {
        Err(Error::Deserialization { description }) => {
            assert_eq!(description, "Response body did not match the expected shape.")
        }
        _ => panic!("expected a deserialization error"),
    }
}

#[test]
fn client_error_carries_status_and_body() {
    let body = GithubClientErrorBody {
        message: "Validation Failed".to_string(),
        errors: Some(vec![GithubClientErrorDetail {
            resource: "Issue".to_string(),
            field: "milestone".to_string(),
            code: "invalid".to_string(),
        }]),
        documentation_url: Some("https://developer.mygithub.com/v3".to_string()),
    };
    let r: Result<u32, Error> = classify_response(422, DecodedBody::ClientError(body));
    match r {
        Err(Error::Github { error, status }) => {
            assert_eq!(status, 422);
            assert_eq!(error.message, "Validation Failed");
            let details = error.errors.unwrap();
            assert_eq!(details.len(), 1);
            assert_eq!(details[0].resource, "Issue");
            assert_eq!(details[0].field, "milestone");
            assert_eq!(details[0].code, "invalid");
            assert_eq!(
                error.documentation_url.as_deref(),
                Some("https://developer.mygithub.com/v3")
            );
        }
        _ => panic!("expected a backend client error"),
    }
}

#[test]
fn unexpected_status_is_api_error() {
    for status in [101u16, 302, 500, 503] {
        let r: Result<u32, Error> = classify_response(status, DecodedBody::Ignored);
        match r {
            Err(Error::Api { description, status: st }) => {
                assert_eq!(st, status);
                assert_eq!(description, "Unexpected response status code.");
            }
            _ => panic!("expected an unexpected-status error"),
        }
    }
}

#[test]
fn describe_reports_the_right_line() {
    let e = Error::Config { description: "broken".to_string() };
    assert_eq!(e.describe(), "broken");
    let g = Error::Github {
        error: GithubClientErrorBody {
            message: "Not Found".to_string(),
            errors: None,
            documentation_url: None,
        },
        status: 404,
    };
    assert_eq!(g.describe(), "Not Found");
}

#[test]
fn user_holds_its_fields() {
    let user = decadog::github::User {
        login: "alice".to_string(),
        id: 5,
        name: "Alice".to_string(),
    };
    assert_eq!(user.login, "alice");
    assert_eq!(user.id, 5);
    assert_eq!(user.name, "Alice");
}

#[test]
fn unresolvable_path_fails_loudly() {
    let client = github::Client::new("mailto:someone@example.com", "tok").unwrap();
    match client.get_issue_request("tommilligan", "decadog", 1) {
        Err(Error::Config { description }) => {
            assert!(description.starts_with("Invalid url path "))
        }
        _ => panic!("expected a configuration error"),
    }
}
