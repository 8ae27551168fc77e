//! The request signer: validates a backend's token and base URL at
//! construction, and builds authenticated requests whose URL is the base
//! joined with a relative reference and whose headers carry the fixed
//! authorization value.

use vstd::prelude::*;
use vstd::string::*;

use crate::error::Error;
use crate::text::{
    chars_to_string, check_header_text, push_str_chars, valid_header_text,
};
use crate::urls::{join_url, joined_url, parse_absolute_url, parsed_url};

verus! {

/// An HTTP method this client can send.
#[derive(Debug, Clone, Copy, PartialEq, Eq, Structural)]
pub enum Method {
    Get,
    Post,
    Put,
    Patch,
    Delete,
}

impl Method {
    /// The wire name of this method.
    pub open spec fn spec_str(self) -> Seq<char> {
        match self {
            Method::Get => "GET"@,
            Method::Post => "POST"@,
            Method::Put => "PUT"@,
            Method::Patch => "PATCH"@,
            Method::Delete => "DELETE"@,
        }
    }

    /// Returns the wire name of this method.
    pub fn as_str(&self) -> (r: &'static str)
        ensures
            r@ == self.spec_str(),
    {
        match self {
            Method::Get => "GET",
            Method::Post => "POST",
            Method::Put => "PUT",
            Method::Patch => "PATCH",
            Method::Delete => "DELETE",
        }
    }
}

/// A fully built request: method, resolved URL, the fixed headers, and an
/// optional already-serialized body. Immutable once built; some collaborator
/// outside this library performs the actual dispatch.
#[derive(Debug)]
pub struct HttpRequest {
    pub method: Method,
    pub url: String,
    pub headers: Vec<(String, String)>,
    pub body: Option<String>,
}

/// Whether `headers` is exactly the fixed header set of a signer whose
/// authorization value is `auth`.
pub open spec fn signed_headers(headers: Seq<(String, String)>, auth: Seq<char>) -> bool {
    &&& headers.len() == 1
    &&& headers[0].0@ == "Authorization"@
    &&& headers[0].1@ == auth
}

impl HttpRequest {
    /// The debug trace for a request: method and resolved URL, never the
    /// body, so that payloads and secrets stay out of logs.
    pub fn trace_line(&self) -> (r: String)
        ensures
            r@ == self.method.spec_str() + " "@ + self.url@,
    {
        let mut out: Vec<char> = Vec::new();
        push_str_chars(&mut out, self.method.as_str());
        push_str_chars(&mut out, " ");
        push_str_chars(&mut out, self.url.as_str());
        proof {
            assert(out@ =~= self.method.spec_str() + " "@ + self.url@);
        }
        chars_to_string(out)
    }
}

/// The authorization header value carrying the secret `token`.
pub open spec fn auth_header_value(token: Seq<char>) -> Seq<char> {
    "token "@ + token
}

/// The configuration-error message for a token that cannot be carried in a
/// header.
pub open spec fn token_error_message(api_name: Seq<char>) -> Seq<char> {
    "Invalid "@ + api_name + " token for Authorization header."@
}

/// The configuration-error message for a base URL that does not parse,
/// referencing the rejected text.
pub open spec fn url_error_message(api_name: Seq<char>, url: Seq<char>) -> Seq<char> {
    "Invalid "@ + api_name + " base url "@ + url
}

/// The configuration-error message for a path that cannot be resolved
/// against the base URL.
pub open spec fn path_error_message(path: Seq<char>) -> Seq<char> {
    "Invalid url path "@ + path
}

/// Signs every outbound request of one backend client: holds the validated
/// base URL and the fixed authorization header value.
#[derive(Debug)]
pub struct Signer {
    pub base_url: String,
    pub auth: String,
}

impl Signer {
    /// Whether this signer was built by `Signer::new` from `url` and `token`.
    pub open spec fn wf_for(&self, url: Seq<char>, token: Seq<char>) -> bool {
        &&& parsed_url(url) == Some(self.base_url@)
        &&& self.auth@ == auth_header_value(token)
    }

    /// Validates the secret `token` and the base `url` for the backend
    /// called `api_name`, and builds the signer. Fails with a configuration
    /// error naming the Authorization header when the token holds a
    /// character no header value can carry, then with one referencing the
    /// URL text when `url` is not a valid absolute URL.
    pub fn new(api_name: &str, url: &str, token: &str) -> (r: Result<Signer, Error>)
        ensures
            r is Ok <==> valid_header_text(token@) && parsed_url(url@) is Some,
            match r {
                Ok(s) => s.wf_for(url@, token@),
                Err(e) => match e {
                    Error::Config { description } => {
                        if !valid_header_text(token@) {
                            description@ == token_error_message(api_name@)
                        } else {
                            description@ == url_error_message(api_name@, url@)
                        }
                    },
                    _ => false,
                },
            },
    {
        if !check_header_text(token) {
            let mut msg: Vec<char> = Vec::new();
            push_str_chars(&mut msg, "Invalid ");
            push_str_chars(&mut msg, api_name);
            push_str_chars(&mut msg, " token for Authorization header.");
            proof {
                assert(msg@ =~= token_error_message(api_name@));
            }
            return Err(Error::Config { description: chars_to_string(msg) });
        }
        match parse_absolute_url(url) {
            Some(base) => {
                let mut value: Vec<char> = Vec::new();
                push_str_chars(&mut value, "token ");
                push_str_chars(&mut value, token);
                proof {
                    assert(value@ =~= auth_header_value(token@));
                }
                Ok(Signer { base_url: base, auth: chars_to_string(value) })
            },
            None => {
                let mut msg: Vec<char> = Vec::new();
                push_str_chars(&mut msg, "Invalid ");
                push_str_chars(&mut msg, api_name);
                push_str_chars(&mut msg, " base url ");
                push_str_chars(&mut msg, url);
                proof {
                    assert(msg@ =~= url_error_message(api_name@, url@));
                }
                Err(Error::Config { description: chars_to_string(msg) })
            },
        }
    }

    /// Builds the fixed header set: exactly the authorization header.
    pub fn build_headers(&self) -> (r: Vec<(String, String)>)
        ensures
            signed_headers(r@, self.auth@),
    {
        let mut headers: Vec<(String, String)> = Vec::new();
        headers.push((String::from_str("Authorization"), self.auth.clone()));
        headers
    }

    /// Builds an authenticated request for an already-resolved URL.
    pub fn request(&self, method: Method, url: String) -> (r: HttpRequest)
        ensures
            r.method == method,
            r.url@ == url@,
            signed_headers(r.headers@, self.auth@),
            r.body is None,
    {
        HttpRequest { method, url, headers: self.build_headers(), body: None }
    }

    /// Resolves `path` against the base URL, failing loudly with a
    /// configuration error rather than producing a malformed URL.
    pub fn resolve(&self, path: &str) -> (r: Result<String, Error>)
        ensures
            match r {
                Ok(u) => joined_url(self.base_url@, path@) == Some(u@),
                Err(e) => joined_url(self.base_url@, path@) is None && (e matches Error::Config {
                    description,
                } && description@ == path_error_message(path@)),
            },
    {
        match join_url(self.base_url.as_str(), path) {
            Some(u) => Ok(u),
            None => {
                let mut msg: Vec<char> = Vec::new();
                push_str_chars(&mut msg, "Invalid url path ");
                push_str_chars(&mut msg, path);
                proof {
                    assert(msg@ =~= path_error_message(path@));
                }
                Err(Error::Config { description: chars_to_string(msg) })
            },
        }
    }

    /// Resolves `path` against the base URL and builds an authenticated
    /// request for it: the one path every operation of a backend client
    /// takes.
    pub fn signed_request(&self, method: Method, path: &str) -> (r: Result<HttpRequest, Error>)
        ensures
            match r {
                Ok(req) => {
                    &&& joined_url(self.base_url@, path@) == Some(req.url@)
                    &&& req.method == method
                    &&& signed_headers(req.headers@, self.auth@)
                    &&& req.body is None
                },
                Err(e) => joined_url(self.base_url@, path@) is None && (e matches Error::Config {
                    description,
                } && description@ == path_error_message(path@)),
            },
    {
        let url = self.resolve(path)?;
        Ok(self.request(method, url))
    }
}

} // verus!
