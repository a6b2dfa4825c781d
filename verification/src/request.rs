//! The request of a run: one fixed header set, built from the target URL.

use crate::header::{header_views, Header, HeaderView};
use vstd::prelude::*;

verus! {

/// The parts of a target URL that the request is built from.
#[derive(Clone, Debug)]
pub struct Target {
    pub scheme: Vec<u8>,
    pub host: Option<Vec<u8>>,
    pub path: Vec<u8>,
    pub query: Option<Vec<u8>>,
}

/// What a target holds.
pub struct TargetView {
    pub scheme: Seq<u8>,
    pub host: Option<Seq<u8>>,
    pub path: Seq<u8>,
    pub query: Option<Seq<u8>>,
}

impl View for Target {
    type V = TargetView;

    open spec fn view(&self) -> TargetView {
        TargetView {
            scheme: self.scheme@,
            host: match self.host {
                Some(h) => Some(h@),
                None => None,
            },
            path: self.path@,
            query: match self.query {
                Some(q) => Some(q@),
                None => None,
            },
        }
    }
}

/// Why no request could be built.
#[derive(Clone, Copy, Debug, PartialEq, Eq, Structural)]
pub enum RequestError {
    /// The target is not an absolute URL.
    InvalidUrl,
}

/// `url::ParseError`, the error of `Url::parse`. It is carried through as it
/// is: nothing is read from it.
#[verifier::external_type_specification]
#[verifier::external_body]
pub struct ExParseError(url::ParseError);

/// The parts that the `url` crate reads off `text`: scheme, host, path and
/// query as `Url::scheme`, `Url::host_str`, `Url::path` and `Url::query` give
/// them for the URL that `Url::parse` makes of `text`; `None` where
/// `Url::parse` refuses `text`.
pub uninterp spec fn url_parts(text: Seq<char>) -> Option<TargetView>;

/// `Url::parse`, with the scheme, host, path and query of the URL it returns
/// copied out as bytes. Parsing reads nothing but `text`, so the same text
/// always gives the same parts: `url_parts` names them. The error is the
/// crate's own.
#[verifier::external_body]
fn parse_url(text: &str) -> (r: Result<Target, url::ParseError>)
    ensures
        r matches Ok(t) ==> url_parts(text@) == Some(t@),
        r is Err ==> url_parts(text@) is None,
{
    let u = url::Url::parse(text)?;
    Ok(Target {
        scheme: u.scheme().as_bytes().to_vec(),
        host: u.host_str().map(|h| h.as_bytes().to_vec()),
        path: u.path().as_bytes().to_vec(),
        query: u.query().map(|q| q.as_bytes().to_vec()),
    })
}

/// `:method`
pub open spec fn method_name() -> Seq<u8> {
    seq![0x3au8, 0x6du8, 0x65u8, 0x74u8, 0x68u8, 0x6fu8, 0x64u8]
}

/// `GET`
pub open spec fn method_get() -> Seq<u8> {
    seq![0x47u8, 0x45u8, 0x54u8]
}

/// `:scheme`
pub open spec fn scheme_name() -> Seq<u8> {
    seq![0x3au8, 0x73u8, 0x63u8, 0x68u8, 0x65u8, 0x6du8, 0x65u8]
}

/// `:authority`
pub open spec fn authority_name() -> Seq<u8> {
    seq![0x3au8, 0x61u8, 0x75u8, 0x74u8, 0x68u8, 0x6fu8, 0x72u8, 0x69u8, 0x74u8, 0x79u8]
}

/// `:path`
pub open spec fn path_name() -> Seq<u8> {
    seq![0x3au8, 0x70u8, 0x61u8, 0x74u8, 0x68u8]
}

/// `user-agent`
pub open spec fn agent_name() -> Seq<u8> {
    seq![0x75u8, 0x73u8, 0x65u8, 0x72u8, 0x2du8, 0x61u8, 0x67u8, 0x65u8, 0x6eu8, 0x74u8]
}

/// `benchmark-client`
pub open spec fn agent_value() -> Seq<u8> {
    seq![
        0x62u8,
        0x65u8,
        0x6eu8,
        0x63u8,
        0x68u8,
        0x6du8,
        0x61u8,
        0x72u8,
        0x6bu8,
        0x2du8,
        0x63u8,
        0x6cu8,
        0x69u8,
        0x65u8,
        0x6eu8,
        0x74u8,
    ]
}

/// `localhost`
pub open spec fn default_authority() -> Seq<u8> {
    seq![0x6cu8, 0x6fu8, 0x63u8, 0x61u8, 0x6cu8, 0x68u8, 0x6fu8, 0x73u8, 0x74u8]
}

/// The path of the request: the URL's path, then `?` and the query where the
/// URL has one.
pub open spec fn path_with_query(path: Seq<u8>, query: Option<Seq<u8>>) -> Seq<u8> {
    match query {
        Some(q) => path.push(0x3fu8) + q,
        None => path,
    }
}

/// The authority of the request: the URL's host, `localhost` where it has
/// none.
pub open spec fn authority_of(host: Option<Seq<u8>>) -> Seq<u8> {
    match host {
        Some(h) => h,
        None => default_authority(),
    }
}

/// The header set of the request for `target`: method, scheme, authority,
/// path and client identifier, in this order.
pub open spec fn request_headers_of(target: TargetView) -> Seq<HeaderView> {
    seq![
        HeaderView { name: method_name(), value: method_get() },
        HeaderView { name: scheme_name(), value: target.scheme },
        HeaderView { name: authority_name(), value: authority_of(target.host) },
        HeaderView { name: path_name(), value: path_with_query(target.path, target.query) },
        HeaderView { name: agent_name(), value: agent_value() },
    ]
}

/// Appends `tail` to `v`.
fn append(v: &mut Vec<u8>, tail: &Vec<u8>)
    ensures
        final(v)@ == old(v)@ + tail@,
{
    let mut i: usize = 0;
    while i < tail.len()
        invariant
            i <= tail.len(),
            v@ == old(v)@ + tail@.take(i as int),
        decreases tail.len() - i,
    {
        v.push(tail[i]);
        i = i + 1;
    }
}

/// Builds the path of the request from the URL's path and query.
pub fn request_path(path: &Vec<u8>, query: &Option<Vec<u8>>) -> (r: Vec<u8>)
    ensures
        r@ == path_with_query(
            path@,
            match *query {
                Some(q) => Some(q@),
                None => None,
            },
        ),
{
    let mut r: Vec<u8> = Vec::new();
    append(&mut r, path);
    match query {
        Some(q) => {
            r.push(0x3fu8);
            append(&mut r, q);
        },
        None => {},
    }
    r
}

/// Builds the header set of the request for `target`.
pub fn request_headers(target: &Target) -> (list: Vec<Header>)
    ensures
        header_views(list@) == request_headers_of(target@),
{
    let authority: Vec<u8> = match &target.host {
        Some(h) => h.clone(),
        None => vec![0x6cu8, 0x6fu8, 0x63u8, 0x61u8, 0x6cu8, 0x68u8, 0x6fu8, 0x73u8, 0x74u8],
    };
    let list: Vec<Header> = vec![
        Header {
            name: vec![0x3au8, 0x6du8, 0x65u8, 0x74u8, 0x68u8, 0x6fu8, 0x64u8],
            value: vec![0x47u8, 0x45u8, 0x54u8],
        },
        Header {
            name: vec![0x3au8, 0x73u8, 0x63u8, 0x68u8, 0x65u8, 0x6du8, 0x65u8],
            value: target.scheme.clone(),
        },
        Header {
            name: vec![
                0x3au8,
                0x61u8,
                0x75u8,
                0x74u8,
                0x68u8,
                0x6fu8,
                0x72u8,
                0x69u8,
                0x74u8,
                0x79u8,
            ],
            value: authority,
        },
        Header {
            name: vec![0x3au8, 0x70u8, 0x61u8, 0x74u8, 0x68u8],
            value: request_path(&target.path, &target.query),
        },
        Header {
            name: vec![
                0x75u8,
                0x73u8,
                0x65u8,
                0x72u8,
                0x2du8,
                0x61u8,
                0x67u8,
                0x65u8,
                0x6eu8,
                0x74u8,
            ],
            value: vec![
                0x62u8,
                0x65u8,
                0x6eu8,
                0x63u8,
                0x68u8,
                0x6du8,
                0x61u8,
                0x72u8,
                0x6bu8,
                0x2du8,
                0x63u8,
                0x6cu8,
                0x69u8,
                0x65u8,
                0x6eu8,
                0x74u8,
            ],
        },
    ];
    list
}

/// Builds the header set of the request for the target URL `url`. Fails
/// where `url` is not an absolute URL.
pub fn plan_request(url: &str) -> (r: Result<Vec<Header>, RequestError>)
    ensures
        match url_parts(url@) {
            Some(target) => r matches Ok(list) && header_views(list@) == request_headers_of(
                target,
            ),
            None => r == Err::<Vec<Header>, RequestError>(RequestError::InvalidUrl),
        },
{
    match parse_url(url) {
        Ok(target) => Ok(request_headers(&target)),
        Err(_) => Err(RequestError::InvalidUrl),
    }
}

} // verus!
