//! Decisions of a fetch: which transport a URL needs, and how a chain of
//! redirects is followed and recorded.
//!
//! The requests themselves are made by the caller, who hands every response
//! status (and `Location` header) to a [`RedirectChain`] and does what it answers.

use crate::xml::opt_chars;
use vstd::prelude::*;

verus! {

/// The most requests one fetch makes, redirects included.
pub const MAX_HOPS: usize = 10;

/// Why a fetch did not produce a response.
#[derive(Clone, Copy, Debug, PartialEq, Eq, Structural)]
pub enum FetchError {
    /// The URL cannot be read as a URI.
    InvalidUri,
    /// The URI names no scheme.
    MissingScheme,
    /// The scheme is neither `http` nor `https`.
    UnsupportedScheme,
    /// A redirect came without a `Location` header.
    MissingLocation,
    /// The redirects went on past the hop limit.
    TooManyRedirects,
    /// A request failed or timed out.
    Transport,
}

/// The transport a URL is requested over.
#[derive(Clone, Copy, Debug, PartialEq, Eq, Structural)]
pub enum Scheme {
    Http,
    Https,
}

/// The `http` crate's URI error, carried as an opaque value.
#[verifier::external_type_specification]
#[verifier::external_body]
pub struct ExInvalidUri(hyper::http::uri::InvalidUri);

/// The scheme of a URI, as `http::Uri` reads it from a text; `None` where the
/// text is no URI.
pub uninterp spec fn uri_scheme_of(url: Seq<char>) -> Option<Option<Seq<char>>>;

/// Relies on `hyper::Uri`'s `FromStr` and `scheme_str`: whether a text is a
/// URI, and its scheme, depend on the text alone.
#[verifier::external_body]
fn uri_scheme(url: &str) -> (r: Result<Option<String>, hyper::http::uri::InvalidUri>)
    ensures
        r is Ok <==> uri_scheme_of(url@) is Some,
        r is Ok ==> uri_scheme_of(url@) == Some(opt_chars(r->Ok_0)),
{
    let uri: hyper::Uri = url.parse()?;
    Ok(uri.scheme_str().map(String::from))
}

/// The transport for a URI scheme, or why there is none.
pub open spec fn scheme_spec(scheme: Option<Option<Seq<char>>>) -> Result<Scheme, FetchError> {
    match scheme {
        None => Err(FetchError::InvalidUri),
        Some(None) => Err(FetchError::MissingScheme),
        Some(Some(s)) => if s == "http"@ {
            Ok(Scheme::Http)
        } else if s == "https"@ {
            Ok(Scheme::Https)
        } else {
            Err(FetchError::UnsupportedScheme)
        },
    }
}

/// Picks the transport for a URL: only `http` and `https` are served.
pub fn select_scheme(url: &str) -> (r: Result<Scheme, FetchError>)
    ensures
        r == scheme_spec(uri_scheme_of(url@)),
{
    match uri_scheme(url) {
        Err(_) => Err(FetchError::InvalidUri),
        Ok(None) => Err(FetchError::MissingScheme),
        Ok(Some(s)) => {
            if crate::text::str_eq(s.as_str(), "http") {
                Ok(Scheme::Http)
            } else if crate::text::str_eq(s.as_str(), "https") {
                Ok(Scheme::Https)
            } else {
                Err(FetchError::UnsupportedScheme)
            }
        },
    }
}

/// The statuses that are followed to their `Location`.
pub open spec fn is_redirect_spec(status: u16) -> bool {
    status == 301 || status == 302 || status == 307 || status == 308
}

/// Whether a status is a redirect that is followed.
pub fn is_redirect(status: u16) -> (r: bool)
    ensures
        r == is_redirect_spec(status),
{
    status == 301 || status == 302 || status == 307 || status == 308
}

/// What to do after a response.
pub enum FetchStep {
    /// Request this URL next.
    Follow(String),
    /// The chain ended; `true` where its last status was 200 and the body is wanted.
    Finished(bool),
}

pub enum FetchStepModel {
    Follow(Seq<char>),
    Finished(bool),
}

impl View for FetchStep {
    type V = FetchStepModel;

    open spec fn view(&self) -> FetchStepModel {
        match self {
            FetchStep::Follow(u) => FetchStepModel::Follow(u@),
            FetchStep::Finished(b) => FetchStepModel::Finished(*b),
        }
    }
}

/// The URLs visited by one fetch, with the status each answered, and the URL
/// being requested.
pub struct RedirectChain {
    pub visited: Vec<(String, u16)>,
    pub current: String,
}

pub struct RedirectChainModel {
    pub visited: Seq<(Seq<char>, u16)>,
    pub current: Seq<char>,
}

impl View for RedirectChain {
    type V = RedirectChainModel;

    open spec fn view(&self) -> RedirectChainModel {
        RedirectChainModel {
            visited: self.visited@.map_values(|v: (String, u16)| (v.0@, v.1)),
            current: self.current@,
        }
    }
}

pub open spec fn step_result(r: Result<FetchStep, FetchError>) -> Result<FetchStepModel, FetchError> {
    match r {
        Ok(s) => Ok(s@),
        Err(e) => Err(e),
    }
}

/// The chain and the answer after `current` responded with `status`.
pub open spec fn respond_spec(
    c: RedirectChainModel,
    status: u16,
    location: Option<Seq<char>>,
) -> (RedirectChainModel, Result<FetchStepModel, FetchError>) {
    let visited = c.visited.push((c.current, status));
    if !is_redirect_spec(status) {
        (RedirectChainModel { visited, current: c.current }, Ok(FetchStepModel::Finished(status == 200)))
    } else {
        match location {
            None => (RedirectChainModel { visited, current: c.current }, Err(FetchError::MissingLocation)),
            Some(l) => if visited.len() >= MAX_HOPS {
                (RedirectChainModel { visited, current: c.current }, Err(FetchError::TooManyRedirects))
            } else {
                (RedirectChainModel { visited, current: l }, Ok(FetchStepModel::Follow(l)))
            },
        }
    }
}

impl RedirectChain {
    /// A chain that begins by requesting `url`.
    pub fn new(url: String) -> (r: RedirectChain)
        ensures
            r@.visited == Seq::<(Seq<char>, u16)>::empty(),
            r@.current == url@,
    {
        let r = RedirectChain { visited: Vec::new(), current: url };
        assert(r@.visited =~= Seq::<(Seq<char>, u16)>::empty());
        r
    }

    /// Records the response of the current URL and says what comes next: a
    /// redirect is followed while the hop limit allows, any other status ends
    /// the chain.
    pub fn respond(&mut self, status: u16, location: Option<String>) -> (r: Result<
        FetchStep,
        FetchError,
    >)
        ensures
            (final(self)@, step_result(r)) == respond_spec(old(self)@, status, opt_chars(location)),
            r is Ok && r->Ok_0 is Follow ==> final(self)@.visited.len() < MAX_HOPS,
    {
        self.visited.push((self.current.clone(), status));
        proof {
            assert(self@.visited =~= old(self)@.visited.push((old(self)@.current, status)));
        }
        if !is_redirect(status) {
            return Ok(FetchStep::Finished(status == 200));
        }
        match location {
            None => Err(FetchError::MissingLocation),
            Some(l) => {
                if self.visited.len() >= MAX_HOPS {
                    Err(FetchError::TooManyRedirects)
                } else {
                    self.current = l.clone();
                    Ok(FetchStep::Follow(l))
                }
            },
        }
    }
}

/// A URL answering 301, whose target answers 302, whose target answers 200,
/// ends in a body, with the three URLs and their statuses recorded in order.
pub proof fn lemma_two_redirects(u0: Seq<char>, u1: Seq<char>, u2: Seq<char>, l: Option<Seq<char>>)
    ensures
        ({
            let c0 = RedirectChainModel { visited: seq![], current: u0 };
            let (c1, a1) = respond_spec(c0, 301, Some(u1));
            let (c2, a2) = respond_spec(c1, 302, Some(u2));
            let (c3, a3) = respond_spec(c2, 200, l);
            &&& a1 == Ok::<FetchStepModel, FetchError>(FetchStepModel::Follow(u1))
            &&& a2 == Ok::<FetchStepModel, FetchError>(FetchStepModel::Follow(u2))
            &&& a3 == Ok::<FetchStepModel, FetchError>(FetchStepModel::Finished(true))
            &&& c3.visited == seq![(u0, 301u16), (u1, 302u16), (u2, 200u16)]
        }),
{
    let c0 = RedirectChainModel { visited: seq![], current: u0 };
    let (c1, a1) = respond_spec(c0, 301, Some(u1));
    let (c2, a2) = respond_spec(c1, 302, Some(u2));
    let (c3, a3) = respond_spec(c2, 200, l);
    assert(c3.visited =~= seq![(u0, 301u16), (u1, 302u16), (u2, 200u16)]);
}

} // verus!
