//! The request builder shared by every endpoint, and the check of the
//! provider's response status.

pub mod voice;

use crate::error::Error;
use vstd::prelude::*;

verus! {

/// The provider's base URL; every request path is appended to it.
pub const BASE_URL: &'static str = "https://api.elevenlabs.io/v1";

/// The header that carries the API key.
pub const API_KEY_HEADER: &'static str = "xi-api-key";

/// The HTTP methods the endpoints use.
#[derive(Debug, Clone, Copy, PartialEq, Eq, Structural)]
pub enum Method {
    Get,
    Post,
    Delete,
}

pub open spec fn method_name(m: Method) -> Seq<char> {
    match m {
        Method::Get => "GET"@,
        Method::Post => "POST"@,
        Method::Delete => "DELETE"@,
    }
}

impl Method {
    /// The method's name as it appears on the request line.
    pub fn as_str(&self) -> (r: &'static str)
        ensures
            r@ == method_name(*self),
    {
        match self {
            Method::Get => "GET",
            Method::Post => "POST",
            Method::Delete => "DELETE",
        }
    }
}

/// A status in the 2xx class.
pub open spec fn is_success(status: u16) -> bool {
    200 <= status <= 299
}

/// Hands back the payload of a response with a success status, and turns any
/// other status into `Error::Api`, keeping the provider's error body.
pub fn check_response(status: u16, body: Vec<u8>) -> (r: Result<Vec<u8>, Error>)
    ensures
        is_success(status) ==> r == Ok::<Vec<u8>, Error>(body),
        !is_success(status) ==> r == Err::<Vec<u8>, Error>(Error::Api { status, body }),
{
    if 200 <= status && status <= 299 {
        Ok(body)
    } else {
        Err(Error::Api { status, body })
    }
}

/// Header pairs seen as pairs of character sequences.
pub open spec fn headers_view(h: Seq<(String, String)>) -> Seq<(Seq<char>, Seq<char>)> {
    h.map_values(|p: (String, String)| (p.0@, p.1@))
}

/// A request ready to send: method, full URL and headers. The body is handed
/// to the transport separately.
#[derive(Debug)]
pub struct Request {
    pub method: Method,
    pub url: String,
    pub headers: Vec<(String, String)>,
}

/// Collects the parts of a request; `build` checks that method and path were
/// given and puts the API key header first.
#[derive(Debug)]
pub struct ClientBuilder {
    pub api_key: String,
    pub method: Option<Method>,
    pub path: Option<String>,
    pub headers: Vec<(String, String)>,
}

impl ClientBuilder {
    /// A builder for requests authenticated with `api_key`, with nothing else set.
    pub fn new(api_key: &str) -> (r: ClientBuilder)
        ensures
            r.api_key@ == api_key@,
            r.method.is_none(),
            r.path.is_none(),
            r.headers@.len() == 0,
    {
        ClientBuilder { api_key: api_key.to_owned(), method: None, path: None, headers: Vec::new() }
    }

    /// Sets the method, replacing any set before.
    pub fn method(self, method: Method) -> (r: ClientBuilder)
        ensures
            r.api_key == self.api_key,
            r.method == Some(method),
            r.path == self.path,
            r.headers == self.headers,
    {
        ClientBuilder { method: Some(method), ..self }
    }

    /// Sets the path below the base URL, replacing any set before.
    pub fn path(self, path: String) -> (r: ClientBuilder)
        ensures
            r.api_key == self.api_key,
            r.method == self.method,
            r.path == Some(path),
            r.headers == self.headers,
    {
        ClientBuilder { path: Some(path), ..self }
    }

    /// Appends a header after those added before.
    pub fn header(self, name: &str, value: &str) -> (r: ClientBuilder)
        ensures
            r.api_key == self.api_key,
            r.method == self.method,
            r.path == self.path,
            headers_view(r.headers@) == headers_view(self.headers@).push((name@, value@)),
    {
        let mut b = self;
        b.headers.push((name.to_owned(), value.to_owned()));
        proof {
            assert(headers_view(b.headers@) =~= headers_view(self.headers@).push((name@, value@)));
        }
        b
    }

    /// The request: fails with `MethodNotSet` when no method was set, else
    /// with `PathNotSet` when no path was set. The URL is the base URL followed
    /// by the path; the API key header comes before the headers added.
    pub fn build(self) -> (r: Result<Request, Error>)
        ensures
            self.method.is_none() ==> r == Err::<Request, Error>(Error::MethodNotSet),
            self.method.is_some() && self.path.is_none() ==> r == Err::<Request, Error>(
                Error::PathNotSet,
            ),
            self.method.is_some() && self.path.is_some() ==> (r matches Ok(req) && req.method
                == self.method.unwrap() && req.url@ == BASE_URL@ + self.path.unwrap()@
                && headers_view(req.headers@) == seq![(API_KEY_HEADER@, self.api_key@)]
                + headers_view(self.headers@)),
    {
        let method = match self.method {
            Some(m) => m,
            None => return Err(Error::MethodNotSet),
        };
        let path = match self.path {
            Some(p) => p,
            None => return Err(Error::PathNotSet),
        };
        let mut url = String::from_str(BASE_URL);
        url.append(path.as_str());
        let mut headers: Vec<(String, String)> = Vec::new();
        headers.push((String::from_str(API_KEY_HEADER), self.api_key));
        let mut i: usize = 0;
        while i < self.headers.len()
            invariant
                i <= self.headers@.len(),
                headers_view(headers@) == seq![(API_KEY_HEADER@, self.api_key@)]
                    + headers_view(self.headers@.take(i as int)),
            decreases self.headers@.len() - i,
        {
            let h = &self.headers[i];
            let ghost before = headers@;
            headers.push((h.0.clone(), h.1.clone()));
            proof {
                assert(headers_view(headers@) =~= headers_view(before).push((h.0@, h.1@)));
                assert(self.headers@.take(i + 1) =~= self.headers@.take(i as int).push(
                    self.headers@[i as int],
                ));
                assert(headers_view(self.headers@.take(i + 1)) =~= headers_view(
                    self.headers@.take(i as int),
                ).push((self.headers@[i as int].0@, self.headers@[i as int].1@)));
                assert(headers_view(headers@) =~= seq![(API_KEY_HEADER@, self.api_key@)]
                    + headers_view(self.headers@.take(i + 1)));
            }
            i += 1;
        }
        proof {
            assert(self.headers@.take(i as int) =~= self.headers@);
        }
        Ok(Request { method, url, headers })
    }
}

} // verus!
