//! The route table and the dispatch of a request to a response.

use vstd::prelude::*;
use vstd::string::StringSliceAdditionalSpecFns;
use vstd::utf8::{encode_utf8, encode_utf8_decode_utf8};

use crate::json::field_object;
use crate::records::{congrats, congrats_text, greeting_text, health, health_text, index};

verus! {

/// An HTTP request method.
#[derive(Clone, Copy, Debug, PartialEq, Eq, Structural)]
pub enum Method {
    Get,
    Head,
    Post,
    Put,
    Delete,
    Patch,
    Options,
}

/// What a route answers with.
#[derive(Clone, Copy, Debug, PartialEq, Eq, Structural)]
pub enum Endpoint {
    /// The greeting record.
    Index,
    /// The congratulation record.
    Congrats,
    /// The liveness record.
    Health,
}

/// One entry of the route table: a method and an exact path, and the endpoint
/// that answers them.
pub struct Route {
    pub method: Method,
    pub path: &'static str,
    pub endpoint: Endpoint,
}

/// The status of an answered request.
pub const STATUS_OK: u16 = 200;

/// The status of a request that no route matches.
pub const STATUS_NOT_FOUND: u16 = 404;

/// The media type of every record the service sends.
pub open spec fn json_media_type() -> Seq<char> {
    "application/json"@
}

/// An HTTP response: status, media type of the body if there is a body, and
/// the body's bytes.
pub struct Response {
    pub status: u16,
    pub content_type: Option<&'static str>,
    pub body: Vec<u8>,
}

/// A response as plain values.
pub ghost struct ResponseView {
    pub status: u16,
    pub content_type: Option<Seq<char>>,
    pub body: Seq<u8>,
}

impl View for Response {
    type V = ResponseView;

    open spec fn view(&self) -> ResponseView {
        ResponseView {
            status: self.status,
            content_type: match self.content_type {
                Some(c) => Some(c@),
                None => None,
            },
            body: self.body@,
        }
    }
}

/// The endpoint that answers `method` on `path`, if any: `GET` on `/`,
/// `/congrats` and `/health`, and nothing else.
pub open spec fn route_for(method: Method, path: Seq<char>) -> Option<Endpoint> {
    if method != Method::Get {
        None
    } else if path == "/"@ {
        Some(Endpoint::Index)
    } else if path == "/congrats"@ {
        Some(Endpoint::Congrats)
    } else if path == "/health"@ {
        Some(Endpoint::Health)
    } else {
        None
    }
}

/// The JSON body that an endpoint answers with.
pub open spec fn endpoint_body(e: Endpoint) -> Seq<u8> {
    match e {
        Endpoint::Index => field_object("message"@, greeting_text()),
        Endpoint::Congrats => field_object("message"@, congrats_text()),
        Endpoint::Health => field_object("status"@, health_text()),
    }
}

/// The response to `method` on `path`: the matching endpoint's record as JSON
/// with status 200, or status 404 with no body where no route matches.
pub open spec fn response_for(method: Method, path: Seq<char>) -> ResponseView {
    match route_for(method, path) {
        Some(e) => ResponseView {
            status: 200,
            content_type: Some(json_media_type()),
            body: endpoint_body(e),
        },
        None => ResponseView { status: 404, content_type: None, body: Seq::empty() },
    }
}

/// Repeating a request gets the same answer, byte for byte: two responses
/// that `handle` gave for one method and path agree in status, media type and
/// body, whatever else was served in between.
pub proof fn lemma_repeated_request_same_response(
    method: Method,
    path: Seq<char>,
    first: Response,
    second: Response,
)
    requires
        first@ == response_for(method, path),
        second@ == response_for(method, path),
    ensures
        first@ == second@,
        first.body@ == second.body@,
{
}

/// Every defined route answers with status 200 and a body of media type
/// `application/json`.
pub proof fn lemma_routes_answer_json(method: Method, path: Seq<char>)
    requires
        route_for(method, path) is Some,
    ensures
        response_for(method, path).status == STATUS_OK,
        response_for(method, path).content_type == Some(json_media_type()),
{
}

/// A request that no route matches gets status 404 and no body.
pub proof fn lemma_unmatched_not_found(method: Method, path: Seq<char>)
    requires
        route_for(method, path) is None,
    ensures
        response_for(method, path).status == STATUS_NOT_FOUND,
        response_for(method, path).status != STATUS_OK,
        response_for(method, path).body.len() == 0,
{
}

/// Whether the characters of `a` and `b` are the same, compared byte by byte
/// on their UTF-8 encodings.
fn same_text(a: &str, b: &str) -> (r: bool)
    ensures
        r == (a@ == b@),
{
    let x = a.as_bytes();
    let y = b.as_bytes();
    proof {
        encode_utf8_decode_utf8(a@);
        encode_utf8_decode_utf8(b@);
    }
    if x.len() != y.len() {
        return false;
    }
    let mut i: usize = 0;
    while i < x.len()
        invariant
            x@ == encode_utf8(a@),
            y@ == encode_utf8(b@),
            x@.len() == y@.len(),
            i <= x@.len(),
            x@.take(i as int) == y@.take(i as int),
        decreases x@.len() - i,
    {
        if x[i] != y[i] {
            assert(x@[i as int] != y@[i as int]);
            return false;
        }
        assert(x@.take(i + 1) =~= x@.take(i as int).push(x@[i as int]));
        assert(y@.take(i + 1) =~= y@.take(i as int).push(y@[i as int]));
        i = i + 1;
    }
    assert(x@ =~= x@.take(i as int));
    assert(y@ =~= y@.take(i as int));
    true
}

/// The routes of the service, in the order in which they are matched.
pub struct Router {
    routes: Vec<Route>,
}

impl Router {
    /// The route table as (method, path, endpoint) triples.
    pub closed spec fn table(&self) -> Seq<(Method, Seq<char>, Endpoint)> {
        self.routes@.map_values(|r: Route| (r.method, r.path@, r.endpoint))
    }

    /// The table holds `GET /`, `GET /congrats` and `GET /health`, answered
    /// by the greeting, the congratulation and the liveness record.
    pub open spec fn wf(&self) -> bool {
        self.table() == seq![
            (Method::Get, "/"@, Endpoint::Index),
            (Method::Get, "/congrats"@, Endpoint::Congrats),
            (Method::Get, "/health"@, Endpoint::Health),
        ]
    }

    /// The number of routes.
    pub fn len(&self) -> (r: usize)
        ensures
            r == self.table().len(),
    {
        self.routes.len()
    }

    /// The route at `i`.
    pub fn route(&self, i: usize) -> (r: &Route)
        requires
            i < self.table().len(),
        ensures
            (r.method, r.path@, r.endpoint) == self.table()[i as int],
    {
        &self.routes[i]
    }

    /// The endpoint of the first route that matches `method` and `path`
    /// exactly, if any.
    pub fn find(&self, method: Method, path: &str) -> (r: Option<Endpoint>)
        requires
            self.wf(),
        ensures
            r == route_for(method, path@),
    {
        proof {
            reveal_strlit("/");
            reveal_strlit("/congrats");
            reveal_strlit("/health");
            assert("/"@.len() != "/congrats"@.len());
            assert("/"@.len() != "/health"@.len());
            assert("/congrats"@.len() != "/health"@.len());
        }
        let mut i: usize = 0;
        while i < self.routes.len()
            invariant
                self.wf(),
                i <= self.table().len(),
                forall|j: int|
                    0 <= j < i ==> !(#[trigger] self.table()[j].0 == method && self.table()[j].1
                        == path@),
            decreases self.table().len() - i,
        {
            let route = &self.routes[i];
            assert(self.table()[i as int] == (route.method, route.path@, route.endpoint));
            if route.method == method && same_text(route.path, path) {
                proof {
                    if i > 0 {
                        assert(!(self.table()[0].0 == method && self.table()[0].1 == path@));
                    }
                    if i > 1 {
                        assert(!(self.table()[1].0 == method && self.table()[1].1 == path@));
                    }
                }
                return Some(route.endpoint);
            }
            i = i + 1;
        }
        assert(!(self.table()[0].0 == method && self.table()[0].1 == path@));
        assert(!(self.table()[1].0 == method && self.table()[1].1 == path@));
        assert(!(self.table()[2].0 == method && self.table()[2].1 == path@));
        None
    }

    /// The response to `method` on `path`.
    pub fn handle(&self, method: Method, path: &str) -> (r: Response)
        requires
            self.wf(),
        ensures
            r@ == response_for(method, path@),
    {
        match self.find(method, path) {
            Some(e) => Response {
                status: STATUS_OK,
                content_type: Some("application/json"),
                body: match e {
                    Endpoint::Index => index().to_json(),
                    Endpoint::Congrats => congrats().to_json(),
                    Endpoint::Health => health().to_json(),
                },
            },
            None => Response { status: STATUS_NOT_FOUND, content_type: None, body: Vec::new() },
        }
    }
}

/// The service's routes, mounted at the root: `GET /`, `GET /congrats` and
/// `GET /health`.
pub fn rocket() -> (r: Router)
    ensures
        r.wf(),
{
    let mut routes: Vec<Route> = Vec::new();
    routes.push(Route { method: Method::Get, path: "/", endpoint: Endpoint::Index });
    routes.push(Route { method: Method::Get, path: "/congrats", endpoint: Endpoint::Congrats });
    routes.push(Route { method: Method::Get, path: "/health", endpoint: Endpoint::Health });
    let r = Router { routes };
    assert(r.table() =~= seq![
        (Method::Get, "/"@, Endpoint::Index),
        (Method::Get, "/congrats"@, Endpoint::Congrats),
        (Method::Get, "/health"@, Endpoint::Health),
    ]);
    r
}

} // verus!
