//! HTTP responses, and what every answer of the stat server has in common.

use crate::stat_server::server::StatServer;
use vstd::prelude::*;
use vstd::string::*;

verus! {

/// The methods that requests are told apart by.
#[derive(Clone, Copy, Debug, PartialEq, Eq, Structural)]
pub enum Method {
    Get,
    Post,
    Options,
    Other,
}

pub const OK: u16 = 200;

pub const NO_CONTENT: u16 = 204;

pub const BAD_REQUEST: u16 = 400;

pub const UNAUTHORIZED: u16 = 401;

pub const FORBIDDEN: u16 = 403;

pub const NOT_FOUND: u16 = 404;

pub const METHOD_NOT_ALLOWED: u16 = 405;

pub const CONFLICT: u16 = 409;

pub const INTERNAL_SERVER_ERROR: u16 = 500;

/// A response, ready to be sent.
#[derive(Debug)]
pub struct HttpResponse {
    pub status: u16,
    /// Whether the body is declared to be JSON.
    pub json: bool,
    /// Whether pages of any origin may read the response.
    pub cross_origin: bool,
    /// Whether the response answers a preflight.
    pub preflight: bool,
    pub body: String,
}

/// What is in a [`HttpResponse`].
pub struct ResponseView {
    pub status: u16,
    pub json: bool,
    pub cross_origin: bool,
    pub preflight: bool,
    pub body: Seq<char>,
}

impl View for HttpResponse {
    type V = ResponseView;

    open spec fn view(&self) -> ResponseView {
        ResponseView {
            status: self.status,
            json: self.json,
            cross_origin: self.cross_origin,
            preflight: self.preflight,
            body: self.body@,
        }
    }
}

impl Clone for HttpResponse {
    fn clone(&self) -> (copy: HttpResponse)
        ensures
            copy == *self,
    {
        HttpResponse {
            status: self.status,
            json: self.json,
            cross_origin: self.cross_origin,
            preflight: self.preflight,
            body: self.body.clone(),
        }
    }
}

/// A response with a body that nothing is declared of.
pub open spec fn bare(status: u16, body: Seq<char>) -> ResponseView {
    ResponseView { status, json: false, cross_origin: false, preflight: false, body }
}

/// A response with a JSON body.
pub open spec fn json(status: u16, body: Seq<char>) -> ResponseView {
    ResponseView { status, json: true, cross_origin: false, preflight: false, body }
}

/// A response that reports an error by its code.
pub open spec fn error(status: u16, code: Seq<char>) -> ResponseView {
    json(status, "{\"error\":\""@ + code + "\"}"@)
}

/// The headers that a response carries.
pub open spec fn header_list(response: ResponseView) -> Seq<(Seq<char>, Seq<char>)> {
    (if response.json {
        seq![("Content-Type"@, "application/json"@)]
    } else {
        Seq::empty()
    }) + (if response.cross_origin {
        seq![("Access-Control-Allow-Origin"@, "*"@)]
    } else {
        Seq::empty()
    }) + (if response.preflight {
        seq![
            ("Access-Control-Allow-Methods"@, "GET, OPTIONS"@),
            ("Access-Control-Allow-Headers"@, "Content-Type"@),
            ("Access-Control-Max-Age"@, "86400"@),
        ]
    } else {
        Seq::empty()
    })
}

/// What is in each of a list of headers.
pub open spec fn header_views(headers: Seq<(&'static str, &'static str)>) -> Seq<
    (Seq<char>, Seq<char>),
> {
    Seq::new(headers.len(), |i: int| (headers[i].0@, headers[i].1@))
}

impl HttpResponse {
    /// A successful response that nothing is declared of.
    pub fn new(body: String) -> (response: HttpResponse)
        ensures
            response@ == bare(OK, body@),
            response.body == body,
    {
        HttpResponse { status: OK, json: false, cross_origin: false, preflight: false, body }
    }

    /// An empty response that says that there is nothing here.
    pub fn not_found() -> (response: HttpResponse)
        ensures
            response@ == bare(NOT_FOUND, Seq::empty()),
    {
        HttpResponse {
            status: NOT_FOUND,
            json: false,
            cross_origin: false,
            preflight: false,
            body: String::new(),
        }
    }

    /// The headers that the response carries.
    pub fn headers(&self) -> (headers: Vec<(&'static str, &'static str)>)
        ensures
            header_views(headers@) == header_list(self@),
    {
        let mut headers: Vec<(&'static str, &'static str)> = Vec::new();
        if self.json {
            headers.push(("Content-Type", "application/json"));
        }
        if self.cross_origin {
            headers.push(("Access-Control-Allow-Origin", "*"));
        }
        if self.preflight {
            headers.push(("Access-Control-Allow-Methods", "GET, OPTIONS"));
            headers.push(("Access-Control-Allow-Headers", "Content-Type"));
            headers.push(("Access-Control-Max-Age", "86400"));
        }
        assert(header_views(headers@) =~= header_list(self@));
        headers
    }
}

/// How a request is answered from outside: at once, or by the routing.
#[derive(Debug)]
pub enum Entry {
    /// Route the request, and come back with the response.
    Route,
    /// Send this response.
    Respond(HttpResponse),
}

/// The answer to a preflight.
pub open spec fn preflight_answer() -> ResponseView {
    ResponseView {
        status: NO_CONTENT,
        json: false,
        cross_origin: true,
        preflight: true,
        body: Seq::empty(),
    }
}

impl StatServer {
    /// A response with a JSON body.
    pub fn json_response(status: u16, body: String) -> (response: HttpResponse)
        ensures
            response@ == json(status, body@),
    {
        HttpResponse { status, json: true, cross_origin: false, preflight: false, body }
    }

    /// A response that reports an error by its code.
    pub fn error_response(status: u16, code: &str) -> (response: HttpResponse)
        ensures
            response@ == error(status, code@),
    {
        let mut body: String = "{\"error\":\"".to_owned();
        body.append(code);
        body.append("\"}");
        StatServer::json_response(status, body)
    }

    /// Entry point for the stat server. `routed` is the response that the
    /// routing gave, once it has.
    ///
    /// Everything that is served is meant to be readable by a page in a browser,
    /// so the answers carry a permissive cross origin header. Only the reading
    /// is opened up: a preflight is answered for GET alone and does not allow
    /// `X-API-Key`, so the endpoints that take the operator key stay reachable
    /// from a backend and not from someone else's page.
    pub fn handle_stat_server_req(method: Method, routed: Option<HttpResponse>) -> (entry: Entry)
        ensures
            match (method, routed, entry) {
                (Method::Options, _, Entry::Respond(response)) => response@ == preflight_answer(),
                (Method::Options, _, Entry::Route) => false,
                (_, None, Entry::Route) => true,
                (_, Some(inner), Entry::Respond(response)) => response@ == (ResponseView {
                    cross_origin: true,
                    ..inner@
                }),
                _ => false,
            },
    {
        if method == Method::Options {
            return Entry::Respond(
                HttpResponse {
                    status: NO_CONTENT,
                    json: false,
                    cross_origin: true,
                    preflight: true,
                    body: String::new(),
                },
            );
        }
        match routed {
            None => Entry::Route,
            Some(inner) => Entry::Respond(
                HttpResponse {
                    status: inner.status,
                    json: inner.json,
                    cross_origin: true,
                    preflight: inner.preflight,
                    body: inner.body,
                },
            ),
        }
    }
}

/// Whether a list of headers holds one with the given name and value.
pub open spec fn has_header(
    headers: Seq<(Seq<char>, Seq<char>)>,
    name: Seq<char>,
    value: Seq<char>,
) -> bool {
    exists|i: int| 0 <= i < headers.len() && #[trigger] headers[i] == (name, value)
}

/// Pages of any origin may read an answer that is marked so.
pub proof fn law_answers_are_readable_by_any_page(response: ResponseView)
    requires
        response.cross_origin,
    ensures
        has_header(header_list(response), "Access-Control-Allow-Origin"@, "*"@),
{
    let headers = header_list(response);
    let i: int = if response.json {
        1
    } else {
        0
    };
    assert(headers[i] == ("Access-Control-Allow-Origin"@, "*"@));
}

/// A preflight allows nothing but reading: the methods are GET and OPTIONS and
/// the one header is `Content-Type`, so a page cannot send the operator key.
pub proof fn law_preflight_allows_reading_only()
    ensures
        header_list(preflight_answer()) == seq![
            ("Access-Control-Allow-Origin"@, "*"@),
            ("Access-Control-Allow-Methods"@, "GET, OPTIONS"@),
            ("Access-Control-Allow-Headers"@, "Content-Type"@),
            ("Access-Control-Max-Age"@, "86400"@),
        ],
{
    assert(header_list(preflight_answer()) =~= seq![
        ("Access-Control-Allow-Origin"@, "*"@),
        ("Access-Control-Allow-Methods"@, "GET, OPTIONS"@),
        ("Access-Control-Allow-Headers"@, "Content-Type"@),
        ("Access-Control-Max-Age"@, "86400"@),
    ]);
}

/// Each header is there exactly where the response is marked for it.
pub proof fn law_headers_follow_the_marks(response: ResponseView)
    ensures
        ({
            let headers = header_list(response);
            &&& has_header(headers, "Content-Type"@, "application/json"@) <==> response.json
            &&& has_header(headers, "Access-Control-Allow-Origin"@, "*"@)
                <==> response.cross_origin
            &&& has_header(headers, "Access-Control-Allow-Methods"@, "GET, OPTIONS"@)
                <==> response.preflight
        }),
{
    reveal_strlit("Content-Type");
    reveal_strlit("Access-Control-Allow-Origin");
    reveal_strlit("Access-Control-Allow-Methods");
    reveal_strlit("Access-Control-Allow-Headers");
    reveal_strlit("Access-Control-Max-Age");
    reveal_strlit("GET, OPTIONS");
    let headers = header_list(response);
    let json: int = if response.json {
        1
    } else {
        0
    };
    let origin: int = if response.cross_origin {
        1
    } else {
        0
    };
    assert forall|i: int| 0 <= i < headers.len() implies ({
        let name = (#[trigger] headers[i]).0;
        &&& name.len() == 12 ==> response.json
        &&& name.len() == 27 ==> response.cross_origin
        &&& name.len() == 28 ==> response.preflight
    }) by {
        if i < json {
            assert(headers[i].0 == "Content-Type"@);
        } else if i < json + origin {
            assert(headers[i].0 == "Access-Control-Allow-Origin"@);
        } else {
            assert(response.preflight);
            assert(headers[i].0 == "Access-Control-Allow-Methods"@ || headers[i].0
                == "Access-Control-Allow-Headers"@ || headers[i].0 == "Access-Control-Max-Age"@);
        }
    }
    if response.json {
        assert(headers[0] == ("Content-Type"@, "application/json"@));
    }
    if response.cross_origin {
        assert(headers[json] == ("Access-Control-Allow-Origin"@, "*"@));
    }
    if response.preflight {
        assert(headers[json + origin] == ("Access-Control-Allow-Methods"@, "GET, OPTIONS"@));
    }
}

/// All that a response holds is seen, and each of its headers in its place.
pub proof fn law_all_of_a_response_is_seen(
    response: HttpResponse,
    headers: Seq<(&'static str, &'static str)>,
    i: int,
)
    ensures
        response@.status == response.status,
        response@.json == response.json,
        response@.cross_origin == response.cross_origin,
        response@.preflight == response.preflight,
        response@.body == response.body@,
        header_views(headers).len() == headers.len(),
        0 <= i < headers.len() ==> {
            &&& header_views(headers)[i].0 == headers[i].0@
            &&& header_views(headers)[i].1 == headers[i].1@
        },
{
}

} // verus!
