//! Requests and responses: as they are read off the wire, and as they are
//! recorded.

use vstd::prelude::*;
use vstd::std_specs::cmp::PartialEqSpecImpl;
use vstd::std_specs::convert::FromSpecImpl;
use crate::body::{Body, BodyView, lemma_classify_keeps_bytes};
use crate::headers::{Headers, HeaderList, HeaderMap};
use crate::table::{entries_map, distinct_names, merged, lemma_merged};

verus! {

/// The verb of a request.
#[derive(Clone, Copy, Debug, PartialEq, Eq, Hash, Structural)]
pub enum Method {
    Acl,
    BaselineControl,
    Bind,
    Checkin,
    Checkout,
    Connect,
    Copy,
    Delete,
    Get,
    Head,
    Label,
    Link,
    Lock,
    Merge,
    MkActivity,
    MkCalendar,
    MkCol,
    MkRedirectRef,
    MkWorkspace,
    Move,
    Options,
    OrderPatch,
    Patch,
    Post,
    Pri,
    PropFind,
    PropPatch,
    Put,
    Rebind,
    Report,
    Search,
    Trace,
    Unbind,
    Uncheckout,
    Unlink,
    Unlock,
    Update,
    UpdateRedirectRef,
    VersionControl,
}

/// The version of the protocol that a response came in.
#[derive(Clone, Copy, Debug, PartialEq, Eq, Hash, Structural)]
pub enum Version {
    Http0_9,
    Http1_0,
    Http1_1,
    Http2_0,
    Http3_0,
}

/// A request as it goes out: its parts as plain values.
#[derive(Debug, PartialEq, Eq)]
pub struct Request {
    pub method: Method,
    pub url: String,
    /// Each header name with its values in order.
    pub headers: Vec<(String, Vec<String>)>,
    pub body: Vec<u8>,
}

/// A response as it comes in: its parts as plain values.
#[derive(Debug, PartialEq, Eq)]
pub struct Response {
    pub status: u16,
    /// `None` where the version is not known.
    pub version: Option<Version>,
    /// Each header name with its values in order.
    pub headers: Vec<(String, Vec<String>)>,
    pub body: Vec<u8>,
}

/// Mathematical value of a recorded request.
pub struct RequestView {
    pub method: Method,
    pub url: Seq<char>,
    pub headers: HeaderMap,
    pub body: BodyView,
}

/// Mathematical value of a recorded response.
pub struct ResponseView {
    pub status: u16,
    pub version: Option<Version>,
    pub headers: HeaderMap,
    pub body: BodyView,
}

/// A request in the form in which it is recorded and compared.
#[derive(Debug)]
pub struct VcrRequest {
    method: Method,
    url: String,
    headers: Headers,
    body: Body,
}

/// A response in the form in which it is recorded.
#[derive(Debug)]
pub struct VcrResponse {
    status: u16,
    version: Option<Version>,
    headers: Headers,
    body: Body,
}

impl View for VcrRequest {
    type V = RequestView;

    closed spec fn view(&self) -> RequestView {
        RequestView {
            method: self.method,
            url: self.url@,
            headers: self.headers@,
            body: self.body@,
        }
    }
}

impl View for VcrResponse {
    type V = ResponseView;

    closed spec fn view(&self) -> ResponseView {
        ResponseView {
            status: self.status,
            version: self.version,
            headers: self.headers@,
            body: self.body@,
        }
    }
}

impl VcrRequest {
    /// The headers in the order in which they are kept, each name once.
    pub closed spec fn spec_headers(&self) -> HeaderList {
        self.headers.spec_entries()
    }

    /// What recording makes of a request: the header list read as a map and
    /// the body classified.
    pub open spec fn captured(req: &Request) -> RequestView {
        RequestView {
            method: req.method,
            url: req.url@,
            headers: entries_map(req.headers.deep_view()),
            body: BodyView::classify(req.body@),
        }
    }

    /// Whether this is the recorded form of the request.
    pub open spec fn is_capture_of(&self, req: &Request) -> bool {
        &&& self@ == Self::captured(req)
        &&& self.spec_headers() == merged(req.headers.deep_view())
    }

    /// Records a request. The request itself is left as it is.
    pub fn from_request(req: &Request) -> (recorded: VcrRequest)
        ensures
            recorded.is_capture_of(req),
    {
        VcrRequest {
            method: req.method,
            url: req.url.clone(),
            headers: Headers::from_entries(&req.headers),
            body: Body::from(req.body.as_slice()),
        }
    }

    /// A recorded request of the given parts.
    pub fn new(method: Method, url: String, headers: Headers, body: Body) -> (recorded: VcrRequest)
        ensures
            recorded@ == (RequestView { method, url: url@, headers: headers@, body: body@ }),
            recorded.spec_headers() == headers.spec_entries(),
    {
        VcrRequest { method, url, headers, body }
    }

    /// The verb.
    pub fn method(&self) -> (method: Method)
        ensures
            method == self@.method,
    {
        self.method
    }

    /// The address asked for.
    pub fn url(&self) -> (url: &str)
        ensures
            url@ == self@.url,
    {
        self.url.as_str()
    }

    /// The headers.
    pub fn headers(&self) -> (headers: &Headers)
        ensures
            headers@ == self@.headers,
            headers.spec_entries() == self.spec_headers(),
    {
        &self.headers
    }

    /// The content.
    pub fn body(&self) -> (body: &Body)
        ensures
            body@ == self@.body,
    {
        &self.body
    }
}

impl VcrResponse {
    /// The headers in the order in which they are kept, each name once.
    pub closed spec fn spec_headers(&self) -> HeaderList {
        self.headers.spec_entries()
    }

    /// What recording makes of a response: the header list read as a map and
    /// the body classified.
    pub open spec fn captured(resp: &Response) -> ResponseView {
        ResponseView {
            status: resp.status,
            version: resp.version,
            headers: entries_map(resp.headers.deep_view()),
            body: BodyView::classify(resp.body@),
        }
    }

    /// Whether this is the recorded form of the response.
    pub open spec fn is_capture_of(&self, resp: &Response) -> bool {
        &&& self@ == Self::captured(resp)
        &&& self.spec_headers() == merged(resp.headers.deep_view())
    }

    /// Records a response. The response itself is left as it is.
    pub fn try_from_response(resp: &Response) -> (recorded: VcrResponse)
        ensures
            recorded.is_capture_of(resp),
    {
        VcrResponse {
            status: resp.status,
            version: resp.version,
            headers: Headers::from_entries(&resp.headers),
            body: Body::from(resp.body.as_slice()),
        }
    }

    /// A recorded response of the given parts.
    pub fn new(status: u16, version: Option<Version>, headers: Headers, body: Body) -> (recorded:
        VcrResponse)
        ensures
            recorded@ == (ResponseView { status, version, headers: headers@, body: body@ }),
            recorded.spec_headers() == headers.spec_entries(),
    {
        VcrResponse { status, version, headers, body }
    }

    /// The status code.
    pub fn status(&self) -> (status: u16)
        ensures
            status == self@.status,
    {
        self.status
    }

    /// The version of the protocol, where it was recorded.
    pub fn version(&self) -> (version: Option<Version>)
        ensures
            version == self@.version,
    {
        self.version
    }

    /// The headers.
    pub fn headers(&self) -> (headers: &Headers)
        ensures
            headers@ == self@.headers,
            headers.spec_entries() == self.spec_headers(),
    {
        &self.headers
    }

    /// The content.
    pub fn body(&self) -> (body: &Body)
        ensures
            body@ == self@.body,
    {
        &self.body
    }
}

impl Request {
    /// Whether this request is the one that a recorded request stands for:
    /// its headers in the order kept, its body as raw bytes.
    pub open spec fn is_rebuilt_from(&self, recorded: &VcrRequest) -> bool {
        &&& self.method == recorded@.method
        &&& self.url@ == recorded@.url
        &&& self.headers.deep_view() == recorded.spec_headers()
        &&& self.body@ == recorded@.body.bytes()
    }
}

impl Response {
    /// Whether this response is the one that a recorded response stands for:
    /// its headers in the order kept, its body as raw bytes.
    pub open spec fn is_rebuilt_from(&self, recorded: &VcrResponse) -> bool {
        &&& self.status == recorded@.status
        &&& self.version == recorded@.version
        &&& self.headers.deep_view() == recorded.spec_headers()
        &&& self.body@ == recorded@.body.bytes()
    }
}

impl<'a> From<&'a VcrRequest> for Request {
    /// The request that a recorded request stands for.
    fn from(recorded: &'a VcrRequest) -> (req: Request)
        ensures
            req.is_rebuilt_from(recorded),
    {
        Request {
            method: recorded.method,
            url: recorded.url.clone(),
            headers: recorded.headers.entries(),
            body: recorded.body.to_bytes(),
        }
    }
}

// What `from` returns is said by its own `ensures`: a request owns its
// buffers, so no value of it can be named here.
impl<'a> FromSpecImpl<&'a VcrRequest> for Request {
    open spec fn obeys_from_spec() -> bool {
        false
    }

    open spec fn from_spec(recorded: &'a VcrRequest) -> Request {
        arbitrary()
    }
}

impl<'a> From<&'a VcrResponse> for Response {
    /// The response that a recorded response stands for.
    fn from(recorded: &'a VcrResponse) -> (resp: Response)
        ensures
            resp.is_rebuilt_from(recorded),
    {
        Response {
            status: recorded.status,
            version: recorded.version,
            headers: recorded.headers.entries(),
            body: recorded.body.to_bytes(),
        }
    }
}

// What `from` returns is said by its own `ensures`: a response owns its
// buffers, so no value of it can be named here.
impl<'a> FromSpecImpl<&'a VcrResponse> for Response {
    open spec fn obeys_from_spec() -> bool {
        false
    }

    open spec fn from_spec(recorded: &'a VcrResponse) -> Response {
        arbitrary()
    }
}

impl Clone for VcrRequest {
    fn clone(&self) -> (r: VcrRequest)
        ensures
            r@ == self@,
            r.spec_headers() == self.spec_headers(),
    {
        VcrRequest {
            method: self.method,
            url: self.url.clone(),
            headers: self.headers.clone(),
            body: self.body.clone(),
        }
    }
}

impl Clone for VcrResponse {
    fn clone(&self) -> (r: VcrResponse)
        ensures
            r@ == self@,
            r.spec_headers() == self.spec_headers(),
    {
        VcrResponse {
            status: self.status,
            version: self.version,
            headers: self.headers.clone(),
            body: self.body.clone(),
        }
    }
}

impl PartialEq for VcrRequest {
    fn eq(&self, other: &VcrRequest) -> (r: bool) {
        self.method == other.method && self.url == other.url && self.headers == other.headers
            && self.body == other.body
    }
}

impl Eq for VcrRequest {
}

impl PartialEqSpecImpl for VcrRequest {
    open spec fn obeys_eq_spec() -> bool {
        true
    }

    open spec fn eq_spec(&self, other: &VcrRequest) -> bool {
        self@ == other@
    }
}

/// Whether two optional versions are the same.
fn same_version(a: Option<Version>, b: Option<Version>) -> (r: bool)
    ensures
        r == (a == b),
{
    match (a, b) {
        (Some(x), Some(y)) => x == y,
        (None, None) => true,
        _ => false,
    }
}

impl PartialEq for VcrResponse {
    fn eq(&self, other: &VcrResponse) -> (r: bool) {
        self.status == other.status && same_version(self.version, other.version) && self.headers
            == other.headers && self.body == other.body
    }
}

impl Eq for VcrResponse {
}

impl PartialEqSpecImpl for VcrResponse {
    open spec fn obeys_eq_spec() -> bool {
        true
    }

    open spec fn eq_spec(&self, other: &VcrResponse) -> bool {
        self@ == other@
    }
}

/// A request that is recorded and rebuilt comes back as it was: the same
/// method, URL and body bytes, and the same values in the same order under
/// each header name. Where no name was listed twice, the header list itself
/// comes back.
pub proof fn lemma_request_round_trip(live: Request, recorded: VcrRequest, rebuilt: Request)
    requires
        recorded.is_capture_of(&live),
        rebuilt.is_rebuilt_from(&recorded),
    ensures
        rebuilt.method == live.method,
        rebuilt.url@ == live.url@,
        rebuilt.body@ == live.body@,
        entries_map(rebuilt.headers.deep_view()) == entries_map(live.headers.deep_view()),
        distinct_names(live.headers.deep_view()) ==> rebuilt.headers.deep_view()
            == live.headers.deep_view(),
{
    lemma_classify_keeps_bytes(live.body@);
    lemma_merged(live.headers.deep_view());
}

/// A response that is recorded and rebuilt comes back as it was: the same
/// status, version and body bytes, and the same values in the same order
/// under each header name. Where no name was listed twice, the header list
/// itself comes back.
pub proof fn lemma_response_round_trip(live: Response, recorded: VcrResponse, rebuilt: Response)
    requires
        recorded.is_capture_of(&live),
        rebuilt.is_rebuilt_from(&recorded),
    ensures
        rebuilt.status == live.status,
        rebuilt.version == live.version,
        rebuilt.body@ == live.body@,
        entries_map(rebuilt.headers.deep_view()) == entries_map(live.headers.deep_view()),
        distinct_names(live.headers.deep_view()) ==> rebuilt.headers.deep_view()
            == live.headers.deep_view(),
{
    lemma_classify_keeps_bytes(live.body@);
    lemma_merged(live.headers.deep_view());
}

/// Recording what was rebuilt from a recorded request gives an equal
/// recorded request, provided its body is classified as recording would
/// classify it.
pub proof fn lemma_request_record_again(recorded: VcrRequest, rebuilt: Request, again: VcrRequest)
    requires
        rebuilt.is_rebuilt_from(&recorded),
        again.is_capture_of(&rebuilt),
        recorded@.body == BodyView::classify(recorded@.body.bytes()),
    ensures
        again@ == recorded@,
{
    lemma_merged(rebuilt.headers.deep_view());
}

/// Recording what was rebuilt from a recorded response gives an equal
/// recorded response, provided its body is classified as recording would
/// classify it.
pub proof fn lemma_response_record_again(
    recorded: VcrResponse,
    rebuilt: Response,
    again: VcrResponse,
)
    requires
        rebuilt.is_rebuilt_from(&recorded),
        again.is_capture_of(&rebuilt),
        recorded@.body == BodyView::classify(recorded@.body.bytes()),
    ensures
        again@ == recorded@,
{
    lemma_merged(rebuilt.headers.deep_view());
}

} // verus!
