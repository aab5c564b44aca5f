//! Egress decisions for outbound HTTP and TCP connections of services.
//!
//! An outbound request is validated against capabilities, network
//! membership and policies; the outcome is a step for the proxy to carry
//! out: route to an internal service, execute externally, connect, or
//! answer with an error response.

use vstd::prelude::*;

use crate::network::manager::NetworkManager;
use crate::network::validation::{
    connection_outcome, tables_of, validate_connection, ConnectionDecision, ConnectionDecisionView, consulted_target,
};
use crate::network::capability::Capabilities;
use crate::policy::manager::{audit_recorded, PolicyManager};
use crate::text::{decimal, owned, push_decimal, push_str, str_eq, utf8, utf8_bytes};

verus! {

/// The texts of a list of header pairs.
pub open spec fn header_views(h: Seq<(String, String)>) -> Seq<(Seq<char>, Seq<char>)> {
    h.map_values(|p: (String, String)| (p.0@, p.1@))
}

#[verifier::external_type_specification]
#[verifier::external_body]
pub struct ExUrl(url::Url);

/// A URL parsed by the `url` crate, kept with the text it was parsed from.
/// Only `parse_url` makes one, so the parsed value is always the parse of
/// that text; its view is the text.
pub struct ParsedUrl {
    url: url::Url,
    text: String,
}

impl View for ParsedUrl {
    type V = Seq<char>;

    closed spec fn view(&self) -> Seq<char> {
        self.text@
    }
}

/// Whether `url::Url::parse` accepts the text as an absolute URL.
pub uninterp spec fn url_parses(input: Seq<char>) -> bool;

/// What `url::Url::host_str` gives for the URL parsed from the text.
pub uninterp spec fn url_host_of(input: Seq<char>) -> Option<Seq<char>>;

/// What `url::Url::port_or_known_default` gives for the URL parsed from the
/// text.
pub uninterp spec fn url_port_of(input: Seq<char>) -> Option<u16>;

/// The host and port a URL text names, the port defaulting to the scheme's
/// known port; `None` if the text does not parse or lacks either.
pub open spec fn url_target(url: Seq<char>) -> Option<(Seq<char>, u16)> {
    if url_parses(url) {
        match (url_host_of(url), url_port_of(url)) {
            (Some(h), Some(p)) => Some((h, p)),
            _ => None,
        }
    } else {
        None
    }
}

/// `url::Url::parse`: parses an absolute URL. It succeeds exactly on the
/// texts the crate's URL parser accepts; the parsed value is kept with its
/// text.
#[verifier::external_body]
fn parse_url(input: &str) -> (r: Option<ParsedUrl>)
    ensures
        r is Some <==> url_parses(input@),
        r matches Some(u) ==> u@ == input@,
{
    match url::Url::parse(input) {
        Ok(url) => Some(ParsedUrl { url, text: input.to_string() }),
        Err(_) => None,
    }
}

/// `url::Url::host_str`: the host of the URL, if it has one. Parsing is
/// deterministic, so the host is a function of the URL's text.
#[verifier::external_body]
fn url_host(u: &ParsedUrl) -> (r: Option<String>)
    ensures
        match r {
            Some(h) => url_host_of(u@) == Some(h@),
            None => url_host_of(u@) is None,
        },
{
    u.url.host_str().map(|h| h.to_string())
}

/// `url::Url::port_or_known_default`: the explicit port, or the scheme's
/// default port (80 for http and ws, 443 for https and wss, 21 for ftp).
/// Parsing is deterministic, so the port is a function of the URL's text.
#[verifier::external_body]
fn url_port(u: &ParsedUrl) -> (r: Option<u16>)
    ensures
        r == url_port_of(u@),
{
    u.url.port_or_known_default()
}

/// Request to be executed by the egress proxy.
#[derive(Debug)]
pub struct EgressRequest {
    /// HTTP method.
    pub method: String,
    /// Full URL (scheme://host:port/path).
    pub url: String,
    /// Request headers.
    pub headers: Vec<(String, String)>,
    /// Request body.
    pub body: Option<Vec<u8>>,
}

impl EgressRequest {
    /// Creates a request with no headers and no body.
    pub fn new(method: String, url: String) -> (r: Self)
        ensures
            r.method == method,
            r.url == url,
            r.headers@.len() == 0,
            r.body is None,
    {
        EgressRequest { method, url, headers: Vec::new(), body: None }
    }

    /// Adds a header to the request.
    pub fn with_header(self, name: String, value: String) -> (r: Self)
        ensures
            r.method == self.method,
            r.url == self.url,
            r.headers@ == self.headers@.push((name, value)),
            r.body == self.body,
    {
        let mut s = self;
        s.headers.push((name, value));
        s
    }

    /// Sets the request body.
    pub fn with_body(self, body: Vec<u8>) -> (r: Self)
        ensures
            r.method == self.method,
            r.url == self.url,
            r.headers@ == self.headers@,
            r.body == Some(body),
    {
        let mut s = self;
        s.body = Some(body);
        s
    }

    /// The host and port the URL names, the port defaulting to the
    /// scheme's known port; `None` if the URL does not parse or lacks either.
    pub fn host_port(&self) -> (r: Option<(String, u16)>)
        ensures
            match url_target(self.url@) {
                Some((h, p)) => r matches Some((rh, rp)) && rh@ == h && rp == p,
                None => r is None,
            },
    {
        let url = match parse_url(self.url.as_str()) {
            Some(u) => u,
            None => {
                return None;
            },
        };
        let host = match url_host(&url) {
            Some(h) => h,
            None => {
                return None;
            },
        };
        let port = match url_port(&url) {
            Some(p) => p,
            None => {
                return None;
            },
        };
        Some((host, port))
    }
}

/// Response from the egress proxy.
#[derive(Debug)]
pub struct EgressResponse {
    /// HTTP status code.
    pub status: u16,
    /// Response headers.
    pub headers: Vec<(String, String)>,
    /// Response body.
    pub body: Vec<u8>,
}

/// An error response: the status, a plain-text content type, and the
/// message's UTF-8 bytes as the body.
pub open spec fn is_error_response(r: EgressResponse, status: u16, message: Seq<u8>) -> bool {
    &&& r.status == status
    &&& header_views(r.headers@) == seq![("content-type"@, "text/plain"@)]
    &&& r.body@ == message
}

impl EgressResponse {
    /// Creates a response with no headers and an empty body.
    pub fn new(status: u16) -> (r: Self)
        ensures
            r.status == status,
            r.headers@.len() == 0,
            r.body@.len() == 0,
    {
        EgressResponse { status, headers: Vec::new(), body: Vec::new() }
    }

    /// Adds a header to the response.
    pub fn with_header(self, name: String, value: String) -> (r: Self)
        ensures
            r.status == self.status,
            r.headers@ == self.headers@.push((name, value)),
            r.body == self.body,
    {
        let mut s = self;
        s.headers.push((name, value));
        s
    }

    /// Sets the response body.
    pub fn with_body(self, body: Vec<u8>) -> (r: Self)
        ensures
            r.status == self.status,
            r.headers@ == self.headers@,
            r.body == body,
    {
        let mut s = self;
        s.body = body;
        s
    }

    /// Creates an error response with the given status and message.
    pub fn error(status: u16, message: &str) -> (r: Self)
        ensures
            is_error_response(r, status, utf8(message@)),
    {
        let mut headers: Vec<(String, String)> = Vec::new();
        headers.push((owned("content-type"), owned("text/plain")));
        let r = EgressResponse { status, headers, body: utf8_bytes(message) };
        assert(header_views(r.headers@) =~= seq![("content-type"@, "text/plain"@)]);
        r
    }
}

/// Request for an outbound TCP connection.
#[derive(Debug)]
pub struct TcpConnectRequest {
    /// Target hostname or IP address.
    pub host: String,
    /// Target port.
    pub port: u16,
}

impl TcpConnectRequest {
    /// Creates a new TCP connect request.
    pub fn new(host: String, port: u16) -> (r: Self)
        ensures
            r.host == host,
            r.port == port,
    {
        TcpConnectRequest { host, port }
    }

    /// The target as "host:port".
    pub fn target(&self) -> (r: String)
        ensures
            r@ == self.host@ + ":"@ + decimal(self.port as nat),
    {
        let mut t = self.host.clone();
        push_str(&mut t, ":");
        push_decimal(&mut t, self.port as u64);
        t
    }
}

/// Result of a TCP connection attempt; `C` is what an established
/// connection hands over (the stream and the peer address).
#[derive(Debug)]
pub enum TcpConnectResult<C> {
    /// Connection established successfully.
    Connected {
        /// The established connection.
        connection: C,
    },
    /// Connection denied due to capability or policy violation.
    Denied {
        /// Reason the connection was denied.
        reason: String,
    },
    /// Connection failed due to network error.
    Failed {
        /// Error description.
        error: String,
    },
}

impl<C> TcpConnectResult<C> {
    /// Returns true if the connection was established.
    pub fn is_connected(&self) -> (r: bool)
        ensures
            r == (self is Connected),
    {
        match self {
            TcpConnectResult::Connected { .. } => true,
            _ => false,
        }
    }

    /// Returns true if the connection was denied.
    pub fn is_denied(&self) -> (r: bool)
        ensures
            r == (self is Denied),
    {
        match self {
            TcpConnectResult::Denied { .. } => true,
            _ => false,
        }
    }

    /// Returns true if the connection failed.
    pub fn is_failed(&self) -> (r: bool)
        ensures
            r == (self is Failed),
    {
        match self {
            TcpConnectResult::Failed { .. } => true,
            _ => false,
        }
    }
}

/// What the egress proxy does with an HTTP request.
#[derive(Debug)]
pub enum EgressStep {
    /// Hand the request to the internal service with this ID.
    RouteInternal { service_id: String },
    /// Execute the request against the external host.
    ExecuteExternal,
    /// Answer with this response without going anywhere.
    Respond { response: EgressResponse },
}

/// The body of a refusal: "Forbidden: " and the reason.
pub open spec fn forbidden_text(reason: Seq<char>) -> Seq<char> {
    "Forbidden: "@ + reason
}

/// The step for a connection decision: allowed connections go on to the
/// internal service or the external host; a denial is answered with 403
/// and the reason.
pub open spec fn step_matches(step: EgressStep, d: ConnectionDecisionView) -> bool {
    match d {
        ConnectionDecisionView::AllowInternal { service_id } =>
            step matches EgressStep::RouteInternal { service_id: s } && s@ == service_id,
        ConnectionDecisionView::AllowExternal => step is ExecuteExternal,
        ConnectionDecisionView::DenyCapability { reason } => step matches EgressStep::Respond { response }
            && is_error_response(response, 403, utf8(forbidden_text(reason))),
        ConnectionDecisionView::DenyNetwork { reason } => step matches EgressStep::Respond { response }
            && is_error_response(response, 403, utf8(forbidden_text(reason))),
        ConnectionDecisionView::DenyPolicy { reason } => step matches EgressStep::Respond { response }
            && is_error_response(response, 403, utf8(forbidden_text(reason))),
    }
}

/// The response for a refused connection: 403 with "Forbidden: " and the reason.
fn forbidden(reason: &str) -> (r: EgressResponse)
    ensures
        is_error_response(r, 403, utf8(forbidden_text(reason@))),
{
    let mut text = owned("Forbidden: ");
    push_str(&mut text, reason);
    EgressResponse::error(403, text.as_str())
}

/// The step for a connection decision: allowed connections go on to the
/// internal service or to the external host; denials are answered with 403.
pub fn egress_step(decision: ConnectionDecision) -> (r: EgressStep)
    ensures
        step_matches(r, decision@),
{
    match decision {
        ConnectionDecision::AllowInternal { service_id } => EgressStep::RouteInternal { service_id },
        ConnectionDecision::AllowExternal => EgressStep::ExecuteExternal,
        ConnectionDecision::DenyCapability { reason } => EgressStep::Respond { response: forbidden(reason.as_str()) },
        ConnectionDecision::DenyNetwork { reason } => EgressStep::Respond { response: forbidden(reason.as_str()) },
        ConnectionDecision::DenyPolicy { reason } => EgressStep::Respond { response: forbidden(reason.as_str()) },
    }
}

/// Decides what to do with an outbound HTTP request of a service: a URL
/// without host and port is answered with 400 "Invalid URL" and nothing is
/// validated; otherwise the connection to the URL's host and port is
/// validated and the decision turned into a step.
pub fn plan_request(
    from_service_id: &str,
    capabilities: &Option<Capabilities>,
    request: &EgressRequest,
    network_manager: &NetworkManager,
    policy_manager: Option<&mut PolicyManager>,
) -> (r: EgressStep)
    requires
        network_manager.wf(),
        policy_manager matches Some(pm) ==> pm.wf(),
    ensures
        match url_target(request.url@) {
            None => r matches EgressStep::Respond { response }
                && is_error_response(response, 400, utf8("Invalid URL"@)),
            Some((host, port)) => step_matches(r, connection_outcome(
                from_service_id@,
                *capabilities,
                host,
                port,
                network_manager.reg().names(),
                network_manager.memberships(),
                tables_of(policy_manager),
            )),
        },
        policy_manager matches Some(pm) ==> {
            &&& final(pm).wf()
            &&& final(pm).policies_view() == pm.policies_view()
            &&& final(pm).s2m_view() == pm.s2m_view()
            &&& match url_target(request.url@) {
                None => final(pm).bus() == pm.bus(),
                Some((host, port)) => match consulted_target(
                    from_service_id@,
                    *capabilities,
                    host,
                    port,
                    network_manager.reg().names(),
                    network_manager.memberships(),
                ) {
                    Some(to) => audit_recorded(
                        pm.bus(),
                        final(pm).bus(),
                        pm.policies_view(),
                        pm.s2m_view(),
                        from_service_id@,
                        to,
                    ),
                    None => final(pm).bus() == pm.bus(),
                },
            }
        },
{
    match request.host_port() {
        None => EgressStep::Respond { response: EgressResponse::error(400, "Invalid URL") },
        Some((host, port)) => plan_request_to(
            from_service_id,
            capabilities,
            host.as_str(),
            port,
            network_manager,
            policy_manager,
        ),
    }
}

/// Decides what to do with an HTTP request whose URL names `host` and
/// `port`: the connection is validated and the decision turned into a step.
pub fn plan_request_to(
    from_service_id: &str,
    capabilities: &Option<Capabilities>,
    host: &str,
    port: u16,
    network_manager: &NetworkManager,
    policy_manager: Option<&mut PolicyManager>,
) -> (r: EgressStep)
    requires
        network_manager.wf(),
        policy_manager matches Some(pm) ==> pm.wf(),
    ensures
        step_matches(r, connection_outcome(
            from_service_id@,
            *capabilities,
            host@,
            port,
            network_manager.reg().names(),
            network_manager.memberships(),
            tables_of(policy_manager),
        )),
        policy_manager matches Some(pm) ==> {
            &&& final(pm).wf()
            &&& final(pm).policies_view() == pm.policies_view()
            &&& final(pm).s2m_view() == pm.s2m_view()
            &&& match consulted_target(
                from_service_id@,
                *capabilities,
                host@,
                port,
                network_manager.reg().names(),
                network_manager.memberships(),
            ) {
                Some(to) => audit_recorded(
                    pm.bus(),
                    final(pm).bus(),
                    pm.policies_view(),
                    pm.s2m_view(),
                    from_service_id@,
                    to,
                ),
                None => final(pm).bus() == pm.bus(),
            }
        },
{
    let decision = validate_connection(from_service_id, capabilities, host, port, network_manager, policy_manager);
    egress_step(decision)
}

/// What the egress proxy does with a TCP connect request.
#[derive(Debug)]
pub enum TcpStep {
    /// Establish the connection to the requested host and port.
    Connect,
    /// Refuse with this reason.
    Deny { reason: String },
}

/// The TCP step for a connection decision: allowed connections, internal or
/// external, are established to the requested host and port; denials carry
/// the reason.
pub open spec fn tcp_step_matches(step: TcpStep, d: ConnectionDecisionView) -> bool {
    match d {
        ConnectionDecisionView::AllowInternal { .. } => step is Connect,
        ConnectionDecisionView::AllowExternal => step is Connect,
        ConnectionDecisionView::DenyCapability { reason } => step matches TcpStep::Deny { reason: s } && s@ == reason,
        ConnectionDecisionView::DenyNetwork { reason } => step matches TcpStep::Deny { reason: s } && s@ == reason,
        ConnectionDecisionView::DenyPolicy { reason } => step matches TcpStep::Deny { reason: s } && s@ == reason,
    }
}

/// Decides what to do with an outbound TCP connect request of a service.
pub fn plan_tcp_connect(
    from_service_id: &str,
    capabilities: &Option<Capabilities>,
    request: &TcpConnectRequest,
    network_manager: &NetworkManager,
    policy_manager: Option<&mut PolicyManager>,
) -> (r: TcpStep)
    requires
        network_manager.wf(),
        policy_manager matches Some(pm) ==> pm.wf(),
    ensures
        tcp_step_matches(r, connection_outcome(
            from_service_id@,
            *capabilities,
            request.host@,
            request.port,
            network_manager.reg().names(),
            network_manager.memberships(),
            tables_of(policy_manager),
        )),
        policy_manager matches Some(pm) ==> {
            &&& final(pm).wf()
            &&& final(pm).policies_view() == pm.policies_view()
            &&& final(pm).s2m_view() == pm.s2m_view()
            &&& match consulted_target(
                from_service_id@,
                *capabilities,
                request.host@,
                request.port,
                network_manager.reg().names(),
                network_manager.memberships(),
            ) {
                Some(to) => audit_recorded(
                    pm.bus(),
                    final(pm).bus(),
                    pm.policies_view(),
                    pm.s2m_view(),
                    from_service_id@,
                    to,
                ),
                None => final(pm).bus() == pm.bus(),
            }
        },
{
    let decision = validate_connection(
        from_service_id,
        capabilities,
        request.host.as_str(),
        request.port,
        network_manager,
        policy_manager,
    );
    match decision {
        ConnectionDecision::AllowInternal { .. } => TcpStep::Connect,
        ConnectionDecision::AllowExternal => TcpStep::Connect,
        ConnectionDecision::DenyCapability { reason } => TcpStep::Deny { reason },
        ConnectionDecision::DenyNetwork { reason } => TcpStep::Deny { reason },
        ConnectionDecision::DenyPolicy { reason } => TcpStep::Deny { reason },
    }
}

/// The response when no handler for internal routing is configured:
/// 503 "Internal routing not available".
pub fn internal_routing_unavailable() -> (r: EgressResponse)
    ensures
        is_error_response(r, 503, utf8("Internal routing not available"@)),
{
    EgressResponse::error(503, "Internal routing not available")
}

/// The response when routing to an internal service failed with `error`:
/// 502 "Bad Gateway: " and the error.
pub fn bad_gateway(error: &str) -> (r: EgressResponse)
    ensures
        is_error_response(r, 502, utf8("Bad Gateway: "@ + error@)),
{
    let mut text = owned("Bad Gateway: ");
    push_str(&mut text, error);
    EgressResponse::error(502, text.as_str())
}

/// The answer to a request routed to an internal service, from what the
/// route handler did: `None` when no handler is configured (503), the
/// handler's own response when it succeeded, and 502 "Bad Gateway: " with
/// the error when it failed.
pub fn internal_route_response(handler_result: Option<Result<EgressResponse, String>>) -> (r: EgressResponse)
    ensures
        match handler_result {
            None => is_error_response(r, 503, utf8("Internal routing not available"@)),
            Some(Ok(response)) => r == response,
            Some(Err(e)) => is_error_response(r, 502, utf8("Bad Gateway: "@ + e@)),
        },
{
    match handler_result {
        None => internal_routing_unavailable(),
        Some(Ok(response)) => response,
        Some(Err(e)) => bad_gateway(e.as_str()),
    }
}

/// HTTP methods the egress proxy can execute.
#[derive(Debug, Clone, Copy, PartialEq, Eq, Structural)]
pub enum HttpMethod {
    Get,
    Post,
    Put,
    Delete,
    Patch,
    Head,
    Options,
}

/// The upper-case name of a method.
pub open spec fn method_name(m: HttpMethod) -> Seq<char> {
    match m {
        HttpMethod::Get => "GET"@,
        HttpMethod::Post => "POST"@,
        HttpMethod::Put => "PUT"@,
        HttpMethod::Delete => "DELETE"@,
        HttpMethod::Patch => "PATCH"@,
        HttpMethod::Head => "HEAD"@,
        HttpMethod::Options => "OPTIONS"@,
    }
}

/// Each method is known by its own name: a name that is one of the seven
/// method names belongs to the method of that name and to no other, so a
/// parsed method is the one its upper-cased text names.
pub proof fn lemma_method_named(m: HttpMethod, name: Seq<char>)
    requires
        method_name(m) == name,
    ensures
        name == "GET"@ <==> m == HttpMethod::Get,
        name == "POST"@ <==> m == HttpMethod::Post,
        name == "PUT"@ <==> m == HttpMethod::Put,
        name == "DELETE"@ <==> m == HttpMethod::Delete,
        name == "PATCH"@ <==> m == HttpMethod::Patch,
        name == "HEAD"@ <==> m == HttpMethod::Head,
        name == "OPTIONS"@ <==> m == HttpMethod::Options,
{
    reveal_strlit("GET");
    reveal_strlit("POST");
    reveal_strlit("PUT");
    reveal_strlit("DELETE");
    reveal_strlit("PATCH");
    reveal_strlit("HEAD");
    reveal_strlit("OPTIONS");
    let (c0, c1) = (name[0], name[1]);
    let lits = seq!["GET"@, "POST"@, "PUT"@, "DELETE"@, "PATCH"@, "HEAD"@, "OPTIONS"@];
    assert forall|i: int| 0 <= i < 7 implies (name == #[trigger] lits[i] <==> name.len() == lits[i].len()
        && c0 == lits[i][0] && c1 == lits[i][1]) by {
        if name.len() == lits[i].len() && c0 == lits[i][0] && c1 == lits[i][1] {
            assert(name =~= lits[i]);
        }
    }
    assert(lits[0] == "GET"@);
    assert(lits[1] == "POST"@);
    assert(lits[2] == "PUT"@);
    assert(lits[3] == "DELETE"@);
    assert(lits[4] == "PATCH"@);
    assert(lits[5] == "HEAD"@);
    assert(lits[6] == "OPTIONS"@);
}

/// What `str::to_uppercase` gives for a text (Unicode upper-casing).
pub uninterp spec fn upper_text(s: Seq<char>) -> Seq<char>;

/// `str::to_uppercase` from std: the text with every character mapped to
/// its Unicode upper case.
#[verifier::external_body]
fn to_upper(s: &str) -> (r: String)
    ensures
        r@ == upper_text(s@),
{
    s.to_uppercase()
}

/// Parses a request's method, case-insensitively: one of GET, POST, PUT,
/// DELETE, PATCH, HEAD, OPTIONS. Anything else is answered with 400
/// "Unsupported method: " and the upper-cased method.
pub fn parse_method(method: &str) -> (r: Result<HttpMethod, EgressResponse>)
    ensures
        match r {
            Ok(m) => method_name(m) == upper_text(method@),
            Err(resp) => (forall|m: HttpMethod| method_name(m) != upper_text(method@))
                && is_error_response(resp, 400, utf8("Unsupported method: "@ + upper_text(method@))),
        },
{
    let up = to_upper(method);
    let u = up.as_str();
    if str_eq(u, "GET") {
        Ok(HttpMethod::Get)
    } else if str_eq(u, "POST") {
        Ok(HttpMethod::Post)
    } else if str_eq(u, "PUT") {
        Ok(HttpMethod::Put)
    } else if str_eq(u, "DELETE") {
        Ok(HttpMethod::Delete)
    } else if str_eq(u, "PATCH") {
        Ok(HttpMethod::Patch)
    } else if str_eq(u, "HEAD") {
        Ok(HttpMethod::Head)
    } else if str_eq(u, "OPTIONS") {
        Ok(HttpMethod::Options)
    } else {
        let mut text = owned("Unsupported method: ");
        push_str(&mut text, u);
        proof {
            assert forall|m: HttpMethod| method_name(m) != upper_text(method@) by {
                match m {
                    HttpMethod::Get => {},
                    HttpMethod::Post => {},
                    HttpMethod::Put => {},
                    HttpMethod::Delete => {},
                    HttpMethod::Patch => {},
                    HttpMethod::Head => {},
                    HttpMethod::Options => {},
                }
            }
        }
        Err(EgressResponse::error(400, text.as_str()))
    }
}

} // verus!
