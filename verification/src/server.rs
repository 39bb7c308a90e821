//! What the local HTTP server answers the website.

use crate::call::{Call, CallView, Question, QuestionView};
use crate::config::{Config, ConfigView, VcenterEntry, VcenterEntryView};
use crate::http;
use crate::ids;
use crate::request::HttpMethod;
use crate::route;
use crate::soap;
use crate::text;
use crate::vcenter;
use crate::vcenter::{Upstream, UpstreamView, VcError, VcErrorView};
use crate::xml;
use vstd::prelude::*;
use vstd::string::StringExecFns;

verus! {

/// The header that marks an answer as the helper's own failure and names its kind.
pub const HELPER_ERROR_HEADER: &'static str = "x-helper-error";

/// The status of the answer to a preflight: 204 No Content.
pub const PREFLIGHT_STATUS: u16 = 204;

/// The version of the helper.
pub const HELPER_VERSION: &'static str = "0.3.0";

/// A failure on the helper's side. The website tells it from a vCenter's by the header
/// [`HELPER_ERROR_HEADER`], which holds its kind.
#[derive(Debug)]
pub struct HelperError {
    /// The HTTP status of the answer.
    pub status: u16,
    pub kind: &'static str,
    pub message: String,
}

/// What a [`HelperError`] says.
#[verifier::ext_equal]
pub struct HelperErrorView {
    pub status: u16,
    pub kind: Seq<char>,
    pub message: Seq<char>,
}

impl View for HelperError {
    type V = HelperErrorView;

    open spec fn view(&self) -> HelperErrorView {
        HelperErrorView { status: self.status, kind: self.kind@, message: self.message@ }
    }
}

/// A failure on the helper's side.
pub fn helper_error(status: u16, kind: &'static str, message: String) -> (error: HelperError)
    ensures
        error@ == (HelperErrorView { status, kind: kind@, message: message@ }),
{
    HelperError { status, kind, message }
}

/// A failure to ask a vCenter, as the website is told of it.
pub open spec fn of_vc_error(error: VcErrorView) -> HelperErrorView {
    HelperErrorView { status: error.status, kind: error.kind, message: error.message }
}

/// A page or program that uses the server.
pub struct Caller {
    /// The website's origin. A program other than a browser has none.
    pub origin: Option<String>,
    pub allowed: bool,
}

/// What a [`Caller`] says.
#[verifier::ext_equal]
pub struct CallerView {
    pub origin: Option<Seq<char>>,
    pub allowed: bool,
}

impl View for Caller {
    type V = CallerView;

    open spec fn view(&self) -> CallerView {
        CallerView { origin: text::option_view(self.origin), allowed: self.allowed }
    }
}

/// Whether a `Host` header names this machine's loopback, with or without a port.
pub open spec fn is_loopback(host: Seq<char>) -> bool {
    let name = text::before_last_char(host, ':');
    name == "127.0.0.1"@ || text::lower(name) == "localhost"@
}

/// What becomes of a request before it is looked at any closer.
pub enum Admission {
    /// It is answered with an error.
    Refused(HelperError),
    /// It is a browser's question whether it may send a request, and is answered with this status
    /// and nothing else. That grants nothing by itself: the request that follows is checked.
    Preflight(u16, Option<String>),
    /// It is handled, on behalf of the caller.
    Handled(Caller),
}

/// What becomes of a request before it is looked at any closer.
#[verifier::ext_equal]
pub enum AdmissionView {
    Refused(HelperErrorView),
    Preflight(u16, Option<Seq<char>>),
    Handled(CallerView),
}

impl View for Admission {
    type V = AdmissionView;

    open spec fn view(&self) -> AdmissionView {
        match self {
            Admission::Refused(error) => AdmissionView::Refused(error@),
            Admission::Preflight(status, origin) => AdmissionView::Preflight(
                *status,
                text::option_view(*origin),
            ),
            Admission::Handled(caller) => AdmissionView::Handled(caller@),
        }
    }
}

/// The caller that sends the `Origin` header `origin`. No `Origin` header means a non-browser
/// client on this machine (curl, scripts).
pub open spec fn caller_of(config: ConfigView, origin: Option<Seq<char>>) -> CallerView {
    CallerView {
        origin,
        allowed: match origin {
            Some(origin) => config.origin_allowed(origin),
            None => true,
        },
    }
}

/// What becomes of a request with these headers. Headers that are not visible ASCII count as
/// absent.
pub open spec fn admission(
    config: ConfigView,
    method: Seq<char>,
    host: Option<Seq<u8>>,
    origin: Option<Seq<u8>>,
) -> AdmissionView {
    let origin = http::header_text_of(origin);
    match http::header_text_of(host) {
        Some(host) if is_loopback(host) => if method == "OPTIONS"@ {
            AdmissionView::Preflight(PREFLIGHT_STATUS, origin)
        } else {
            AdmissionView::Handled(caller_of(config, origin))
        },
        _ => AdmissionView::Refused(
            HelperErrorView {
                status: 403,
                kind: "forbidden_host"@,
                message: "Requests must be addressed to 127.0.0.1 or localhost."@,
            },
        ),
    }
}

/// Whether a `Host` header names this machine's loopback, with or without a port.
pub fn host_is_loopback(host: &str) -> (yes: bool)
    ensures
        yes == is_loopback(host@),
{
    let name = text::text_before_last(host, ':');
    text::same_text(&name, "127.0.0.1") || text::same_text(&text::lowered(&name), "localhost")
}

/// Host check (DNS-rebinding defence) and origin allowlist: what becomes of a request.
pub fn guard(
    config: &Config,
    method: &str,
    host: &Option<Vec<u8>>,
    origin: &Option<Vec<u8>>,
) -> (r: Admission)
    ensures
        r@ == admission(config@, method@, http::header_bytes(*host), http::header_bytes(*origin)),
{
    let loopback = match http::optional_header_text(host) {
        Some(host) => host_is_loopback(&host),
        None => false,
    };
    if !loopback {
        return Admission::Refused(
            helper_error(
                403,
                "forbidden_host",
                "Requests must be addressed to 127.0.0.1 or localhost.".to_owned(),
            ),
        );
    }
    let origin = http::optional_header_text(origin);
    if text::same_text(method, "OPTIONS") {
        return Admission::Preflight(PREFLIGHT_STATUS, origin);
    }
    let allowed = match &origin {
        Some(origin) => config.origin_allowed(origin),
        None => true,
    };
    Admission::Handled(Caller { origin, allowed })
}

/// The headers that every answer to a request from `origin` carries, unless it was refused for
/// its host.
pub open spec fn answer_headers(origin: Option<Seq<char>>) -> Seq<(Seq<char>, Seq<char>)> {
    let always = seq![("vary"@, "Origin"@), ("cache-control"@, "no-store"@)];
    match origin {
        Some(origin) if http::can_be_header(origin) => seq![
            ("access-control-allow-origin"@, origin),
            ("access-control-allow-methods"@, "GET, POST, OPTIONS"@),
            ("access-control-allow-headers"@, "content-type"@),
            ("access-control-expose-headers"@, HELPER_ERROR_HEADER@),
            ("access-control-max-age"@, "600"@),
            ("access-control-allow-private-network"@, "true"@),
        ] + always,
        _ => always,
    }
}

/// The headers that every answer to a request from `origin` carries, unless it was refused for
/// its host: CORS and Private Network Access, and that answers are not to be cached.
pub fn response_headers(origin: &Option<String>) -> (headers: Vec<(&'static str, String)>)
    ensures
        named_headers(headers@) == answer_headers(text::option_view(*origin)),
{
    let mut headers: Vec<(&'static str, String)> = Vec::new();
    if let Some(origin) = origin {
        if http::is_header_value(origin) {
            headers.push(("access-control-allow-origin", origin.clone()));
            headers.push(("access-control-allow-methods", "GET, POST, OPTIONS".to_owned()));
            headers.push(("access-control-allow-headers", "content-type".to_owned()));
            headers.push(("access-control-expose-headers", HELPER_ERROR_HEADER.to_owned()));
            headers.push(("access-control-max-age", "600".to_owned()));
            // Chrome Private Network Access: public website -> localhost.
            headers.push(("access-control-allow-private-network", "true".to_owned()));
        }
    }
    headers.push(("vary", "Origin".to_owned()));
    headers.push(("cache-control", "no-store".to_owned()));
    assert(named_headers(headers@) == answer_headers(text::option_view(*origin)));
    headers
}

/// What a list of headers says.
pub open spec fn named_headers(headers: Seq<(&'static str, String)>) -> Seq<
    (Seq<char>, Seq<char>),
> {
    headers.map_values(|h: (&'static str, String)| (h.0@, h.1@))
}

/// A vCenter, as the website is told of it.
pub struct VcenterSummary {
    pub id: String,
    pub name: String,
    pub host: String,
    pub username: String,
}

/// What a [`VcenterSummary`] says.
#[verifier::ext_equal]
pub struct VcenterSummaryView {
    pub id: Seq<char>,
    pub name: Seq<char>,
    pub host: Seq<char>,
    pub username: Seq<char>,
}

impl View for VcenterSummary {
    type V = VcenterSummaryView;

    open spec fn view(&self) -> VcenterSummaryView {
        VcenterSummaryView {
            id: self.id@,
            name: self.name@,
            host: self.host@,
            username: self.username@,
        }
    }
}

/// What `/status` answers.
pub struct StatusReply {
    /// Which program answers.
    pub helper: &'static str,
    pub version: &'static str,
    pub origin_allowed: bool,
    pub details: StatusDetails,
}

/// What `/status` answers besides.
pub enum StatusDetails {
    /// To a website that is not allowed: its origin, so that it can explain what to do.
    Refused(Option<String>),
    /// To one that is: whether anything is configured, the vCenters, and what the helper can do.
    Granted(bool, Vec<VcenterSummary>, Vec<&'static str>),
}

/// What a [`StatusReply`] says.
#[verifier::ext_equal]
pub struct StatusReplyView {
    pub helper: Seq<char>,
    pub version: Seq<char>,
    pub origin_allowed: bool,
    pub details: StatusDetailsView,
}

/// What a [`StatusDetails`] says.
#[verifier::ext_equal]
pub enum StatusDetailsView {
    Refused(Option<Seq<char>>),
    Granted(bool, Seq<VcenterSummaryView>, Seq<Seq<char>>),
}

impl View for StatusDetails {
    type V = StatusDetailsView;

    open spec fn view(&self) -> StatusDetailsView {
        match self {
            StatusDetails::Refused(origin) => StatusDetailsView::Refused(
                text::option_view(*origin),
            ),
            StatusDetails::Granted(configured, vcenters, capabilities) =>
                StatusDetailsView::Granted(
                *configured,
                summaries_view(vcenters@),
                capabilities@.map_values(|c: &'static str| c@),
            ),
        }
    }
}

impl View for StatusReply {
    type V = StatusReplyView;

    open spec fn view(&self) -> StatusReplyView {
        StatusReplyView {
            helper: self.helper@,
            version: self.version@,
            origin_allowed: self.origin_allowed,
            details: self.details@,
        }
    }
}

/// What the summaries of a list say.
pub open spec fn summaries_view(summaries: Seq<VcenterSummary>) -> Seq<VcenterSummaryView> {
    summaries.map_values(|s: VcenterSummary| s@)
}

/// An entry, as the website is told of it.
pub open spec fn summary_of(entry: VcenterEntryView) -> VcenterSummaryView {
    VcenterSummaryView {
        id: entry.id,
        name: entry.name,
        host: entry.host,
        username: entry.username,
    }
}

/// What `/status` answers the caller. One that is not allowed learns nothing about the vCenters.
pub open spec fn status_reply(config: ConfigView, caller: CallerView) -> StatusReplyView {
    StatusReplyView {
        helper: "dbh-insights-helper"@,
        version: HELPER_VERSION@,
        origin_allowed: caller.allowed,
        details: if caller.allowed {
            StatusDetailsView::Granted(
                config.vcenters.len() > 0,
                config.vcenters.map_values(|entry: VcenterEntryView| summary_of(entry)),
                seq!["rest"@, "soap"@, "perf"@],
            )
        } else {
            StatusDetailsView::Refused(caller.origin)
        },
    }
}

/// What `/status` answers the caller.
pub fn status(config: &Config, caller: Caller) -> (reply: StatusReply)
    ensures
        reply@ == status_reply(config@, caller@),
{
    if !caller.allowed {
        // Enough for the website to explain what to do, nothing about the vCenter.
        return StatusReply {
            helper: "dbh-insights-helper",
            version: HELPER_VERSION,
            origin_allowed: false,
            details: StatusDetails::Refused(caller.origin),
        };
    }
    let mut vcenters: Vec<VcenterSummary> = Vec::new();
    for i in 0..config.vcenters.len()
        invariant
            vcenters@.len() == i,
            forall|j: int|
                0 <= j < i ==> (#[trigger] vcenters@[j])@ == summary_of(config.vcenters@[j]@),
    {
        let entry = &config.vcenters[i];
        vcenters.push(
            VcenterSummary {
                id: entry.id.clone(),
                name: entry.name.clone(),
                host: entry.host.clone(),
                username: entry.username.clone(),
            },
        );
    }
    let mut capabilities: Vec<&'static str> = Vec::new();
    capabilities.push("rest");
    capabilities.push("soap");
    capabilities.push("perf");
    assert(summaries_view(vcenters@) == config@.vcenters.map_values(
        |entry: VcenterEntryView| summary_of(entry),
    ));
    assert(capabilities@.map_values(|c: &'static str| c@) == seq!["rest"@, "soap"@, "perf"@]);
    StatusReply {
        helper: "dbh-insights-helper",
        version: HELPER_VERSION,
        origin_allowed: true,
        details: StatusDetails::Granted(vcenters.len() > 0, vcenters, capabilities),
    }
}

/// A website that is not allowed is answered the same whatever is configured.
pub proof fn law_status_hides_the_settings(a: ConfigView, b: ConfigView, caller: CallerView)
    requires
        !caller.allowed,
    ensures
        status_reply(a, caller) == status_reply(b, caller),
{
}

/// The vCenter that a request is for, which names `id` or none.
pub open spec fn resolution(vcenters: Seq<VcenterEntryView>, id: Option<Seq<char>>) -> Result<
    VcenterEntryView,
    HelperErrorView,
> {
    if vcenters.len() == 0 {
        Err(
            HelperErrorView {
                status: 409,
                kind: "not_configured"@,
                message: "The helper has no vCenters configured. Open the DBH Insights Helper window and add one."@,
            },
        )
    } else {
        match id {
            Some(id) => if ids::has_id(vcenters, id) {
                Ok(ids::first_with_id(vcenters, id))
            } else {
                Err(
                    HelperErrorView {
                        status: 404,
                        kind: "unknown_vcenter"@,
                        message: "The helper has no vCenter with id \""@ + id + "\"."@,
                    },
                )
            },
            None => if vcenters.len() == 1 {
                Ok(vcenters[0])
            } else {
                Err(
                    HelperErrorView {
                        status: 400,
                        kind: "vcenter_required"@,
                        message: "Several vCenters are configured. Add \"vcenter\": \"<id>\" to the request."@,
                    },
                )
            },
        }
    }
}

/// Picks the vCenter a request is for. `id` may be omitted when exactly one is configured.
pub fn resolve_vcenter(config: &Config, id: &Option<String>) -> (r: Result<
    VcenterEntry,
    HelperError,
>)
    ensures
        match (r, resolution(config@.vcenters, text::option_view(*id))) {
            (Ok(entry), Ok(expected)) => entry@ == expected,
            (Err(error), Err(expected)) => error@ == expected,
            _ => false,
        },
{
    if config.vcenters.len() == 0 {
        return Err(
            helper_error(
                409,
                "not_configured",
                "The helper has no vCenters configured. Open the DBH Insights Helper window and add one.".to_owned(),
            ),
        );
    }
    match id {
        Some(id) => match ids::index_of_id(&config.vcenters, id) {
            Some(i) => {
                proof {
                    ids::lemma_first_with_id(config@.vcenters, id@, i as int);
                }
                Ok(config.vcenters[i].clone())
            },
            None => Err(
                helper_error(
                    404,
                    "unknown_vcenter",
                    "The helper has no vCenter with id \"".to_owned().concat(id).concat("\"."),
                ),
            ),
        },
        None => if config.vcenters.len() == 1 {
            Ok(config.vcenters[0].clone())
        } else {
            Err(
                helper_error(
                    400,
                    "vcenter_required",
                    "Several vCenters are configured. Add \"vcenter\": \"<id>\" to the request.".to_owned(),
                ),
            )
        },
    }
}

/// A request to `/proxy`.
pub struct ProxyRequest {
    /// Id of the target vCenter (from `/status`). Optional when only one is configured.
    pub vcenter: Option<String>,
    pub method: String,
    pub path: String,
}

/// What a [`ProxyRequest`] says.
#[verifier::ext_equal]
pub struct ProxyRequestView {
    pub vcenter: Option<Seq<char>>,
    pub method: Seq<char>,
    pub path: Seq<char>,
}

impl View for ProxyRequest {
    type V = ProxyRequestView;

    open spec fn view(&self) -> ProxyRequestView {
        ProxyRequestView {
            vcenter: text::option_view(self.vcenter),
            method: self.method@,
            path: self.path@,
        }
    }
}

/// The method of a request that names none.
pub fn default_method() -> (method: String)
    ensures
        method@ == "GET"@,
        is_get(method@),
{
    proof {
        reveal_strlit("GET");
        reveal_strlit("get");
        assert(text::lower("GET"@) == "get"@);
    }
    "GET".to_owned()
}

/// Whether `method` only reads.
pub open spec fn is_get(method: Seq<char>) -> bool {
    text::lower(method) == "get"@
}

/// The helper only pulls data from vCenter, so GET is the only REST method passed through, in
/// whatever letter case.
pub fn is_read_method(method: &str) -> (yes: bool)
    ensures
        yes == is_get(method@),
{
    text::same_text(&text::lowered(method), "get")
}

/// Whether a path leads to one of vCenter's REST APIs.
pub open spec fn is_api_path(path: Seq<char>) -> bool {
    let path = text::lower(path);
    "/api/"@.is_prefix_of(path) || "/rest/"@.is_prefix_of(path)
}

/// Whether a path leads to where vCenter's sessions are opened and closed, in whatever letter case
/// and however much of it is percent-encoded.
pub open spec fn is_session_path(path: Seq<char>) -> bool {
    let path = text::lower(text::percent_decoded(path));
    "/api/session"@.is_prefix_of(path) || "/rest/com/vmware/cis/session"@.is_prefix_of(path)
}

/// Where a path leads once its dot segments are taken out, which is what is requested.
pub open spec fn destination(path: Seq<char>) -> Seq<char> {
    route::resolved(text::before_char(path, '?'))
}

/// Whether the dot segments of a path, taken out, lead out of the APIs or to a session endpoint.
pub open spec fn leads_astray(path: Seq<char>) -> bool {
    !is_api_path(destination(path)) || is_session_path(destination(path))
}

/// Whether a path has something in it that could lead out of the API or to another host.
pub open spec fn has_escape(path: Seq<char>) -> bool {
    ||| text::occurs(".."@, path)
    ||| text::occurs("//"@, path)
    ||| leads_astray(path)
    ||| path.contains('\\')
    ||| path.contains('@')
    ||| path.contains('#')
}

/// Whether `c` is visible ASCII.
pub open spec fn is_graphic(c: char) -> bool {
    '!' <= c <= '~'
}

/// Whether `path` is visible ASCII throughout.
pub open spec fn is_url_text(path: Seq<char>) -> bool {
    forall|i: int| 0 <= i < path.len() ==> is_graphic(#[trigger] path[i])
}

/// Why a path is not passed through, unless it is.
pub open spec fn path_refusal(path: Seq<char>) -> Option<Seq<char>> {
    if !is_api_path(path) {
        Some("Path must start with /api/ or /rest/."@)
    } else if is_session_path(path) {
        Some("Session endpoints are managed by the helper and cannot be called directly."@)
    } else if has_escape(path) {
        Some("Path contains characters that are not allowed."@)
    } else if !is_url_text(path) {
        Some("Path must be URL-encoded ASCII with no spaces."@)
    } else {
        None
    }
}

/// Whether `c` is one of the characters of `text`.
fn has_char(text: &Vec<char>, c: char) -> (yes: bool)
    ensures
        yes == text@.contains(c),
{
    for i in 0..text.len()
        invariant
            forall|j: int| 0 <= j < i ==> #[trigger] text@[j] != c,
    {
        if text[i] == c {
            assert(text@.contains(text@[i as int]));
            return true;
        }
    }
    false
}

/// Whether a path is visible ASCII throughout.
fn all_graphic(path: &Vec<char>) -> (yes: bool)
    ensures
        yes == is_url_text(path@),
{
    for i in 0..path.len()
        invariant
            forall|j: int| 0 <= j < i ==> is_graphic(#[trigger] path@[j]),
    {
        let c = path[i];
        if !('!' <= c && c <= '~') {
            assert(!is_graphic(path@[i as int]));
            return false;
        }
    }
    true
}

/// Whether a path leads to one of vCenter's REST APIs.
fn api_path(path: &str) -> (yes: bool)
    ensures
        yes == is_api_path(path@),
{
    let path = text::lowered(path);
    text::begins_with(&path, "/api/") || text::begins_with(&path, "/rest/")
}

/// Whether a path leads to where vCenter's sessions are opened and closed.
fn session_path(path: &str) -> (yes: bool)
    ensures
        yes == is_session_path(path@),
{
    let path = text::lowered(&text::decoded(path));
    text::begins_with(&path, "/api/session") || text::begins_with(
        &path,
        "/rest/com/vmware/cis/session",
    )
}

/// Whether the dot segments of a path, taken out, lead out of the APIs or to a session endpoint.
fn astray(path: &str) -> (yes: bool)
    ensures
        yes == leads_astray(path@),
{
    let destination = route::resolve(&text::text_before(path, '?'));
    !api_path(&destination) || session_path(&destination)
}

/// The pass-through only reaches vCenter's REST APIs, never the session endpoints
/// (so a web page can't read or kill the helper's token) and never another host.
pub fn validate_path(path: &str) -> (r: Result<(), &'static str>)
    ensures
        match r {
            Ok(()) => path_refusal(path@) is None,
            Err(message) => path_refusal(path@) == Some(message@),
        },
{
    if !api_path(path) {
        return Err("Path must start with /api/ or /rest/.");
    }
    if session_path(path) {
        return Err(
            "Session endpoints are managed by the helper and cannot be called directly.",
        );
    }
    let chars = text::chars_of(path);
    if text::text_contains(path, "..") || text::text_contains(path, "//") || astray(path)
        || has_char(&chars, '\\') || has_char(&chars, '@') || has_char(&chars, '#') {
        return Err("Path contains characters that are not allowed.");
    }
    if !all_graphic(&chars) {
        return Err("Path must be URL-encoded ASCII with no spaces.");
    }
    Ok(())
}

/// What a website is told that is not allowed.
pub open spec fn origin_refusal(caller: CallerView) -> HelperErrorView {
    let origin = match caller.origin {
        Some(origin) => origin,
        None => "unknown"@,
    };
    HelperErrorView {
        status: 403,
        kind: "origin_not_allowed"@,
        message: "This website ("@ + origin
            + ") is not in the helper's list of allowed websites."@,
    }
}

/// What a website is told that is not allowed.
pub fn origin_not_allowed(caller: &Caller) -> (error: HelperError)
    ensures
        error@ == origin_refusal(caller@),
{
    let origin = match &caller.origin {
        Some(origin) => origin.as_str(),
        None => "unknown",
    };
    helper_error(
        403,
        "origin_not_allowed",
        "This website (".to_owned().concat(origin).concat(
            ") is not in the helper's list of allowed websites.",
        ),
    )
}

/// A request that could not be read, for the reason `message`.
pub open spec fn unreadable(message: Seq<char>) -> HelperErrorView {
    HelperErrorView { status: 400, kind: "bad_request"@, message }
}

/// A question to the vCenter that `id` names, if it can be put.
pub open spec fn call_to(config: ConfigView, id: Option<Seq<char>>, question: QuestionView) -> Result<
    CallView,
    HelperErrorView,
> {
    match resolution(config.vcenters, id) {
        Ok(entry) => match vcenter::completeness(entry) {
            None => Ok(CallView { entry, question, retried: false }),
            Some(error) => Err(of_vc_error(error)),
        },
        Err(error) => Err(error),
    }
}

/// Whether a call or an error says what `expected` says.
pub open spec fn call_or_error(
    r: Result<Call, HelperError>,
    expected: Result<CallView, HelperErrorView>,
) -> bool {
    match (r, expected) {
        (Ok(call), Ok(expected)) => call@ == expected,
        (Err(error), Err(expected)) => error@ == expected,
        _ => false,
    }
}

/// A question to the vCenter that `id` names, if it can be put.
fn call_vcenter(config: &Config, id: &Option<String>, question: Question) -> (r: Result<
    Call,
    HelperError,
>)
    ensures
        call_or_error(r, call_to(config@, text::option_view(*id), question@)),
{
    match resolve_vcenter(config, id) {
        Ok(entry) => match Call::start(entry, question) {
            Ok(call) => Ok(call),
            Err(error) => Err(helper_error(error.status, error.kind, error.message)),
        },
        Err(error) => Err(error),
    }
}

/// What comes of a request to `/proxy`: a question to a vCenter, or an error. `payload` is the
/// request, or why it could not be read.
pub open spec fn proxy_outcome(
    config: ConfigView,
    caller: CallerView,
    payload: Result<ProxyRequestView, Seq<char>>,
) -> Result<CallView, HelperErrorView> {
    if !caller.allowed {
        Err(origin_refusal(caller))
    } else {
        match payload {
            Err(message) => Err(unreadable(message)),
            Ok(request) => if !is_get(request.method) {
                Err(
                    HelperErrorView {
                        status: 403,
                        kind: "read_only"@,
                        message: "The helper only reads from vCenter. Only GET requests are passed through."@,
                    },
                )
            } else {
                match path_refusal(request.path) {
                    Some(message) => Err(
                        HelperErrorView { status: 400, kind: "bad_path"@, message },
                    ),
                    None => call_to(
                        config,
                        request.vcenter,
                        QuestionView::Rest(HttpMethod::Get, request.path),
                    ),
                }
            },
        }
    }
}

/// What a request to `/proxy` says, or why it could not be read.
pub open spec fn proxy_payload(payload: Result<ProxyRequest, String>) -> Result<
    ProxyRequestView,
    Seq<char>,
> {
    match payload {
        Ok(request) => Ok(request@),
        Err(message) => Err(message@),
    }
}

/// What comes of a request to `/proxy`: a question to put to a vCenter, or an error to answer
/// with. `payload` is the request, or why it could not be read.
pub fn proxy(config: &Config, caller: &Caller, payload: Result<ProxyRequest, String>) -> (r: Result<
    Call,
    HelperError,
>)
    ensures
        call_or_error(r, proxy_outcome(config@, caller@, proxy_payload(payload))),
{
    if !caller.allowed {
        return Err(origin_not_allowed(caller));
    }
    match payload {
        Err(message) => Err(helper_error(400, "bad_request", message)),
        Ok(request) => {
            if !is_read_method(&request.method) {
                return Err(
                    helper_error(
                        403,
                        "read_only",
                        "The helper only reads from vCenter. Only GET requests are passed through.".to_owned(),
                    ),
                );
            }
            match validate_path(&request.path) {
                Err(message) => Err(helper_error(400, "bad_path", message.to_owned())),
                Ok(()) => call_vcenter(
                    config,
                    &request.vcenter,
                    Question::Rest(HttpMethod::Get, request.path),
                ),
            }
        },
    }
}

/// A request to `/soap`.
pub struct SoapRequest {
    /// Id of the target vCenter (from `/status`). Optional when only one is configured.
    pub vcenter: Option<String>,
    /// One vim25 operation element, e.g. `<vim25:RetrievePropertiesEx>…</vim25:RetrievePropertiesEx>`.
    /// The helper supplies the envelope and the session.
    pub body: String,
}

/// What a [`SoapRequest`] says.
#[verifier::ext_equal]
pub struct SoapRequestView {
    pub vcenter: Option<Seq<char>>,
    pub body: Seq<char>,
}

impl View for SoapRequest {
    type V = SoapRequestView;

    open spec fn view(&self) -> SoapRequestView {
        SoapRequestView { vcenter: text::option_view(self.vcenter), body: self.body@ }
    }
}

/// What comes of a request to `/soap` whose body gets `verdict`.
pub open spec fn judged_soap_outcome(
    config: ConfigView,
    request: SoapRequestView,
    verdict: Result<Seq<char>, Seq<char>>,
) -> Result<CallView, HelperErrorView> {
    match verdict {
        Err(message) => Err(HelperErrorView { status: 400, kind: "soap_not_allowed"@, message }),
        Ok(_) => call_to(config, request.vcenter, QuestionView::Soap(request.body)),
    }
}

/// What comes of a request to `/soap`: a question to a vCenter, or an error. `payload` is the
/// request, or why it could not be read.
pub open spec fn soap_outcome(
    config: ConfigView,
    caller: CallerView,
    payload: Result<SoapRequestView, Seq<char>>,
) -> Result<CallView, HelperErrorView> {
    if !caller.allowed {
        Err(origin_refusal(caller))
    } else {
        match payload {
            Err(message) => Err(unreadable(message)),
            Ok(request) => judged_soap_outcome(
                config,
                request,
                soap::soap_verdict(request.body, xml::xml_events(request.body)),
            ),
        }
    }
}

/// What a request to `/soap` says, or why it could not be read.
pub open spec fn soap_payload(payload: Result<SoapRequest, String>) -> Result<
    SoapRequestView,
    Seq<char>,
> {
    match payload {
        Ok(request) => Ok(request@),
        Err(message) => Err(message@),
    }
}

/// What an answer on a SOAP body says.
pub open spec fn verdict_view(verdict: Result<&'static str, String>) -> Result<
    Seq<char>,
    Seq<char>,
> {
    match verdict {
        Ok(operation) => Ok(operation@),
        Err(message) => Err(message@),
    }
}

/// What comes of a request to `/soap` whose body gets `verdict`.
pub fn judged_soap(
    config: &Config,
    request: SoapRequest,
    verdict: Result<&'static str, String>,
) -> (r: Result<Call, HelperError>)
    ensures
        call_or_error(r, judged_soap_outcome(config@, request@, verdict_view(verdict))),
{
    match verdict {
        Err(message) => Err(helper_error(400, "soap_not_allowed", message)),
        Ok(_) => call_vcenter(config, &request.vcenter, Question::Soap(request.body)),
    }
}

/// What comes of a request to `/soap`: a question to put to a vCenter, or an error to answer
/// with. `payload` is the request, or why it could not be read. What is asked is one allowed
/// operation with nothing beside it.
pub fn soap(config: &Config, caller: &Caller, payload: Result<SoapRequest, String>) -> (r: Result<
    Call,
    HelperError,
>)
    ensures
        call_or_error(r, soap_outcome(config@, caller@, soap_payload(payload))),
        r is Ok ==> exists|operation: Seq<char>| #[trigger]
            soap::is_one_operation(xml::xml_events(payload->Ok_0.body@), operation),
{
    if !caller.allowed {
        return Err(origin_not_allowed(caller));
    }
    match payload {
        Err(message) => Err(helper_error(400, "bad_request", message)),
        Ok(request) => {
            let verdict = soap::validate_soap_body(&request.body);
            assert(verdict matches Ok(operation) ==> soap::is_one_operation(
                xml::xml_events(request.body@),
                operation@,
            ));
            judged_soap(config, request, verdict)
        },
    }
}

/// An answer with a vCenter's status code, content type and body.
pub struct UpstreamReply {
    pub status: u16,
    pub content_type: Option<String>,
    pub body: Vec<u8>,
}

impl View for UpstreamReply {
    type V = UpstreamView;

    open spec fn view(&self) -> UpstreamView {
        UpstreamView {
            status: self.status,
            content_type: text::option_view(self.content_type),
            body: self.body@,
        }
    }
}

/// vCenter's answer as it is passed on. A status that HTTP does not have becomes 502, and a
/// content type that cannot be sent is left out.
pub open spec fn passed_on(upstream: UpstreamView) -> UpstreamView {
    UpstreamView {
        status: if 100 <= upstream.status <= 999 {
            upstream.status
        } else {
            502
        },
        content_type: match upstream.content_type {
            Some(content_type) if http::can_be_header(content_type) => Some(content_type),
            _ => None,
        },
        body: upstream.body,
    }
}

/// vCenter's status code, content type and body, unchanged.
pub fn upstream_response(upstream: Upstream) -> (reply: UpstreamReply)
    ensures
        reply@ == passed_on(upstream@),
{
    let status = if http::is_status_code(upstream.status) {
        upstream.status
    } else {
        502
    };
    let content_type = match upstream.content_type {
        Some(content_type) => if http::is_header_value(&content_type) {
            Some(content_type)
        } else {
            None
        },
        None => None,
    };
    UpstreamReply { status, content_type, body: upstream.body }
}

/// What the website is answered once a vCenter has been asked: what that answered, or why it
/// could not be asked.
pub fn reply(outcome: Result<Upstream, VcError>) -> (r: Result<UpstreamReply, HelperError>)
    ensures
        match (r, outcome) {
            (Ok(reply), Ok(upstream)) => reply@ == passed_on(upstream@),
            (Err(error), Err(failure)) => error@ == of_vc_error(failure@),
            _ => false,
        },
{
    match outcome {
        Ok(upstream) => Ok(upstream_response(upstream)),
        Err(error) => Err(helper_error(error.status, error.kind, error.message)),
    }
}

/// The host that a URL names, where neither a user nor a backslash is in it: what stands between
/// the scheme and the path.
pub open spec fn url_host(url: Seq<char>) -> Seq<char> {
    let rest = url.skip("https://"@.len() as int);
    text::before_char(text::before_char(text::before_char(rest, '/'), '?'), '#')
}

/// Whether `host` has nothing in it that ends the host of a URL, or parts it from a user.
pub open spec fn is_bare_host(host: Seq<char>) -> bool {
    &&& !host.contains('/') && !host.contains('\\')
    &&& !host.contains('?') && !host.contains('#')
    &&& !host.contains('@')
}

/// A request that is handled was addressed to this machine's loopback, whatever else it holds.
pub proof fn law_only_loopback_requests_are_handled(
    config: ConfigView,
    method: Seq<char>,
    host: Option<Seq<u8>>,
    origin: Option<Seq<u8>>,
)
    ensures
        admission(config, method, host, origin) !is Refused <==> (http::header_text_of(
            host,
        ) matches Some(host) && is_loopback(host)),
{
}

/// A website is only allowed where its origin is listed, or where it is a page opened from a local
/// file and the setting for these is on.
pub proof fn law_only_listed_websites_are_allowed(
    config: ConfigView,
    method: Seq<char>,
    host: Option<Seq<u8>>,
    origin: Option<Seq<u8>>,
)
    ensures
        admission(config, method, host, origin) matches AdmissionView::Handled(caller) ==> (
        caller.origin matches Some(name) ==> caller.allowed == {
            let name = crate::config::canonical_origin(name);
            ||| name == "null"@ && config.allow_local_files
            ||| name != "null"@ && config.allowed_origins.contains(name)
        }),
{
}

/// Every configured vCenter can be asked for by its id.
pub proof fn law_each_vcenter_can_be_named(vcenters: Seq<VcenterEntryView>, i: int)
    requires
        ids::ids_are_unique(vcenters),
        0 <= i < vcenters.len(),
    ensures
        resolution(vcenters, Some(vcenters[i].id)) == Ok::<VcenterEntryView, HelperErrorView>(
            vcenters[i],
        ),
{
    assert(ids::is_first_with_id(vcenters, vcenters[i].id, i));
    ids::lemma_first_with_id(vcenters, vcenters[i].id, i);
}

/// The answer to a website names its origin, and no other, as the one that may read it.
pub proof fn law_answer_names_its_origin(origin: Seq<u8>)
    requires
        http::header_text(origin) is Some,
    ensures
        ({
            let origin = http::header_text(origin)->0;
            answer_headers(Some(origin)).contains(("access-control-allow-origin"@, origin))
        }),
        forall|value: Seq<char>|
            #[trigger] answer_headers(http::header_text(origin)).contains(
                ("access-control-allow-origin"@, value),
            ) ==> http::header_text(origin) == Some(value),
{
    http::lemma_header_text_is_header_value(origin);
    let text = http::header_text(origin)->0;
    let headers = answer_headers(Some(text));
    assert(headers[0] == ("access-control-allow-origin"@, text));
    reveal_strlit("access-control-allow-origin");
    reveal_strlit("access-control-allow-methods");
    reveal_strlit("access-control-allow-headers");
    reveal_strlit("access-control-expose-headers");
    reveal_strlit("access-control-max-age");
    reveal_strlit("access-control-allow-private-network");
    reveal_strlit("vary");
    reveal_strlit("cache-control");
    assert("access-control-allow-origin"@.len() == 27);
    assert forall|i: int| 0 < i < headers.len() implies (#[trigger] headers[i]).0
        != "access-control-allow-origin"@ by {
        assert(headers[i].0.len() != 27);
    }
    assert forall|value: Seq<char>| #[trigger]
        answer_headers(http::header_text(origin)).contains(
            ("access-control-allow-origin"@, value),
        ) implies http::header_text(origin) == Some(value) by {
        let i = choose|i: int|
            0 <= i < headers.len() && headers[i] == ("access-control-allow-origin"@, value);
        assert(i == 0);
    }
}

/// A website that is not allowed is refused, whatever it asks for, and no vCenter is asked.
pub proof fn law_disallowed_websites_are_refused(
    config: ConfigView,
    caller: CallerView,
    rest: Result<ProxyRequestView, Seq<char>>,
    soap: Result<SoapRequestView, Seq<char>>,
)
    requires
        !caller.allowed,
    ensures
        proxy_outcome(config, caller, rest) == Err::<CallView, HelperErrorView>(
            origin_refusal(caller),
        ),
        soap_outcome(config, caller, soap) == Err::<CallView, HelperErrorView>(
            origin_refusal(caller),
        ),
{
}

/// A path that is passed through leads to one of vCenter's REST APIs and never to a session
/// endpoint: neither as it is written, nor decoded, nor where it leads once its dot segments are
/// taken out, of which none is left there.
pub proof fn law_accepted_path_stays_in_the_api(path: Seq<char>)
    requires
        path_refusal(path) is None,
    ensures
        is_api_path(path),
        !is_session_path(path),
        !"/api/session"@.is_prefix_of(text::lower(path)),
        !"/rest/com/vmware/cis/session"@.is_prefix_of(text::lower(path)),
        is_api_path(destination(path)),
        !is_session_path(destination(path)),
        !"/api/session"@.is_prefix_of(text::lower(destination(path))),
        !"/rest/com/vmware/cis/session"@.is_prefix_of(text::lower(destination(path))),
        route::has_no_dots(destination(path)),
{
    lemma_session_path_as_written(path);
    lemma_session_path_as_written(destination(path));
    let route = text::before_char(path, '?');
    lemma_api_path_has_slash(path);
    text::lemma_before_char_is_prefix(path, '?');
    assert(route.len() > 0);
    assert(route[0] == path[0]);
    route::law_resolved_has_no_dots(route);
}

/// A session endpoint as it is written is one when it is decoded.
proof fn lemma_session_path_as_written(path: Seq<char>)
    ensures
        "/api/session"@.is_prefix_of(text::lower(path)) ==> is_session_path(path),
        "/rest/com/vmware/cis/session"@.is_prefix_of(text::lower(path)) ==> is_session_path(path),
{
    reveal_strlit("/api/session");
    reveal_strlit("/rest/com/vmware/cis/session");
    if "/api/session"@.is_prefix_of(text::lower(path)) {
        lemma_literal_prefix_is_decoded(path, "/api/session"@);
    }
    if "/rest/com/vmware/cis/session"@.is_prefix_of(text::lower(path)) {
        lemma_literal_prefix_is_decoded(path, "/rest/com/vmware/cis/session"@);
    }
}

/// A path with neither a percent sign nor a dot segment inside it is judged by how it begins and by
/// its characters alone.
pub proof fn law_plain_paths_are_judged_as_written(path: Seq<char>)
    requires
        !path.contains('%'),
        !text::occurs("/./"@, path),
    ensures
        path_refusal(path) is None <==> {
            let lower = text::lower(path);
            &&& "/api/"@.is_prefix_of(lower) || "/rest/"@.is_prefix_of(lower)
            &&& !"/api/session"@.is_prefix_of(lower)
            &&& !"/rest/com/vmware/cis/session"@.is_prefix_of(lower)
            &&& !text::occurs(".."@, path) && !text::occurs("//"@, path)
            &&& !path.contains('\\') && !path.contains('@') && !path.contains('#')
            &&& is_url_text(path)
        },
{
    lemma_session_path_as_written(path);
    text::lemma_decoded_prefix(path, seq![]);
    assert(path + Seq::<char>::empty() == path);
    if is_api_path(path) && !is_session_path(path) && !text::occurs(".."@, path) {
        lemma_plain_destination(path);
    }
}

/// The same holds of where such a path leads, so its dot segments do not lead astray.
proof fn lemma_plain_destination(path: Seq<char>)
    requires
        !path.contains('%'),
        !text::occurs("/./"@, path),
        !text::occurs(".."@, path),
        is_api_path(path),
        !is_session_path(path),
    ensures
        !leads_astray(path),
{
    let route = text::before_char(path, '?');
    let reached = destination(path);
    text::lemma_before_char_is_prefix(path, '?');
    text::lemma_before_char_has_none(path, '?');
    lemma_api_path_has_slash(path);
    let n = route.len() as int;
    assert(route == path.take(n));
    assert(!route.contains('%')) by {
        if route.contains('%') {
            let i = choose|i: int| 0 <= i < n && route[i] == '%';
            assert(path[i] == '%');
        }
    }
    lemma_occurs_in_longer(".."@, route, path);
    lemma_occurs_in_longer("/./"@, route, path);
    route::law_plain_route_leads_where_it_says(route);
    assert(reached.is_prefix_of(path)) by {
        assert(reached == path.take(reached.len() as int));
    }
    let (lower, lower_reached) = (text::lower(path), text::lower(reached));
    assert(lower_reached == lower.take(reached.len() as int));
    assert(is_api_path(reached)) by {
        reveal_strlit("/api/");
        reveal_strlit("/rest/");
        if "/api/"@.is_prefix_of(lower) {
            lemma_prefix_is_reached(path, "/api/"@);
        } else {
            lemma_prefix_is_reached(path, "/rest/"@);
        }
    }
    assert(!reached.contains('%')) by {
        if reached.contains('%') {
            let i = choose|i: int| 0 <= i < reached.len() && reached[i] == '%';
            assert(path[i] == '%');
        }
    }
    text::lemma_decoded_prefix(reached, seq![]);
    assert(reached + Seq::<char>::empty() == reached);
    text::lemma_decoded_prefix(path, seq![]);
    assert(path + Seq::<char>::empty() == path);
    if is_session_path(reached) {
        lemma_prefix_of_longer("/api/session"@, lower_reached, lower);
        lemma_prefix_of_longer("/rest/com/vmware/cis/session"@, lower_reached, lower);
    }
}

/// What begins with `prefix`, which ends in a slash, still does once a dot at the end of what stands
/// before the query is left out.
proof fn lemma_prefix_is_reached(path: Seq<char>, prefix: Seq<char>)
    requires
        prefix.is_prefix_of(text::lower(path)),
        prefix.len() > 1,
        prefix.last() == '/',
        !prefix.contains('?'),
    ensures
        ({
            let route = text::before_char(path, '?');
            let reached = if route::ends_in_dot(route) && route[0] == '/' {
                route.drop_last()
            } else {
                route
            };
            prefix.is_prefix_of(text::lower(reached))
        }),
{
    let route = text::before_char(path, '?');
    let k = prefix.len() as int;
    text::lemma_before_char_is_prefix(path, '?');
    text::lemma_before_char_has_none(path, '?');
    let lower = text::lower(path);
    assert(forall|i: int| 0 <= i < k ==> #[trigger] prefix[i] == text::lower_char(path[i]));
    if route.len() < k {
        assert(prefix[route.len() as int] == '?');
    }
    assert(path[k - 1] == '/' && route[k - 1] == path[k - 1]);
    let reached = if route::ends_in_dot(route) && route[0] == '/' {
        route.drop_last()
    } else {
        route
    };
    assert(reached.len() >= k);
    assert(text::lower(reached).take(k) =~= prefix);
}

/// What occurs in the beginning of a text occurs in the text.
proof fn lemma_occurs_in_longer(part: Seq<char>, short: Seq<char>, long: Seq<char>)
    requires
        short.is_prefix_of(long),
        !text::occurs(part, long),
    ensures
        !text::occurs(part, short),
{
    if text::occurs(part, short) {
        let i = choose|i: int|
            0 <= i <= short.len() - part.len() && #[trigger] short.subrange(i, i + part.len())
                == part;
        assert(long.subrange(i, i + part.len()) == short.subrange(i, i + part.len()));
    }
}

/// What the beginning of a text begins with, the text begins with.
proof fn lemma_prefix_of_longer(prefix: Seq<char>, short: Seq<char>, long: Seq<char>)
    requires
        short.is_prefix_of(long),
    ensures
        prefix.is_prefix_of(short) ==> prefix.is_prefix_of(long),
{
    if prefix.is_prefix_of(short) {
        assert(prefix == long.take(prefix.len() as int));
    }
}

/// A path that begins with `prefix` does so when it is decoded too.
proof fn lemma_literal_prefix_is_decoded(path: Seq<char>, prefix: Seq<char>)
    requires
        !prefix.contains('%'),
        prefix.is_prefix_of(text::lower(path)),
    ensures
        prefix.is_prefix_of(text::lower(text::percent_decoded(path))),
{
    let n = prefix.len() as int;
    let (head, tail) = (path.take(n), path.skip(n));
    let lower = text::lower(path);
    assert(forall|i: int| 0 <= i < n ==> #[trigger] prefix[i] == text::lower_char(path[i]));
    assert(!head.contains('%')) by {
        if head.contains('%') {
            let i = choose|i: int| 0 <= i < head.len() && head[i] == '%';
            assert(prefix[i] == '%');
        }
    }
    assert(path == head + tail);
    text::lemma_decoded_prefix(head, tail);
    let decoded = text::lower(text::percent_decoded(path));
    assert forall|i: int| 0 <= i < n implies #[trigger] decoded[i] == prefix[i] by {
        assert(text::percent_decoded(path)[i] == path[i]);
    }
    assert(decoded.take(n) == prefix);
}

/// What `/proxy` asks of a vCenter only reads: a GET, for the path as it was given, of one of
/// vCenter's REST APIs and never of its session endpoints, whichever way these are spelled. That is
/// so of where the path leads once its dot segments are taken out too. It goes to the host of one of
/// the configured vCenters and to no other. A host has none of `/`, `?`, `#`, `@` and `\` in it.
pub proof fn law_proxy_only_reads(
    config: ConfigView,
    caller: CallerView,
    request: ProxyRequestView,
    token: Seq<char>,
)
    requires
        proxy_outcome(config, caller, Ok(request)) is Ok,
    ensures
        ({
            let call = proxy_outcome(config, caller, Ok(request))->Ok_0;
            let sent = crate::call::request_for(call.entry, call.question, token);
            &&& caller.allowed
            &&& config.vcenters.contains(call.entry)
            &&& sent.method == HttpMethod::Get
            &&& sent.url == call.entry.base_url() + request.path
            &&& path_refusal(request.path) is None
            &&& is_api_path(request.path) && !is_session_path(request.path)
            &&& is_api_path(destination(request.path)) && !is_session_path(
                destination(request.path),
            )
            &&& route::has_no_dots(destination(request.path))
            &&& is_bare_host(call.entry.host) ==> url_host(sent.url) == call.entry.host
        }),
{
    let call = proxy_outcome(config, caller, Ok(request))->Ok_0;
    lemma_resolved_is_configured(config.vcenters, request.vcenter);
    law_accepted_path_stays_in_the_api(request.path);
    let host = call.entry.host;
    if is_bare_host(host) {
        let url = call.entry.base_url() + request.path;
        lemma_api_path_has_slash(request.path);
        assert(url.skip("https://"@.len() as int) == host + request.path);
        text::lemma_before_char(host, request.path, '/');
        text::lemma_before_char(host, seq![], '?');
        text::lemma_before_char(host, seq![], '#');
        assert(host + Seq::<char>::empty() == host);
    }
}

/// What `/soap` asks of a vCenter is the operation as it was given, on behalf of a website that is
/// allowed, and it is asked of one of the configured vCenters.
pub proof fn law_soap_asks_as_given(config: ConfigView, caller: CallerView, request: SoapRequestView)
    requires
        soap_outcome(config, caller, Ok(request)) is Ok,
    ensures
        ({
            let call = soap_outcome(config, caller, Ok(request))->Ok_0;
            &&& caller.allowed
            &&& config.vcenters.contains(call.entry)
            &&& call.question == QuestionView::Soap(request.body)
        }),
{
    lemma_resolved_is_configured(config.vcenters, request.vcenter);
}

/// The vCenter that a request is for is one of those configured.
proof fn lemma_resolved_is_configured(vcenters: Seq<VcenterEntryView>, id: Option<Seq<char>>)
    requires
        resolution(vcenters, id) is Ok,
    ensures
        vcenters.contains(resolution(vcenters, id)->Ok_0),
{
    match id {
        Some(id) => {
            ids::lemma_has_first(vcenters, id);
            let i = choose|i: int| #[trigger] ids::is_first_with_id(vcenters, id, i);
            ids::lemma_first_with_id(vcenters, id, i);
        },
        None => {
            assert(vcenters.contains(vcenters[0]));
        },
    }
}

/// A path of the REST APIs begins with a slash.
proof fn lemma_api_path_has_slash(path: Seq<char>)
    requires
        is_api_path(path),
    ensures
        path.len() > 0,
        path[0] == '/',
{
    reveal_strlit("/api/");
    reveal_strlit("/rest/");
    let lower = text::lower(path);
    assert(lower[0] == '/') by {
        if "/api/"@.is_prefix_of(lower) {
            assert(lower[0] == "/api/"@[0]);
        } else {
            assert(lower[0] == "/rest/"@[0]);
        }
    }
    assert(lower[0] == text::lower_char(path[0]));
}

/// A vCenter's answer is passed on unchanged, as it was read.
pub proof fn law_answers_are_passed_on_unchanged(
    status: u16,
    content_type: Option<Seq<u8>>,
    body: Seq<u8>,
)
    requires
        100 <= status <= 999,
    ensures
        ({
            let upstream = UpstreamView {
                status,
                content_type: http::header_text_of(content_type),
                body,
            };
            passed_on(upstream) == upstream
        }),
{
    if let Some(value) = content_type {
        if http::header_text(value) is Some {
            http::lemma_header_text_is_header_value(value);
        }
    }
}

} // verus!
