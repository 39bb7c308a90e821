//! What the helper makes of a vCenter's answers.

use crate::config::{VcenterEntry, VcenterEntryView};
use crate::http;
use crate::json;
use crate::text;
use vstd::prelude::*;
use vstd::string::StringExecFns;

verus! {

/// A failure inside the helper itself (as opposed to vCenter answering with an error status).
#[derive(Debug)]
pub struct VcError {
    pub kind: &'static str,
    /// The HTTP status the website is answered with.
    pub status: u16,
    pub message: String,
}

/// What a [`VcError`] says.
#[verifier::ext_equal]
pub struct VcErrorView {
    pub kind: Seq<char>,
    pub status: u16,
    pub message: Seq<char>,
}

impl View for VcError {
    type V = VcErrorView;

    open spec fn view(&self) -> VcErrorView {
        VcErrorView { kind: self.kind@, status: self.status, message: self.message@ }
    }
}

impl VcErrorView {
    /// The settings lack something: 409 Conflict.
    pub open spec fn not_configured(message: Seq<char>) -> VcErrorView {
        VcErrorView { kind: "not_configured"@, status: 409, message }
    }

    /// vCenter refused the login: 502 Bad Gateway.
    pub open spec fn auth(message: Seq<char>) -> VcErrorView {
        VcErrorView { kind: "vcenter_auth_failed"@, status: 502, message }
    }

    /// vCenter could not be reached or made no sense: 502 Bad Gateway.
    pub open spec fn network(message: Seq<char>) -> VcErrorView {
        VcErrorView { kind: "vcenter_unreachable"@, status: 502, message }
    }
}

impl VcError {
    /// The settings lack something: 409 Conflict.
    pub fn not_configured(message: String) -> (error: Self)
        ensures
            error@ == VcErrorView::not_configured(message@),
    {
        VcError { kind: "not_configured", status: 409, message }
    }

    /// vCenter refused the login: 502 Bad Gateway.
    pub fn auth(message: String) -> (error: Self)
        ensures
            error@ == VcErrorView::auth(message@),
    {
        VcError { kind: "vcenter_auth_failed", status: 502, message }
    }

    /// vCenter could not be reached or made no sense: 502 Bad Gateway.
    pub fn network(message: String) -> (error: Self)
        ensures
            error@ == VcErrorView::network(message@),
    {
        VcError { kind: "vcenter_unreachable", status: 502, message }
    }
}

/// The causes of an error, each behind an arrow.
pub open spec fn cause_chain(causes: Seq<Seq<char>>) -> Seq<char>
    decreases causes.len(),
{
    if causes.len() == 0 {
        seq![]
    } else {
        cause_chain(causes.drop_last()) + " → "@ + causes.last()
    }
}

/// A failure to talk to vCenter. The client's own message is vague ("error sending request"), so
/// the chain of causes is added to it.
pub fn network_error(context: &str, message: &str, causes: &Vec<String>) -> (error: VcError)
    ensures
        error@ == VcErrorView::network(
            context@ + ": "@ + message@ + cause_chain(text::texts_view(causes@)),
        ),
{
    let ghost view = text::texts_view(causes@);
    let mut full = context.to_owned().concat(": ").concat(message);
    let ghost start = full@;
    assert(full@ == start + cause_chain(view.take(0)));
    for i in 0..causes.len()
        invariant
            view == text::texts_view(causes@),
            full@ == start + cause_chain(view.take(i as int)),
    {
        assert(view.take(i + 1).drop_last() == view.take(i as int));
        full.append(" → ");
        full.append(&causes[i]);
        assert(full@ == start + cause_chain(view.take(i + 1)));
    }
    assert(view.take(view.len() as int) == view);
    VcError::network(full)
}

/// A vCenter's answer.
#[derive(Debug)]
pub struct Upstream {
    pub status: u16,
    pub content_type: Option<String>,
    pub body: Vec<u8>,
}

/// What an [`Upstream`] says.
#[verifier::ext_equal]
pub struct UpstreamView {
    pub status: u16,
    pub content_type: Option<Seq<char>>,
    pub body: Seq<u8>,
}

impl View for Upstream {
    type V = UpstreamView;

    open spec fn view(&self) -> UpstreamView {
        UpstreamView {
            status: self.status,
            content_type: text::option_view(self.content_type),
            body: self.body@,
        }
    }
}

/// Whether an answer says that the SOAP session is not logged in.
pub open spec fn says_not_authenticated(status: u16, body: Seq<u8>) -> bool {
    status == 500 && text::occurs(vstd::utf8::encode_utf8("NotAuthenticated"@), body)
}

impl Upstream {
    /// A vCenter's answer, where `content_type` is the header of that name. One that is not
    /// visible ASCII is left out.
    pub fn read(status: u16, content_type: &Option<Vec<u8>>, body: Vec<u8>) -> (upstream: Self)
        ensures
            upstream@ == (UpstreamView {
                status,
                content_type: http::header_text_of(http::header_bytes(*content_type)),
                body: body@,
            }),
    {
        Upstream { status, content_type: http::optional_header_text(content_type), body }
    }
}

/// Whether vCenter answered that the SOAP session is not logged in.
pub fn is_not_authenticated(upstream: &Upstream) -> (yes: bool)
    ensures
        yes == says_not_authenticated(upstream@.status, upstream@.body),
{
    upstream.status == 500 && text::bytes_contain(&upstream.body, "NotAuthenticated".as_bytes())
}

/// `name` in quotes, behind "vCenter".
pub open spec fn quoted_vcenter(name: Seq<char>) -> Seq<char> {
    "vCenter \""@ + name + "\""@
}

/// `name` in quotes, behind "vCenter".
fn quote_vcenter(name: &str) -> (quoted: String)
    ensures
        quoted@ == quoted_vcenter(name@),
{
    "vCenter \"".to_owned().concat(name).concat("\"")
}

/// Why an entry cannot be used, where it is not complete.
pub open spec fn completeness(entry: VcenterEntryView) -> Option<VcErrorView> {
    if entry.is_complete() {
        None
    } else {
        Some(
            VcErrorView::not_configured(
                quoted_vcenter(entry.name)
                    + " is missing its address or username. Fix it in the DBH Insights Helper window."@,
            ),
        )
    }
}

/// Refuses an entry that does not say where to connect and as whom.
pub fn require_complete(entry: &VcenterEntry) -> (r: Result<(), VcError>)
    ensures
        match r {
            Ok(()) => completeness(entry@) is None,
            Err(error) => completeness(entry@) == Some(error@),
        },
{
    if entry.is_complete() {
        return Ok(());
    }
    Err(
        VcError::not_configured(
            quote_vcenter(&entry.name).concat(
                " is missing its address or username. Fix it in the DBH Insights Helper window.",
            ),
        ),
    )
}

/// The password for an entry, of what the keychain answered: an error, or the password if it has
/// one.
pub open spec fn password_of(
    entry: VcenterEntryView,
    stored: Result<Option<Seq<char>>, Seq<char>>,
) -> Result<Seq<char>, VcErrorView> {
    match stored {
        Ok(Some(password)) => Ok(password),
        Ok(None) => Err(
            VcErrorView::not_configured(
                "No password is saved for "@ + quoted_vcenter(entry.name)
                    + ". Enter it in the DBH Insights Helper window."@,
            ),
        ),
        Err(reason) => Err(
            VcErrorView::not_configured(
                "Could not read the password from the OS keychain: "@ + reason,
            ),
        ),
    }
}

/// What the keychain answered.
pub open spec fn stored_view(stored: Result<Option<String>, String>) -> Result<
    Option<Seq<char>>,
    Seq<char>,
> {
    match stored {
        Ok(password) => Ok(text::option_view(password)),
        Err(reason) => Err(reason@),
    }
}

/// Whether a text or an error says what `expected` says.
pub open spec fn text_or_error(
    r: Result<String, VcError>,
    expected: Result<Seq<char>, VcErrorView>,
) -> bool {
    match (r, expected) {
        (Ok(text), Ok(expected)) => text@ == expected,
        (Err(error), Err(expected)) => error@ == expected,
        _ => false,
    }
}

/// The password for an entry, of what the keychain answered.
pub fn saved_password(entry: &VcenterEntry, stored: Result<Option<String>, String>) -> (r: Result<
    String,
    VcError,
>)
    ensures
        text_or_error(r, password_of(entry@, stored_view(stored))),
{
    match stored {
        Ok(Some(password)) => Ok(password),
        Ok(None) => Err(
            VcError::not_configured(
                "No password is saved for ".to_owned().concat(&quote_vcenter(&entry.name)).concat(
                    ". Enter it in the DBH Insights Helper window.",
                ),
            ),
        ),
        Err(reason) => Err(
            VcError::not_configured(
                "Could not read the password from the OS keychain: ".to_owned().concat(&reason),
            ),
        ),
    }
}

/// Whether `status` says that a request succeeded.
pub open spec fn is_success(status: u16) -> bool {
    200 <= status < 300
}

/// Why a REST login failed that was answered with `status`, unless it did not.
pub open spec fn rest_login_failure(entry: VcenterEntryView, status: u16) -> Option<VcErrorView> {
    if is_success(status) {
        None
    } else if status == 401 {
        Some(
            VcErrorView::auth(quoted_vcenter(entry.name) + " rejected the username or password."@),
        )
    } else if status == 404 {
        Some(
            VcErrorView::network(
                "vCenter has no /api/session endpoint. vCenter 7.0 U2 or later is required."@,
            ),
        )
    } else {
        Some(
            VcErrorView::network(
                "vCenter login failed with HTTP "@ + text::decimal(status as nat) + " "@
                    + http::reason_phrase(status) + "."@,
            ),
        )
    }
}

/// What a login was about that got no answer.
pub fn could_not_reach(entry: &VcenterEntry) -> (context: String)
    ensures
        context@ == "Could not reach "@ + entry@.base_url(),
{
    "Could not reach ".to_owned().concat(&entry.base_url())
}

/// Whether the answer to a REST login holds the session's token. `status` is its status code.
pub fn check_rest_login(entry: &VcenterEntry, status: u16) -> (r: Result<(), VcError>)
    requires
        100 <= status <= 999,
    ensures
        match r {
            Ok(()) => rest_login_failure(entry@, status) is None,
            Err(error) => rest_login_failure(entry@, status) == Some(error@),
        },
{
    if 200 <= status && status < 300 {
        return Ok(());
    }
    if status == 401 {
        return Err(
            VcError::auth(quote_vcenter(&entry.name).concat(" rejected the username or password.")),
        );
    }
    if status == 404 {
        return Err(
            VcError::network(
                "vCenter has no /api/session endpoint. vCenter 7.0 U2 or later is required.".to_owned(),
            ),
        );
    }
    let message = "vCenter login failed with HTTP ".to_owned().concat(
        &http::status_text(status),
    ).concat(".");
    assert(message@ == "vCenter login failed with HTTP "@ + text::decimal(status as nat) + " "@
        + http::reason_phrase(status) + "."@);
    Err(VcError::network(message))
}

/// The token of a new REST session, of what was read of the answer to the login.
pub open spec fn token_read(reading: Result<Seq<char>, Seq<char>>) -> Result<
    Seq<char>,
    VcErrorView,
> {
    match reading {
        Ok(token) => Ok(token),
        Err(reason) => Err(
            VcErrorView::network(
                "Unexpected login response from vCenter: error decoding response body → "@ + reason,
            ),
        ),
    }
}

/// The token of a new REST session, of what was read of the answer to the login.
pub fn login_token(reading: Result<String, String>) -> (r: Result<String, VcError>)
    ensures
        text_or_error(r, token_read(json::reading_view(reading))),
{
    match reading {
        Ok(token) => Ok(token),
        Err(reason) => Err(
            VcError::network(
                "Unexpected login response from vCenter: error decoding response body → ".to_owned().concat(
                    &reason,
                ),
            ),
        ),
    }
}

/// The token of a new REST session, or why the login failed that was answered with `status` and
/// `body`.
pub open spec fn rest_login_outcome(entry: VcenterEntryView, status: u16, body: Seq<u8>) -> Result<
    Seq<char>,
    VcErrorView,
> {
    match rest_login_failure(entry, status) {
        Some(error) => Err(error),
        None => token_read(json::json_string(body)),
    }
}

/// The token of a new REST session, or why the login failed. `status` is the answer's status code,
/// and `body` decides nothing unless that says that the login succeeded.
pub fn read_rest_login(entry: &VcenterEntry, status: u16, body: &[u8]) -> (r: Result<
    String,
    VcError,
>)
    requires
        100 <= status <= 999,
    ensures
        text_or_error(r, rest_login_outcome(entry@, status, body@)),
{
    match check_rest_login(entry, status) {
        Ok(()) => login_token(json::read_json_string(body)),
        Err(error) => Err(error),
    }
}

/// The first part of a `Set-Cookie` header: the cookie's name and value.
pub open spec fn cookie_pair(header: Seq<char>) -> Seq<char> {
    text::trim(text::before_char(header, ';'))
}

/// The SOAP session's cookie among the `Set-Cookie` headers: the first that is visible ASCII and
/// has the name of one.
pub open spec fn soap_cookie_among(headers: Seq<Seq<u8>>) -> Option<Seq<char>>
    decreases headers.len(),
{
    if headers.len() == 0 {
        None
    } else {
        match http::header_text(headers[0]) {
            Some(header) if "vmware_soap_session"@.is_prefix_of(cookie_pair(header)) => Some(
                cookie_pair(header),
            ),
            _ => soap_cookie_among(headers.drop_first()),
        }
    }
}

/// The bytes of the headers of a list.
pub open spec fn header_list(headers: Seq<Vec<u8>>) -> Seq<Seq<u8>> {
    headers.map_values(|h: Vec<u8>| h@)
}

/// The SOAP session's cookie among the `Set-Cookie` headers.
pub fn find_soap_cookie(headers: &Vec<Vec<u8>>) -> (cookie: Option<String>)
    ensures
        text::option_view(cookie) == soap_cookie_among(header_list(headers@)),
{
    let ghost view = header_list(headers@);
    assert(view.skip(0) == view);
    for i in 0..headers.len()
        invariant
            view == header_list(headers@),
            soap_cookie_among(view.skip(i as int)) == soap_cookie_among(view),
    {
        assert(view.skip(i as int)[0] == headers@[i as int]@);
        assert(view.skip(i as int).drop_first() == view.skip(i + 1));
        if let Some(header) = http::visible_text(&headers[i]) {
            let pair = text::trimmed(&text::text_before(&header, ';'));
            if text::begins_with(&pair, "vmware_soap_session") {
                return Some(pair);
            }
        }
    }
    None
}

/// The cookie of a new SOAP session, or why the login failed that was answered with `status`,
/// `answer` and the cookie that came with it.
pub open spec fn soap_login_outcome(
    entry: VcenterEntryView,
    cookie: Option<Seq<char>>,
    status: u16,
    answer: Seq<char>,
) -> Result<Seq<char>, VcErrorView> {
    if text::occurs("InvalidLogin"@, answer) {
        Err(
            VcErrorView::auth(
                quoted_vcenter(entry.name) + " rejected the username or password (SOAP)."@,
            ),
        )
    } else if !is_success(status) {
        Err(
            VcErrorView::network(
                "vCenter SOAP login failed with HTTP "@ + text::decimal(status as nat) + " "@
                    + http::reason_phrase(status) + "."@,
            ),
        )
    } else {
        match cookie {
            Some(cookie) => Ok(cookie),
            None => Err(
                VcErrorView::network("vCenter SOAP login returned no session cookie."@),
            ),
        }
    }
}

/// The cookie of a new SOAP session, or why the login failed. `status` is the answer's status
/// code.
pub fn check_soap_login(
    entry: &VcenterEntry,
    cookie: Option<String>,
    status: u16,
    answer: &str,
) -> (r: Result<String, VcError>)
    requires
        100 <= status <= 999,
    ensures
        text_or_error(
            r,
            soap_login_outcome(entry@, text::option_view(cookie), status, answer@),
        ),
{
    if text::text_contains(answer, "InvalidLogin") {
        return Err(
            VcError::auth(
                quote_vcenter(&entry.name).concat(" rejected the username or password (SOAP)."),
            ),
        );
    }
    if !(200 <= status && status < 300) {
        let message = "vCenter SOAP login failed with HTTP ".to_owned().concat(
            &http::status_text(status),
        ).concat(".");
        assert(message@ == "vCenter SOAP login failed with HTTP "@ + text::decimal(status as nat)
            + " "@ + http::reason_phrase(status) + "."@);
        return Err(VcError::network(message));
    }
    match cookie {
        Some(cookie) => Ok(cookie),
        None => Err(
            VcError::network("vCenter SOAP login returned no session cookie.".to_owned()),
        ),
    }
}

/// The REST path that a connection test reads.
pub const VERSION_PATH: &'static str = "/api/appliance/system/version";

/// The SOAP operation that a connection test runs.
pub const SERVICE_CONTENT_OPERATION: &'static str =
    "<vim25:RetrieveServiceContent><vim25:_this type=\"ServiceInstance\">ServiceInstance</vim25:_this></vim25:RetrieveServiceContent>";

/// `value`, or a question mark where there is none.
pub open spec fn or_question_mark(value: Option<Seq<char>>) -> Seq<char> {
    match value {
        Some(value) => value,
        None => "?"@,
    }
}

/// What a connection test says of a vCenter of this version and build.
pub open spec fn connected_to(version: Option<Seq<char>>, build: Option<Seq<char>>) -> Seq<char> {
    "Connected to vCenter "@ + or_question_mark(version) + " (build "@ + or_question_mark(build)
        + ")"@
}

/// What a connection test says of a vCenter of this version and build.
pub fn connected_message(version: Option<String>, build: Option<String>) -> (message: String)
    ensures
        message@ == connected_to(text::option_view(version), text::option_view(build)),
{
    let version = match version {
        Some(version) => version,
        None => "?".to_owned(),
    };
    let build = match build {
        Some(build) => build,
        None => "?".to_owned(),
    };
    "Connected to vCenter ".to_owned().concat(&version).concat(" (build ").concat(&build).concat(")")
}

/// What a connection test makes of the answer to [`VERSION_PATH`].
pub open spec fn rest_test_outcome(upstream: UpstreamView) -> Result<Seq<char>, VcErrorView> {
    if upstream.status == 200 {
        Ok(
            connected_to(
                json::json_text(upstream.body, "version"@),
                json::json_text(upstream.body, "build"@),
            ),
        )
    } else if upstream.status == 401 {
        Err(VcErrorView::auth("vCenter accepted the login but rejected the session."@))
    } else {
        Ok("Signed in to vCenter"@)
    }
}

/// What a connection test makes of the answer to [`VERSION_PATH`].
pub fn test_rest(upstream: &Upstream) -> (r: Result<String, VcError>)
    ensures
        text_or_error(r, rest_test_outcome(upstream@)),
{
    match upstream.status {
        200 => Ok(
            connected_message(
                json::json_text_member(&upstream.body, "version"),
                json::json_text_member(&upstream.body, "build"),
            ),
        ),
        401 => Err(
            VcError::auth("vCenter accepted the login but rejected the session.".to_owned()),
        ),
        // Signed in fine; this account just can't read the appliance version.
        _ => Ok("Signed in to vCenter".to_owned()),
    }
}

/// What a connection test says, where the REST part of it said `rest` and
/// [`SERVICE_CONTENT_OPERATION`] was answered with `status`.
pub open spec fn soap_test_outcome(rest: Seq<char>, status: u16) -> Result<
    Seq<char>,
    VcErrorView,
> {
    if is_success(status) {
        Ok(rest + ". REST and SOAP OK."@)
    } else {
        Err(
            VcErrorView::network(
                rest + ", but the SOAP API returned HTTP "@ + text::decimal(status as nat) + "."@,
            ),
        )
    }
}

/// What a connection test says, where the REST part of it said `rest` and
/// [`SERVICE_CONTENT_OPERATION`] was answered with `soap`.
pub fn test_soap(rest: String, soap: &Upstream) -> (r: Result<String, VcError>)
    ensures
        text_or_error(r, soap_test_outcome(rest@, soap@.status)),
{
    if !(200 <= soap.status && soap.status < 300) {
        return Err(
            VcError::network(
                rest.concat(", but the SOAP API returned HTTP ").concat(
                    &text::decimal_text(soap.status as u64),
                ).concat("."),
            ),
        );
    }
    Ok(rest.concat(". REST and SOAP OK."))
}

} // verus!
