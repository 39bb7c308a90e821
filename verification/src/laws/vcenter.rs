//! How the vCenters are asked, and what is made of their answers.

use crate::call;
use crate::call::{CallView, NextView, QuestionView};
use crate::config::VcenterEntryView;
use crate::http;
use crate::json;
use crate::laws::texts;
use crate::probe;
use crate::probe::{ConnectionTestView, StageView, TestStepView};
use crate::request;
use crate::request::{HttpMethod, HttpRequestView};
use crate::session;
use crate::session::{ReadinessView, SessionView};
use crate::text;
use crate::vcenter;
use crate::vcenter::{UpstreamView, VcError, VcErrorView};
use vstd::prelude::*;

verus! {

/// An answer with status 500 that says `NotAuthenticated` anywhere in its body ends a SOAP session:
/// a question that was put for the first time is put again, in another session.
pub proof fn law_expired_soap_session_is_replaced(
    call: CallView,
    cookie: Seq<char>,
    before: Seq<u8>,
    after: Seq<u8>,
)
    requires
        call.question is Soap,
        !call.retried,
    ensures
        ({
            let body = before + vstd::utf8::encode_utf8("NotAuthenticated"@) + after;
            call.answered(cookie, 500, body) == NextView::Again(
                CallView { retried: true, ..call },
                cookie,
            )
        }),
{
    let part = vstd::utf8::encode_utf8("NotAuthenticated"@);
    let body = before + part + after;
    assert(texts::is_around(body, before, part, after));
    texts::law_search_finds_every_place(body, part);
}

/// A question is put again exactly where it was put for the first time and its session has
/// expired: a REST session by the status 401, whatever the body, and a SOAP session by the status
/// 500 and `NotAuthenticated` in the body. Every other answer is the outcome.
pub proof fn law_only_expired_sessions_are_replaced(
    call: CallView,
    credential: Seq<char>,
    status: u16,
    body: Seq<u8>,
)
    ensures
        match call.answered(credential, status, body) {
            NextView::Again(again, stale) => {
                &&& !call.retried
                &&& call.question is Rest ==> status == 401
                &&& call.question is Soap ==> status == 500 && texts::holds(
                    body,
                    vstd::utf8::encode_utf8("NotAuthenticated"@),
                )
                &&& again == CallView { retried: true, ..call }
                &&& stale == credential
            },
            NextView::Finish => {
                ||| call.retried
                ||| call.question is Rest && status != 401
                ||| call.question is Soap && (status != 500 || !texts::holds(
                    body,
                    vstd::utf8::encode_utf8("NotAuthenticated"@),
                ))
            },
        },
{
    texts::law_search_finds_every_place(
        body,
        vstd::utf8::encode_utf8("NotAuthenticated"@),
    );
}

/// A REST question is sent to its path on the vCenter's host with the session's token, and asks for
/// nothing else.
pub proof fn law_rest_questions_are_sent_as_asked(
    entry: VcenterEntryView,
    method: HttpMethod,
    path: Seq<char>,
    token: Seq<char>,
)
    ensures
        ({
            let sent = call::request_for(entry, QuestionView::Rest(method, path), token);
            &&& sent.method == method
            &&& sent.url == "https://"@ + entry.host + path
            &&& sent.headers == seq![("vmware-api-session-id"@, token)]
            &&& sent.basic_auth is None && sent.body is None && sent.timeout is None
        }),
{
}

/// A SOAP question is posted to the vCenter's SDK address in an envelope, with the session's
/// cookie. A login is posted there in the same way, without one.
pub proof fn law_soap_questions_are_posted_in_an_envelope(
    entry: VcenterEntryView,
    operation: Seq<char>,
    cookie: Seq<char>,
)
    ensures
        ({
            let sent = call::request_for(entry, QuestionView::Soap(operation), cookie);
            let login = request::soap_request_view(entry.base_url(), None, operation);
            &&& sent.method == HttpMethod::Post && login.method == HttpMethod::Post
            &&& sent.url == "https://"@ + entry.host + "/sdk"@ && login.url == sent.url
            &&& sent.body is Some && login.body == sent.body
            &&& texts::holds(sent.body->0, operation)
            &&& login.headers == seq![
                ("content-type"@, "text/xml; charset=utf-8"@),
                ("SOAPAction"@, "urn:vim25/8.0"@),
            ]
            &&& sent.headers == login.headers.push(("Cookie"@, cookie))
            &&& sent.basic_auth is None && sent.timeout is None
            &&& login.basic_auth is None && login.timeout is None
        }),
{
    let sent = call::request_for(entry, QuestionView::Soap(operation), cookie);
    let end = "</soapenv:Body></soapenv:Envelope>"@;
    let whole = sent.body->0;
    let begin = whole.take(whole.len() - operation.len() - end.len());
    assert(whole =~= begin + operation + end);
    assert(texts::is_around(whole, begin, operation, end));
}

/// All envelopes are alike but for the operation in them.
pub proof fn law_envelopes_differ_in_the_operation_alone(a: Seq<char>, b: Seq<char>)
    ensures
        ({
            let begin = "<?xml version=\"1.0\" encoding=\"UTF-8\"?><soapenv:Envelope xmlns:soapenv=\"http://schemas.xmlsoap.org/soap/envelope/\" xmlns:xsi=\"http://www.w3.org/2001/XMLSchema-instance\" xmlns:vim25=\"urn:vim25\"><soapenv:Body>"@;
            let end = "</soapenv:Body></soapenv:Envelope>"@;
            &&& texts::is_around(request::envelope(a), begin, a, end)
            &&& texts::is_around(request::envelope(b), begin, b, end)
            &&& request::envelope(a) == request::envelope(b) ==> a == b
        }),
{
    let begin = "<?xml version=\"1.0\" encoding=\"UTF-8\"?><soapenv:Envelope xmlns:soapenv=\"http://schemas.xmlsoap.org/soap/envelope/\" xmlns:xsi=\"http://www.w3.org/2001/XMLSchema-instance\" xmlns:vim25=\"urn:vim25\"><soapenv:Body>"@;
    let end = "</soapenv:Body></soapenv:Envelope>"@;
    let n = begin.len() as int;
    let (x, y) = (request::envelope(a), request::envelope(b));
    assert(x.len() == n + a.len() + end.len() && y.len() == n + b.len() + end.len());
    assert(x.subrange(n, n + a.len()) == a);
    assert(y.subrange(n, n + b.len()) == b);
}

/// Escaping goes character by character: it changes the five characters that XML gives a meaning,
/// each to its reference, and no other.
pub proof fn law_escaping_goes_by_characters(a: Seq<char>, b: Seq<char>, c: char)
    ensures
        request::escaped(a + b) == request::escaped(a) + request::escaped(b),
        request::escaped(seq!['&']) == "&amp;"@,
        request::escaped(seq!['<']) == "&lt;"@,
        request::escaped(seq!['>']) == "&gt;"@,
        request::escaped(seq!['"']) == "&quot;"@,
        request::escaped(seq!['\'']) == "&apos;"@,
        c != '&' && c != '<' && c != '>' && c != '"' && c != '\'' ==> request::escaped(seq![c])
            == seq![c],
    decreases b.len(),
{
    if b.len() > 0 {
        law_escaping_goes_by_characters(a, b.drop_last(), c);
        assert((a + b).drop_last() == a + b.drop_last());
        assert((a + b).last() == b.last());
        assert(request::escaped(a + b) == request::escaped(a) + request::escaped(b));
    } else {
        assert(a + b == a);
        assert(request::escaped(a) + request::escaped(b) == request::escaped(a));
    }
    lemma_escaped_alone('&');
    lemma_escaped_alone('<');
    lemma_escaped_alone('>');
    lemma_escaped_alone('"');
    lemma_escaped_alone('\'');
    lemma_escaped_alone(c);
}

proof fn lemma_escaped_alone(c: char)
    ensures
        request::escaped(seq![c]) == request::escaped_char(c),
{
    let one = seq![c];
    assert(one.drop_last() == Seq::<char>::empty());
    assert(request::escaped(one.drop_last()) == Seq::<char>::empty());
    assert(request::escaped(one) == Seq::<char>::empty() + request::escaped_char(c));
    assert(Seq::<char>::empty() + request::escaped_char(c) == request::escaped_char(c));
}

/// A login sends the entry's user and password to the entry's host: to REST as they are, to SOAP
/// escaped.
pub proof fn law_logins_send_user_and_password(entry: VcenterEntryView, password: Seq<char>)
    ensures
        ({
            let rest = request::rest_login_view(entry, password);
            let operation = request::login_operation(entry.username, password);
            &&& rest.method == HttpMethod::Post
            &&& rest.url == "https://"@ + entry.host + "/api/session"@
            &&& rest.basic_auth == Some((entry.username, password))
            &&& rest.headers.len() == 0 && rest.body is None && rest.timeout is None
            &&& operation
                == "<vim25:Login><vim25:_this type=\"SessionManager\">SessionManager</vim25:_this><vim25:userName>"@
                + request::escaped(entry.username) + "</vim25:userName><vim25:password>"@
                + request::escaped(password) + "</vim25:password></vim25:Login>"@
        }),
{
}

/// The three errors of asking a vCenter keep their message whole, and differ in kind and status.
pub proof fn law_errors_keep_their_message(message: Seq<char>)
    ensures
        VcErrorView::not_configured(message) == (VcErrorView {
            kind: "not_configured"@,
            status: 409,
            message,
        }),
        VcErrorView::auth(message) == (VcErrorView {
            kind: "vcenter_auth_failed"@,
            status: 502,
            message,
        }),
        VcErrorView::network(message) == (VcErrorView {
            kind: "vcenter_unreachable"@,
            status: 502,
            message,
        }),
{
}

/// Every cause of an error is told, in order, each behind an arrow.
pub proof fn law_every_cause_is_told(before: Seq<Seq<char>>, cause: Seq<char>, after: Seq<Seq<char>>)
    ensures
        vcenter::cause_chain(before + after) == vcenter::cause_chain(before)
            + vcenter::cause_chain(after),
        vcenter::cause_chain(seq![cause]) == " → "@ + cause,
        vcenter::cause_chain(seq![]).len() == 0,
    decreases after.len(),
{
    if after.len() > 0 {
        law_every_cause_is_told(before, cause, after.drop_last());
        assert((before + after).drop_last() == before + after.drop_last());
        assert((before + after).last() == after.last());
        assert(vcenter::cause_chain(before + after) == vcenter::cause_chain(before)
            + vcenter::cause_chain(after));
    } else {
        assert(before + after == before);
        assert(vcenter::cause_chain(before) + vcenter::cause_chain(after) == vcenter::cause_chain(
            before,
        ));
    }
    let one = seq![cause];
    assert(one.drop_last() == Seq::<Seq<char>>::empty());
    assert(vcenter::cause_chain(one.drop_last()) == Seq::<char>::empty());
    assert(vcenter::cause_chain(one) == " → "@ + cause);
}

/// An entry is asked exactly where it has a host and a user. One that lacks either is reported by
/// its name.
pub proof fn law_entries_without_host_or_user_are_reported(entry: VcenterEntryView)
    ensures
        vcenter::completeness(entry) is None <==> entry.host != Seq::<char>::empty()
            && entry.username != Seq::<char>::empty(),
        vcenter::completeness(entry) matches Some(error) ==> error == VcErrorView::not_configured(
            "vCenter \""@ + entry.name + "\""@
                + " is missing its address or username. Fix it in the DBH Insights Helper window."@,
        ),
{
    assert(entry.host.len() == 0 ==> entry.host =~= Seq::<char>::empty());
    assert(entry.username.len() == 0 ==> entry.username =~= Seq::<char>::empty());
}

/// The password is the one in the keychain. Where there is none, or it cannot be read, that is
/// reported.
pub proof fn law_password_is_that_of_the_keychain(
    entry: VcenterEntryView,
    password: Seq<char>,
    reason: Seq<char>,
)
    ensures
        vcenter::password_of(entry, Ok(Some(password))) == Ok::<Seq<char>, VcErrorView>(password),
        vcenter::password_of(entry, Ok(None)) == Err::<Seq<char>, VcErrorView>(
            VcErrorView::not_configured(
                "No password is saved for "@ + ("vCenter \""@ + entry.name + "\""@)
                    + ". Enter it in the DBH Insights Helper window."@,
            ),
        ),
        vcenter::password_of(entry, Err(reason)) == Err::<Seq<char>, VcErrorView>(
            VcErrorView::not_configured(
                "Could not read the password from the OS keychain: "@ + reason,
            ),
        ),
{
}

/// A REST login succeeds exactly with a status from 200 to 299, and gives the text that the answer
/// holds, whole. A wrong password, a vCenter that is too old and every other status are told apart.
pub proof fn law_rest_login_gives_the_token(entry: VcenterEntryView, status: u16, body: Seq<u8>)
    ensures
        ({
            let outcome = vcenter::rest_login_outcome(entry, status, body);
            let ok = 200 <= status && status <= 299;
            &&& ok ==> match json::json_string(body) {
                Ok(token) => outcome == Ok::<Seq<char>, VcErrorView>(token),
                Err(reason) => outcome == Err::<Seq<char>, VcErrorView>(
                    VcErrorView::network(
                        "Unexpected login response from vCenter: error decoding response body → "@
                            + reason,
                    ),
                ),
            }
            &&& !ok ==> outcome is Err
            &&& vcenter::rest_login_failure(entry, status) is None <==> ok
            &&& vcenter::rest_login_failure(entry, status) matches Some(error) ==> outcome == Err::<
                Seq<char>,
                VcErrorView,
            >(error)
            &&& status == 401 ==> outcome->Err_0 == VcErrorView::auth(
                "vCenter \""@ + entry.name + "\""@ + " rejected the username or password."@,
            )
            &&& status == 404 ==> outcome->Err_0 == VcErrorView::network(
                "vCenter has no /api/session endpoint. vCenter 7.0 U2 or later is required."@,
            )
            &&& !ok && status != 401 && status != 404 ==> outcome->Err_0 == VcErrorView::network(
                "vCenter login failed with HTTP "@ + text::decimal(status as nat) + " "@
                    + http::reason_phrase(status) + "."@,
            )
        }),
{
}

/// The cookie of a `Set-Cookie` header is what stands before the first semicolon, or all of it,
/// without the white space around it.
pub proof fn law_cookie_stands_before_the_attributes(pair: Seq<char>, attributes: Seq<char>)
    requires
        !pair.contains(';'),
    ensures
        vcenter::cookie_pair(pair.push(';') + attributes) == text::trim(pair),
        vcenter::cookie_pair(pair) == text::trim(pair),
{
    texts::law_cut_at_the_first(pair, attributes, ';');
}

/// Whether a header holds a SOAP session's cookie.
pub open spec fn has_session_cookie(header: Seq<u8>) -> bool {
    http::header_text(header) matches Some(text) && "vmware_soap_session"@.is_prefix_of(
        vcenter::cookie_pair(text),
    )
}

/// The SOAP session's cookie is that of the first header that holds one, wherever it stands among
/// the others. Without such a header there is none.
pub proof fn law_session_cookie_is_found_anywhere(
    before: Seq<Seq<u8>>,
    header: Seq<u8>,
    after: Seq<Seq<u8>>,
)
    requires
        forall|i: int| 0 <= i < before.len() ==> !has_session_cookie(#[trigger] before[i]),
    ensures
        has_session_cookie(header) ==> vcenter::soap_cookie_among(before.push(header) + after)
            == Some(vcenter::cookie_pair(http::header_text(header)->0)),
        vcenter::soap_cookie_among(before) is None,
    decreases before.len(),
{
    let all = before.push(header) + after;
    if before.len() == 0 {
        assert(all[0] == header);
    } else {
        let rest = before.drop_first();
        assert forall|i: int| 0 <= i < rest.len() implies !has_session_cookie(
            #[trigger] rest[i],
        ) by {
            assert(!has_session_cookie(before[i + 1]));
        }
        law_session_cookie_is_found_anywhere(rest, header, after);
        assert(!has_session_cookie(before[0]));
        assert(all[0] == before[0]);
        assert(all.drop_first() == rest.push(header) + after);
    }
}

/// A SOAP login fails where the answer says `InvalidLogin` anywhere, or else with a status outside
/// 200 to 299, or else without a session cookie. Otherwise it gives that cookie.
pub proof fn law_soap_login_gives_the_cookie(
    entry: VcenterEntryView,
    cookie: Option<Seq<char>>,
    status: u16,
    answer: Seq<char>,
)
    ensures
        ({
            let outcome = vcenter::soap_login_outcome(entry, cookie, status, answer);
            let refused = texts::holds(answer, "InvalidLogin"@);
            let ok = 200 <= status && status <= 299;
            &&& outcome is Ok <==> !refused && ok && cookie is Some
            &&& outcome matches Ok(opened) ==> cookie == Some(opened)
            &&& refused ==> outcome->Err_0 == VcErrorView::auth(
                "vCenter \""@ + entry.name + "\""@ + " rejected the username or password (SOAP)."@,
            )
            &&& !refused && !ok ==> outcome->Err_0 == VcErrorView::network(
                "vCenter SOAP login failed with HTTP "@ + text::decimal(status as nat) + " "@
                    + http::reason_phrase(status) + "."@,
            )
            &&& !refused && ok && cookie is None ==> outcome->Err_0 == VcErrorView::network(
                "vCenter SOAP login returned no session cookie."@,
            )
        }),
{
    texts::law_search_finds_every_place(answer, "InvalidLogin"@);
}

/// The REST part of a connection test says the version and build where it could read them, is
/// content with any other answer but 401, and fails on that.
pub proof fn law_rest_test_tells_the_version(upstream: UpstreamView)
    ensures
        ({
            let said = vcenter::rest_test_outcome(upstream);
            let known = |member: Option<Seq<char>>| match member {
                Some(text) => text,
                None => "?"@,
            };
            &&& said is Err <==> upstream.status == 401
            &&& said matches Err(error) ==> error == VcErrorView::auth(
                "vCenter accepted the login but rejected the session."@,
            )
            &&& upstream.status == 200 ==> said->Ok_0 == "Connected to vCenter "@ + known(
                json::json_text(upstream.body, "version"@),
            ) + " (build "@ + known(json::json_text(upstream.body, "build"@)) + ")"@
            &&& upstream.status != 200 && upstream.status != 401 ==> said->Ok_0
                == "Signed in to vCenter"@
        }),
{
}

/// The SOAP part of a connection test succeeds exactly with a status from 200 to 299. Either way
/// what the REST part said comes first.
pub proof fn law_soap_test_tells_both(rest: Seq<char>, status: u16)
    ensures
        ({
            let said = vcenter::soap_test_outcome(rest, status);
            &&& said is Ok <==> 200 <= status && status <= 299
            &&& said matches Ok(message) ==> message == rest + ". REST and SOAP OK."@
            &&& said matches Err(error) ==> error == VcErrorView::network(
                rest + ", but the SOAP API returned HTTP "@ + text::decimal(status as nat) + "."@,
            )
        }),
{
}

/// A test of an entry that lacks its host or user asks nothing: it drops the sessions and ends with
/// the report.
pub proof fn law_incomplete_entries_are_not_tested(entry: VcenterEntryView)
    requires
        entry.host.len() == 0 || entry.username.len() == 0,
    ensures
        ({
            let begun = ConnectionTestView { entry, stage: StageView::Rest };
            &&& ConnectionTestView::start(entry).step(None) == TestStepView::Forget(begun, entry.id)
            &&& begun.step(None) matches TestStepView::Done(Err(error)) && error.kind
                == "not_configured"@
        }),
{
}

/// A test puts a question that has not been answered once more, and asks nothing but the version
/// by GET and the service content.
pub proof fn law_tests_only_read(entry: VcenterEntryView, rest: Seq<char>)
    requires
        entry.host.len() > 0,
        entry.username.len() > 0,
    ensures
        ({
            let asks_soap = ConnectionTestView { entry, stage: StageView::Soap(rest) };
            &&& asks_soap.step(None) == TestStepView::Ask(
                asks_soap,
                CallView { entry, question: probe::soap_question(), retried: false },
            )
            &&& probe::rest_question() == QuestionView::Rest(
                HttpMethod::Get,
                "/api/appliance/system/version"@,
            )
            &&& probe::soap_question() == QuestionView::Soap(
                "<vim25:RetrieveServiceContent><vim25:_this type=\"ServiceInstance\">ServiceInstance</vim25:_this></vim25:RetrieveServiceContent>"@,
            )
        }),
{
}

/// What a session is asked for depends on the connection alone: an entry with the same host, user
/// and choice on certificates is served, whatever its id and name.
pub proof fn law_connections_outlive_names<C>(
    a: VcenterEntryView,
    b: VcenterEntryView,
    client: C,
    other: SessionView<C>,
)
    requires
        a.host == b.host,
        a.username == b.username,
        a.accept_invalid_certs == b.accept_invalid_certs,
        other.client is None,
    ensures
        SessionView::connected(a, client).serves(b),
        SessionView::connected(a, client).client == Some(client),
        SessionView::connected(a, client).base_url == "https://"@ + a.host,
        a.connection_fingerprint() == b.connection_fingerprint(),
        !other.serves(b),
        SessionView::<C>::empty().client is None,
        SessionView::<C>::empty().token is None,
        SessionView::<C>::empty().soap_cookie is None,
{
}

/// A session is used as long as it is there: a credential that has not expired is handed out, one
/// that has is dropped, and then a login is called for.
pub proof fn law_sessions_are_used_until_they_expire(
    cached: Seq<char>,
    stale: Seq<char>,
    credential: Option<Seq<char>>,
)
    ensures
        session::without_stale(Some(cached), None) == Some(cached),
        session::without_stale(Some(cached), Some(stale)) == (if cached == stale {
            None
        } else {
            Some(cached)
        }),
        session::without_stale(None, Some(stale)) is None,
        session::without_stale(None, None) is None,
        session::readiness(false, credential) is NeedsClient,
        session::readiness(true, None) is NeedsLogin,
        session::readiness(true, Some(cached)) == ReadinessView::Ready(cached),
{
}

/// Logging out ends each session that there is, REST and SOAP, with a request of its own that names
/// it and waits at most 5 seconds. Where there is none, nothing is sent.
pub proof fn law_logging_out_ends_every_session<C>(
    session: SessionView<C>,
    token: Seq<char>,
    cookie: Seq<char>,
)
    ensures
        ({
            let none = SessionView { token: None, soap_cookie: None, ..session };
            let rest = SessionView { token: Some(token), ..none };
            let soap = SessionView { soap_cookie: Some(cookie), ..none };
            let both = SessionView { token: Some(token), ..soap };
            let end_rest = HttpRequestView {
                method: HttpMethod::Delete,
                url: session.base_url + "/api/session"@,
                headers: seq![("vmware-api-session-id"@, token)],
                basic_auth: None,
                body: None,
                timeout: Some(5),
            };
            let end_soap = HttpRequestView {
                timeout: Some(5),
                ..request::soap_request_view(
                    session.base_url,
                    Some(cookie),
                    "<vim25:Logout><vim25:_this type=\"SessionManager\">SessionManager</vim25:_this></vim25:Logout>"@,
                )
            };
            &&& none.logout_requests().len() == 0
            &&& rest.logout_requests() == seq![end_rest]
            &&& soap.logout_requests() == seq![end_soap]
            &&& both.logout_requests() == seq![end_rest, end_soap]
        }),
{
    let none = SessionView { token: None::<Seq<char>>, soap_cookie: None, ..session };
    let rest = SessionView { token: Some(token), ..none };
    let soap = SessionView { soap_cookie: Some(cookie), ..none };
    let both = SessionView { token: Some(token), ..soap };
    assert(both.logout_requests() == rest.logout_requests() + soap.logout_requests());
    assert(rest.logout_requests().len() == 1 && soap.logout_requests().len() == 1);
    assert(both.logout_requests() == seq![
        rest.logout_requests()[0],
        soap.logout_requests()[0],
    ]);
}

/// An outcome is what it is said to be, text or error.
pub proof fn law_outcomes_are_told_in_full(
    r: Result<String, VcError>,
    text: Seq<char>,
    error: VcErrorView,
)
    ensures
        vcenter::text_or_error(r, Ok(text)) <==> (r matches Ok(got) && got@ == text),
        vcenter::text_or_error(r, Err(error)) <==> (r matches Err(got) && got.kind@ == error.kind
            && got.status == error.status && got.message@ == error.message),
{
}

} // verus!
