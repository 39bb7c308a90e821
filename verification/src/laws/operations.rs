//! What each operation gives, of what it is given.

use crate::call::{Call, Next, Question, QuestionView};
use crate::clock;
use crate::config;
use crate::config::{Config, VcenterEntry, VcenterEntryView};
use crate::http;
use crate::ids;
use crate::laws::server as server_laws;
use crate::laws::settings as settings_laws;
use crate::laws::texts;
use crate::laws::vcenter as vcenter_laws;
use crate::listener::ServerStatus;
use crate::probe::{ConnectionTest, TestStep, TestStepView};
use crate::request;
use crate::request::{HttpMethod, HttpRequest};
use crate::route;
use crate::server;
use crate::server::{
    Admission, Caller, HelperError, ProxyRequest, SoapRequest, StatusDetails, StatusReply,
    UpstreamReply,
};
use crate::settings;
use crate::settings::{
    GeneralSettings, PasswordActionView, Settings, VcenterChange,
};
use crate::soap;
use crate::text;
use crate::vcenter;
use crate::vcenter::{Upstream, VcError};
use crate::xml;
use vstd::prelude::*;

verus! {

/// A request addressed to the loopback is a preflight, answered with 204, exactly where its method
/// is OPTIONS. With any other method it is handled, on behalf of the caller that its Origin header
/// names: allowed where that is absent or the settings allow it. Every other request is refused.
pub proof fn law_guard_lets_the_loopback_in(
    config: &Config,
    method: &str,
    host: &Option<Vec<u8>>,
    origin: &Option<Vec<u8>>,
    r: Admission,
)
    requires
        call_ensures(server::guard, (config, method, host, origin), r),
    ensures
        ({
            let addressed = match *host {
                Some(value) => http::header_text(value@),
                None => None,
            };
            let named = match *origin {
                Some(value) => http::header_text(value@),
                None => None,
            };
            let loopback = addressed matches Some(name) && server::is_loopback(name);
            match r {
                Admission::Refused(error) => !loopback && error.status == 403 && error.kind@
                    == "forbidden_host"@,
                Admission::Preflight(status, who) => {
                    &&& loopback && method@ == "OPTIONS"@
                    &&& status == 204 && text::option_view(who) == named
                },
                Admission::Handled(caller) => {
                    &&& loopback && method@ != "OPTIONS"@
                    &&& text::option_view(caller.origin) == named
                    &&& caller.allowed <==> (named matches Some(name) ==> config@.origin_allowed(
                        name,
                    ))
                },
            }
        }),
{
}

/// A host names the loopback exactly where what stands before its last colon, or all of it, is
/// 127.0.0.1 or localhost in any letter case.
pub proof fn law_loopback_hosts_are_recognized(host: &str, yes: bool, name: Seq<char>, port: Seq<char>)
    requires
        call_ensures(server::host_is_loopback, (host,), yes),
        host@ == name.push(':') + port && !port.contains(':') || host@ == name && !name.contains(
            ':',
        ),
    ensures
        yes <==> name == "127.0.0.1"@ || text::lower(name) == "localhost"@,
{
    if host@ == name && !name.contains(':') {
        server_laws::law_loopback_is_named_with_or_without_port(name, seq![]);
    } else {
        server_laws::law_loopback_is_named_with_or_without_port(name, port);
    }
}

/// The answer to `/status` says to an allowed caller whether there are vCenters and which, and to
/// any other its origin alone.
pub proof fn law_status_answers_by_who_asks(config: &Config, caller: Caller, reply: StatusReply)
    requires
        call_ensures(server::status, (config, caller), reply),
    ensures
        reply.origin_allowed == caller.allowed,
        reply.helper@ == "dbh-insights-helper"@,
        match reply.details {
            StatusDetails::Granted(configured, vcenters, capabilities) => {
                &&& caller.allowed
                &&& configured <==> vcenters@.len() > 0
                &&& vcenters@.len() == config.vcenters@.len()
                &&& forall|i: int|
                    0 <= i < vcenters@.len() ==> {
                        let (shown, entry) = (#[trigger] vcenters@[i], config.vcenters@[i]);
                        &&& shown.id@ == entry.id@ && shown.name@ == entry.name@
                        &&& shown.host@ == entry.host@ && shown.username@ == entry.username@
                    }
                &&& capabilities@.len() == 3
            },
            StatusDetails::Refused(origin) => !caller.allowed && text::option_view(origin)
                == text::option_view(caller.origin),
        },
{
    if caller.allowed {
        server_laws::law_status_lists_what_is_configured(config@, caller@);
    }
    if let StatusDetails::Granted(configured, vcenters, capabilities) = reply.details {
        let shown = server::summaries_view(vcenters@);
        assert(capabilities@.map_values(|c: &'static str| c@).len() == 3);
        assert forall|i: int| 0 <= i < vcenters@.len() implies {
            let (shown, entry) = (#[trigger] vcenters@[i], config.vcenters@[i]);
            &&& shown.id@ == entry.id@ && shown.name@ == entry.name@
            &&& shown.host@ == entry.host@ && shown.username@ == entry.username@
        } by {
            assert(shown[i] == vcenters@[i]@);
            assert(config@.vcenters[i] == config.vcenters@[i]@);
        }
    }
}

/// A request is for the first vCenter that goes by the id that it names, or for the only one where
/// it names none.
pub proof fn law_vcenters_are_picked(
    config: &Config,
    id: &Option<String>,
    r: Result<VcenterEntry, HelperError>,
)
    requires
        call_ensures(server::resolve_vcenter, (config, id), r),
    ensures
        match r {
            Ok(entry) => exists|i: int|
                {
                    &&& 0 <= i < config.vcenters@.len()
                    &&& (#[trigger] config.vcenters@[i])@ == entry@
                    &&& match *id {
                        Some(id) => entry.id@ == id@ && forall|j: int|
                            0 <= j < i ==> (#[trigger] config.vcenters@[j]).id@ != id@,
                        None => config.vcenters@.len() == 1,
                    }
                },
            Err(error) => {
                &&& error.status == 409 <==> config.vcenters@.len() == 0
                &&& error.status == 404 ==> (*id matches Some(id) && forall|i: int|
                    0 <= i < config.vcenters@.len() ==> (#[trigger] config.vcenters@[i]).id@ != id@)
                &&& error.status == 400 ==> *id is None && config.vcenters@.len() > 1
                &&& error.status == 400 || error.status == 404 || error.status == 409
            },
        },
{
    let view = config@.vcenters;
    assert(view.len() == config.vcenters@.len());
    match (*id, r) {
        (Some(id), Ok(entry)) => {
            ids::lemma_has_first(view, id@);
            let i = choose|i: int| #[trigger] ids::is_first_with_id(view, id@, i);
            ids::lemma_first_with_id(view, id@, i);
            assert(view[i] == config.vcenters@[i]@);
            assert forall|j: int| 0 <= j < i implies (#[trigger] config.vcenters@[j]).id@ != id@ by {
                assert(view[j].id == config.vcenters@[j].id@);
            }
            assert(config.vcenters@[i]@ == entry@);
        },
        (Some(id), Err(error)) => {
            assert forall|i: int| 0 <= i < config.vcenters@.len() && error.status
                == 404 implies (#[trigger] config.vcenters@[i]).id@ != id@ by {
                assert(view[i].id == config.vcenters@[i].id@);
            }
        },
        (None, Ok(entry)) => {
            assert(view[0] == config.vcenters@[0]@);
            assert(config.vcenters@[0]@ == entry@);
        },
        (None, Err(_)) => {},
    }
}

/// A path is passed through exactly where it begins as one of the APIs and is no session endpoint,
/// decoded or where its dot segments lead, has none of the forbidden parts, and is visible ASCII as
/// it stands.
pub proof fn law_paths_are_checked(path: &str, r: Result<(), &'static str>)
    requires
        call_ensures(server::validate_path, (path,), r),
    ensures
        r is Ok <==> {
            let reached = route::resolved(text::before_char(path@, '?'));
            &&& server_laws::begins_as_api(path@)
            &&& !server_laws::begins_as_session(text::percent_decoded(path@))
            &&& server_laws::begins_as_api(reached)
            &&& !server_laws::begins_as_session(text::percent_decoded(reached))
            &&& !server_laws::has_forbidden_part(path@)
            &&& server_laws::is_visible_ascii(path@)
        },
{
    server_laws::law_paths_that_are_passed_through(path@);
}

/// A path whose part before the query has neither a percent sign nor a dot segment inside is passed
/// through whatever its query encodes: it is judged by how it begins and by its characters alone.
pub proof fn law_encoded_queries_are_passed_through(path: &str, r: Result<(), &'static str>)
    requires
        call_ensures(server::validate_path, (path,), r),
        !text::before_char(path@, '?').contains('%'),
        !texts::holds(text::before_char(path@, '?'), "/./"@),
    ensures
        r is Ok <==> {
            &&& server_laws::begins_as_api(path@) && !server_laws::begins_as_session(path@)
            &&& !server_laws::has_forbidden_part(path@)
            &&& server_laws::is_visible_ascii(path@)
        },
{
    server_laws::law_queries_may_be_encoded(path@);
}

/// GET, in any letter case, is the only method that reads, and it is the default.
pub proof fn law_methods_are_checked(method: &str, yes: bool, default: String)
    requires
        call_ensures(server::is_read_method, (method,), yes),
        call_ensures(server::default_method, (), default),
    ensures
        yes <==> text::lower(method@) == "get"@,
        default@ == "GET"@,
{
}

/// What `/proxy` puts to a vCenter is a GET for the path that was given, on behalf of a website that
/// is allowed, for a path that is passed through and a complete vCenter. Nothing else is put.
pub proof fn law_proxy_puts_the_question_that_was_asked(
    config: &Config,
    caller: &Caller,
    request: ProxyRequest,
    r: Result<Call, HelperError>,
)
    requires
        call_ensures(server::proxy, (config, caller, Ok(request)), r),
    ensures
        r is Ok <==> {
            &&& caller.allowed
            &&& text::lower(request.method@) == "get"@
            &&& server::path_refusal(request.path@) is None
            &&& server::resolution(config@.vcenters, text::option_view(request.vcenter)) matches Ok(
                entry,
            ) && entry.host.len() > 0 && entry.username.len() > 0
        },
        r matches Ok(call) ==> {
            &&& call@.question == QuestionView::Rest(HttpMethod::Get, request.path@)
            &&& server::resolution(config@.vcenters, text::option_view(request.vcenter)) == Ok::<
                VcenterEntryView,
                server::HelperErrorView,
            >(call@.entry)
            &&& !call@.retried
        },
        r matches Err(error) ==> (!caller.allowed <==> error.kind@ == "origin_not_allowed"@),
{
    lemma_kinds_differ();
    if caller.allowed {
        server_laws::law_proxy_passes_on_what_it_may(config@, caller@, request@);
    }
}

/// What `/soap` puts to a vCenter is the body that was given, on behalf of a website that is
/// allowed, where it reads as one allowed operation, to a complete vCenter. Nothing else is put.
pub proof fn law_soap_puts_the_question_that_was_asked(
    config: &Config,
    caller: &Caller,
    request: SoapRequest,
    r: Result<Call, HelperError>,
)
    requires
        call_ensures(server::soap, (config, caller, Ok(request)), r),
    ensures
        r is Ok <==> {
            &&& caller.allowed
            &&& soap::soap_verdict(request.body@, xml::xml_events(request.body@)) is Ok
            &&& server::resolution(config@.vcenters, text::option_view(request.vcenter)) matches Ok(
                entry,
            ) && entry.host.len() > 0 && entry.username.len() > 0
        },
        r matches Ok(call) ==> {
            &&& call@.question == QuestionView::Soap(request.body@)
            &&& server::resolution(config@.vcenters, text::option_view(request.vcenter)) == Ok::<
                VcenterEntryView,
                server::HelperErrorView,
            >(call@.entry)
            &&& !call@.retried
        },
        r matches Err(error) ==> (!caller.allowed <==> error.kind@ == "origin_not_allowed"@),
{
    lemma_kinds_differ();
    if caller.allowed {
        server_laws::law_soap_passes_on_what_it_may(config@, caller@, request@);
    }
}

/// The kind of a refused origin is like no other.
proof fn lemma_kinds_differ()
    ensures
        "origin_not_allowed"@ != "read_only"@,
        "origin_not_allowed"@ != "bad_path"@,
        "origin_not_allowed"@ != "soap_not_allowed"@,
        "origin_not_allowed"@ != "not_configured"@,
        "origin_not_allowed"@ != "unknown_vcenter"@,
        "origin_not_allowed"@ != "vcenter_required"@,
{
    reveal_strlit("origin_not_allowed");
    reveal_strlit("read_only");
    reveal_strlit("bad_path");
    reveal_strlit("soap_not_allowed");
    reveal_strlit("not_configured");
    reveal_strlit("unknown_vcenter");
    reveal_strlit("vcenter_required");
    assert("origin_not_allowed"@.len() == 18);
}

/// A vCenter's answer goes to the website with its own status, body and content type, unless HTTP
/// has no such status or the content type cannot be sent.
pub proof fn law_answers_reach_the_website(upstream: Upstream, reply: UpstreamReply)
    requires
        call_ensures(server::upstream_response, (upstream,), reply),
    ensures
        reply.body@ == upstream.body@,
        100 <= upstream.status <= 999 ==> reply.status == upstream.status,
        !(100 <= upstream.status <= 999) ==> reply.status == 502,
        reply.content_type matches Some(sent) ==> (upstream.content_type matches Some(given)
            && given@ == sent@),
        upstream.content_type matches Some(given) ==> (http::can_be_header(given@)
            ==> reply.content_type is Some),
{
}

/// A failure to ask a vCenter goes to the website with its own status, kind and message.
pub proof fn law_failures_reach_the_website(
    failure: VcError,
    r: Result<UpstreamReply, HelperError>,
)
    requires
        call_ensures(server::reply, (Err(failure),), r),
    ensures
        r matches Err(error) && error.status == failure.status && error.kind@ == failure.kind@
            && error.message@ == failure.message@,
{
}

/// Every answer carries the headers for its origin, in this order.
pub proof fn law_answers_carry_their_headers(
    origin: &Option<String>,
    headers: Vec<(&'static str, String)>,
)
    requires
        call_ensures(server::response_headers, (origin,), headers),
    ensures
        server::named_headers(headers@) == server::answer_headers(text::option_view(*origin)),
        headers@.len() == (if *origin matches Some(name) && http::can_be_header(name@) {
            8int
        } else {
            2
        }),
{
    assert(server::named_headers(headers@).len() == headers@.len());
}

/// An error for the website says what it is given.
pub proof fn law_errors_say_what_they_are_given(
    status: u16,
    kind: &'static str,
    message: String,
    error: HelperError,
)
    requires
        call_ensures(server::helper_error, (status, kind, message), error),
    ensures
        error.status == status && error.kind@ == kind@ && error.message@ == message@,
{
}

/// A website that is not allowed is refused by its name, or as one without a name.
pub proof fn law_refused_origins_are_named(caller: &Caller, error: HelperError)
    requires
        call_ensures(server::origin_not_allowed, (caller,), error),
    ensures
        error.status == 403 && error.kind@ == "origin_not_allowed"@,
        error.message@ == "This website ("@ + (match caller.origin {
            Some(origin) => origin@,
            None => "unknown"@,
        }) + ") is not in the helper's list of allowed websites."@,
{
}

/// A body that was judged is put exactly where the verdict is good and the vCenter is complete.
pub proof fn law_judged_bodies_are_put(
    config: &Config,
    request: SoapRequest,
    verdict: Result<&'static str, String>,
    r: Result<Call, HelperError>,
)
    requires
        call_ensures(server::judged_soap, (config, request, verdict), r),
    ensures
        r is Ok ==> verdict is Ok,
        verdict matches Err(reason) ==> (r matches Err(error) && error.kind@ == "soap_not_allowed"@
            && error.message@ == reason@),
        r matches Ok(call) ==> call@.question == QuestionView::Soap(request.body@) && !call@.retried
            && call@.entry.host.len() > 0 && call@.entry.username.len() > 0,
{
}

/// A header is read as text where it is there and all of it can be.
pub proof fn law_headers_are_read_if_there(value: &Option<Vec<u8>>, r: Option<String>)
    requires
        call_ensures(http::optional_header_text, (value,), r),
    ensures
        value is None ==> r is None,
        value matches Some(bytes) ==> text::option_view(r) == http::header_text(bytes@),
{
}

/// An answer says that a SOAP session has expired exactly where its status is 500 and
/// `NotAuthenticated` stands anywhere in its body.
pub proof fn law_expired_soap_sessions_are_recognized(upstream: &Upstream, yes: bool)
    requires
        call_ensures(vcenter::is_not_authenticated, (upstream,), yes),
    ensures
        yes <==> upstream.status == 500 && texts::holds(
            upstream.body@,
            vstd::utf8::encode_utf8("NotAuthenticated"@),
        ),
{
    texts::law_search_finds_every_place(
        upstream.body@,
        vstd::utf8::encode_utf8("NotAuthenticated"@),
    );
}

/// A question is put again, once, exactly where the session that it was put in has expired: the same
/// to the same vCenter, in another session.
pub proof fn law_questions_are_put_again_once(
    call: Call,
    credential: String,
    answer: &Upstream,
    next: Next,
)
    requires
        call_ensures(Call::answered, (call, credential, answer), next),
    ensures
        match next {
            Next::Again(again, stale) => {
                &&& !call@.retried && again@.retried
                &&& again@.entry == call@.entry && again@.question == call@.question
                &&& stale@ == credential@
                &&& call@.question is Rest ==> answer.status == 401
                &&& call@.question is Soap ==> answer.status == 500 && texts::holds(
                    answer.body@,
                    vstd::utf8::encode_utf8("NotAuthenticated"@),
                )
            },
            Next::Finish => {
                ||| call@.retried
                ||| call@.question is Rest && answer.status != 401
                ||| call@.question is Soap && (answer.status != 500 || !texts::holds(
                    answer.body@,
                    vstd::utf8::encode_utf8("NotAuthenticated"@),
                ))
            },
        },
{
    vcenter_laws::law_only_expired_sessions_are_replaced(
        call@,
        credential@,
        answer.status,
        answer.body@,
    );
}

/// A question is sent to the vCenter's host, in the session that the credential names.
pub proof fn law_questions_are_sent_to_the_vcenter(
    call: &Call,
    credential: String,
    sent: HttpRequest,
)
    requires
        call_ensures(Call::request, (call, credential), sent),
    ensures
        call@.question matches QuestionView::Rest(method, path) ==> {
            &&& sent.method == method
            &&& sent.url@ == "https://"@ + call@.entry.host + path
            &&& sent@.headers == seq![("vmware-api-session-id"@, credential@)]
            &&& sent.body is None
        },
        call@.question matches QuestionView::Soap(operation) ==> {
            &&& sent.method == HttpMethod::Post
            &&& sent.url@ == "https://"@ + call@.entry.host + "/sdk"@
            &&& sent@.headers.last() == ("Cookie"@, credential@)
            &&& sent.body matches Some(body) && body@ == request::envelope(operation)
        },
{
}

/// A question is started exactly for an entry with a host and a user, as it is and not yet put.
pub proof fn law_questions_need_a_host_and_a_user(
    entry: VcenterEntry,
    question: Question,
    r: Result<Call, VcError>,
)
    requires
        call_ensures(Call::start, (entry, question), r),
    ensures
        r is Ok <==> entry.host@.len() > 0 && entry.username@.len() > 0,
        r matches Ok(call) ==> call@.entry == entry@ && call@.question == question@
            && !call@.retried,
        r matches Err(error) ==> error.kind@ == "not_configured"@ && error.status == 409,
{
}

/// A REST login gives the text that the answer holds exactly where the status is from 200 to 299 and
/// the answer holds one.
pub proof fn law_rest_logins_are_read(
    entry: &VcenterEntry,
    status: u16,
    body: &[u8],
    r: Result<String, VcError>,
)
    requires
        call_ensures(vcenter::read_rest_login, (entry, status, body), r),
    ensures
        r is Ok <==> 200 <= status <= 299 && crate::json::json_string(body@) is Ok,
        r matches Ok(token) ==> crate::json::json_string(body@) == Ok::<Seq<char>, Seq<char>>(
            token@,
        ),
        r matches Err(error) ==> (status == 401 ==> error.kind@ == "vcenter_auth_failed"@) && (
        status != 401 ==> error.kind@ == "vcenter_unreachable"@),
{
}

/// A SOAP login gives the cookie that came with the answer exactly where the status is from 200 to
/// 299, there is such a cookie, and `InvalidLogin` stands nowhere in the answer.
pub proof fn law_soap_logins_are_read(
    entry: &VcenterEntry,
    cookie: Option<String>,
    status: u16,
    answer: &str,
    r: Result<String, VcError>,
)
    requires
        call_ensures(vcenter::check_soap_login, (entry, cookie, status, answer), r),
    ensures
        r is Ok <==> 200 <= status <= 299 && cookie is Some && !texts::holds(
            answer@,
            "InvalidLogin"@,
        ),
        r matches Ok(opened) ==> (cookie matches Some(given) && given@ == opened@),
        r matches Err(error) ==> (texts::holds(answer@, "InvalidLogin"@) ==> error.kind@
            == "vcenter_auth_failed"@) && (!texts::holds(answer@, "InvalidLogin"@) ==> error.kind@
            == "vcenter_unreachable"@),
{
    vcenter_laws::law_soap_login_gives_the_cookie(
        entry@,
        text::option_view(cookie),
        status,
        answer@,
    );
}

/// The cookie that is found is that of the first header that holds a SOAP session's cookie.
pub proof fn law_session_cookies_are_found(
    headers: &Vec<Vec<u8>>,
    cookie: Option<String>,
    before: Seq<Seq<u8>>,
    header: Seq<u8>,
    after: Seq<Seq<u8>>,
)
    requires
        call_ensures(vcenter::find_soap_cookie, (headers,), cookie),
        vcenter::header_list(headers@) == before.push(header) + after,
        forall|i: int|
            0 <= i < before.len() ==> !vcenter_laws::has_session_cookie(#[trigger] before[i]),
        vcenter_laws::has_session_cookie(header),
    ensures
        cookie matches Some(found) && found@ == vcenter::cookie_pair(
            http::header_text(header)->0,
        ),
{
    vcenter_laws::law_session_cookie_is_found_anywhere(before, header, after);
}

/// The password is the one that the keychain answered with, and there is none otherwise.
pub proof fn law_passwords_are_read(
    entry: &VcenterEntry,
    stored: Result<Option<String>, String>,
    r: Result<String, VcError>,
)
    requires
        call_ensures(vcenter::saved_password, (entry, stored), r),
    ensures
        r matches Ok(password) ==> (stored matches Ok(Some(kept)) && kept@ == password@),
        r is Ok <==> stored is Ok && stored->Ok_0 is Some,
        r matches Err(error) ==> error.kind@ == "not_configured"@,
{
}

/// A failure is told with its context, its message and every cause.
pub proof fn law_network_errors_are_told(
    context: &str,
    message: &str,
    causes: &Vec<String>,
    error: VcError,
    entry: &VcenterEntry,
    reached: String,
)
    requires
        call_ensures(vcenter::network_error, (context, message, causes), error),
        call_ensures(vcenter::could_not_reach, (entry,), reached),
    ensures
        error.kind@ == "vcenter_unreachable"@ && error.status == 502,
        error.message@ == context@ + ": "@ + message@ + vcenter::cause_chain(
            text::texts_view(causes@),
        ),
        reached@ == "Could not reach https://"@ + entry.host@,
{
    reveal_strlit("Could not reach https://");
    reveal_strlit("Could not reach ");
    reveal_strlit("https://");
    assert("Could not reach "@ + ("https://"@ + entry.host@) =~= "Could not reach https://"@
        + entry.host@);
}

/// A step of a connection test is the one that its stage and the last answer call for.
pub proof fn law_tests_go_step_by_step(
    test: ConnectionTest,
    last: Option<Result<Upstream, VcError>>,
    step: TestStep,
)
    requires
        call_ensures(ConnectionTest::step, (test, last), step),
    ensures
        test@.stage is Start ==> (step@ matches TestStepView::Forget(_, id) && id == test@.entry.id),
        test@.stage !is Start && last is Some && last->0 is Err ==> step@ == TestStepView::Done(
            Err(last->0->Err_0@),
        ),
        step@ matches TestStepView::Ask(next, call) ==> next.entry == test@.entry && call.entry
            == test@.entry,
{
}

/// A body is let through exactly where it has at most a million bytes and reads as one allowed
/// operation, which is the answer.
pub proof fn law_soap_bodies_are_judged(
    body: &str,
    answer: Result<&'static str, String>,
    operation: Seq<char>,
)
    requires
        call_ensures(soap::validate_soap_body, (body,), answer),
    ensures
        (answer matches Ok(found) && found@ == operation) <==> {
            &&& vstd::utf8::encode_utf8(body@).len() <= 1_000_000
            &&& soap::is_one_operation(xml::xml_events(body@), operation)
        },
{
}

/// An operation is allowed by its own name.
pub proof fn law_operations_are_allowed_by_name(name: &str, operation: Option<&'static str>)
    requires
        call_ensures(soap::read_operation, (name,), operation),
    ensures
        operation is Some <==> soap::soap_read_operations().contains(name@),
        operation matches Some(found) ==> found@ == name@,
{
}

/// A port below 1024 is refused. Any other is taken, and the server is started on it exactly where
/// it does not listen there already.
pub proof fn law_ports_from_1024_are_taken(
    general: &GeneralSettings,
    running: &ServerStatus,
    r: Result<bool, String>,
)
    requires
        call_ensures(settings::check_general, (general, running), r),
    ensures
        r is Ok <==> general.port >= 1024,
        r matches Ok(start) ==> (start <==> !(running.listening && running.port == general.port)),
        r matches Err(message) ==> message@ == "Choose a port from 1024 to 65535."@,
{
}

/// The window opens at the start exactly where no vCenter is configured. It shows every vCenter, and
/// whether there is a password for it.
pub proof fn law_window_shows_the_settings(
    config: Config,
    stored: &Vec<Result<Option<String>, String>>,
    server: ServerStatus,
    shown: Settings,
    at_start: &Config,
    opens: bool,
    i: int,
)
    requires
        call_ensures(settings::opens_window, (at_start,), opens),
        call_ensures(settings::get_settings, (config, stored, server), shown),
        0 <= i < config.vcenters@.len(),
    ensures
        opens <==> at_start.vcenters@.len() == 0,
        shown.port == config.port && shown.allow_local_files == config.allow_local_files,
        text::texts_view(shown.allowed_origins@) == text::texts_view(config.allowed_origins@),
        shown.server@ == server@,
        shown.vcenters@.len() == config.vcenters@.len(),
        shown.vcenters@[i].entry@ == config.vcenters@[i]@,
        shown.vcenters@[i].has_password <==> stored@[i] is Ok && stored@[i]->Ok_0 is Some,
{
    assert(shown@.vcenters.len() == shown.vcenters@.len());
    assert(shown@.vcenters[i] == shown.vcenters@[i]@);
    assert(config@.vcenters[i] == config.vcenters@[i]@);
}

/// A vCenter is saved exactly where it has a host and a user once it is cleaned up. A password that
/// was typed is stored under its login, whatever was there before.
pub proof fn law_saving_stores_what_was_typed(
    config: &Config,
    vcenter: VcenterEntry,
    typed: Option<String>,
    nanos: u128,
    r: Result<VcenterChange, String>,
)
    requires
        call_ensures(settings::save_vcenter_at, (config, vcenter, typed, nanos), r),
    ensures
        r is Ok <==> config::host_of(vcenter.host@).len() > 0 && text::trim(vcenter.username@).len()
            > 0,
        r matches Ok(change) ==> {
            let entry = VcenterEntryView { id: change.id@, ..vcenter@.normalized() };
            &&& typed matches Some(password) ==> (password@.len() > 0 ==> change.password@
                == PasswordActionView::Store(entry.username + "@"@ + entry.host, password@))
            &&& change.config@.port == config@.port
            &&& change.config@.allowed_origins == config@.allowed_origins
            &&& change.config@.allow_local_files == config@.allow_local_files
            &&& !ids::has_id(config@.vcenters, vcenter.id@) ==> change.config@.vcenters
                == config@.vcenters.push(entry)
        },
        r matches Err(message) ==> message@ == "Address and username are required."@,
{
}

/// By the time of day, a vCenter is saved in the same way.
pub proof fn law_saving_by_the_clock_stores_what_was_typed(
    config: &Config,
    vcenter: VcenterEntry,
    password: String,
    r: Result<VcenterChange, String>,
)
    requires
        call_ensures(settings::save_vcenter, (config, vcenter, Some(password)), r),
        password@.len() > 0,
    ensures
        r is Ok <==> config::host_of(vcenter.host@).len() > 0 && text::trim(vcenter.username@).len()
            > 0,
        r matches Ok(change) ==> change.password@ == PasswordActionView::Store(
            text::trim(vcenter.username@) + "@"@ + config::host_of(vcenter.host@),
            password@,
        ),
{
}

/// Whether `after` is `before` without its entry `i`, the first that goes by `id`.
pub open spec fn is_deletion(
    before: Seq<VcenterEntryView>,
    after: Seq<VcenterEntryView>,
    id: Seq<char>,
    i: int,
) -> bool {
    &&& 0 <= i < before.len() && before[i].id == id
    &&& forall|j: int| 0 <= j < i ==> (#[trigger] before[j]).id != id
    &&& after == before.take(i) + before.skip(i + 1)
}

/// Deleting does something exactly where a vCenter goes by the id, and takes the first of these out.
pub proof fn law_deleting_takes_the_named_one(
    config: &Config,
    id: String,
    change: Option<VcenterChange>,
)
    requires
        call_ensures(settings::delete_vcenter, (config, id), change),
    ensures
        change is Some <==> exists|i: int|
            0 <= i < config@.vcenters.len() && (#[trigger] config@.vcenters[i]).id == id@,
        change matches Some(done) ==> {
            &&& done.id@ == id@
            &&& exists|i: int|
                #[trigger] is_deletion(config@.vcenters, done.config@.vcenters, id@, i)
            &&& done.password@ is Keep
            &&& done.config@.port == config@.port
            &&& done.config@.allowed_origins == config@.allowed_origins
            &&& done.config@.allow_local_files == config@.allow_local_files
        },
{
    if let Some(done) = change {
        let before = config@.vcenters;
        ids::lemma_has_first(before, id@);
        let i = settings::index_of(before, id@);
        assert(ids::is_first_with_id(before, id@, i));
        assert(done@.config == done.config@);
        assert(before.remove(i) =~= before.take(i) + before.skip(i + 1));
        assert(is_deletion(before, done.config@.vcenters, id@, i));
    }
}

/// The vCenter that is tested is the first that goes by the id, and none where there is none.
pub proof fn law_named_vcenter_is_tested(
    config: &Config,
    id: &str,
    r: Result<VcenterEntry, String>,
)
    requires
        call_ensures(settings::test_vcenter, (config, id), r),
    ensures
        r is Ok <==> ids::has_id(config@.vcenters, id@),
        r matches Ok(entry) ==> entry@ == ids::first_with_id(config@.vcenters, id@),
        r matches Err(message) ==> message@ == "That vCenter no longer exists."@,
{
}

/// An entry is cleaned up, reached and told apart by its own fields alone.
pub proof fn law_entries_answer_for_themselves(
    entry: VcenterEntry,
    clean: VcenterEntry,
    complete: bool,
    url: String,
    fingerprint: String,
    account: String,
)
    requires
        call_ensures(VcenterEntry::normalized, (entry,), clean),
        call_ensures(VcenterEntry::is_complete, (&entry,), complete),
        call_ensures(VcenterEntry::base_url, (&entry,), url),
        call_ensures(VcenterEntry::connection_fingerprint, (&entry,), fingerprint),
        call_ensures(VcenterEntry::keyring_account, (&entry,), account),
    ensures
        clean.id@ == entry.id@ && clean.host@ == config::host_of(entry.host@),
        clean.username@ == text::trim(entry.username@),
        clean.accept_invalid_certs == entry.accept_invalid_certs,
        text::trim(entry.name@).len() > 0 ==> clean.name@ == text::trim(entry.name@),
        text::trim(entry.name@).len() == 0 ==> clean.name@ == clean.host@,
        complete <==> entry.host@.len() > 0 && entry.username@.len() > 0,
        url@ == "https://"@ + entry.host@,
        account@ == entry.username@ + "@"@ + entry.host@,
        fingerprint@ == entry.host@ + "|"@ + entry.username@ + "|"@ + (
        if entry.accept_invalid_certs {
            "true"@
        } else {
            "false"@
        }),
{
    settings_laws::law_entries_are_cleaned_up(entry@);
}

/// An origin is allowed exactly where it is listed in lower case and without slashes at its end, or
/// is "null" and local files are allowed.
pub proof fn law_origins_are_checked(
    config: &Config,
    origin: &str,
    allowed: bool,
    name: Seq<char>,
    slashes: Seq<char>,
)
    requires
        call_ensures(Config::origin_allowed, (config, origin), allowed),
        origin@ == name + slashes,
        name.len() == 0 || name.last() != '/',
        forall|i: int| 0 <= i < slashes.len() ==> (#[trigger] slashes[i]) == '/',
    ensures
        allowed <==> {
            ||| text::lower(name) == "null"@ && config.allow_local_files
            ||| text::lower(name) != "null"@ && exists|i: int|
                0 <= i < config.allowed_origins@.len() && (
                #[trigger] config.allowed_origins@[i])@ == text::lower(name)
        },
{
    settings_laws::law_origins_are_compared_in_one_form(config@, name, slashes);
    let listed = config@.allowed_origins;
    if exists|i: int| 0 <= i < listed.len() && #[trigger] listed[i] == text::lower(name) {
        let i = choose|i: int| 0 <= i < listed.len() && #[trigger] listed[i] == text::lower(name);
        assert(config.allowed_origins@[i]@ == text::lower(name));
    }
    if exists|i: int|
        0 <= i < config.allowed_origins@.len() && (#[trigger] config.allowed_origins@[i])@
            == text::lower(name) {
        let i = choose|i: int|
            0 <= i < config.allowed_origins@.len() && (#[trigger] config.allowed_origins@[i])@
                == text::lower(name);
        assert(listed[i] == text::lower(name));
    }
}

/// Settings are normalized as their contents and the times say. A found entry is the first that goes
/// by its id, and an account is unused where no entry has it.
pub proof fn law_settings_are_normalized_and_searched(
    config: Config,
    times: &Vec<u128>,
    kept: Config,
    id: &str,
    found: Option<&VcenterEntry>,
    entry: &VcenterEntry,
    unused: Option<String>,
)
    requires
        call_ensures(Config::normalized_at, (config, times), kept),
        call_ensures(Config::find, (&config, id), found),
        call_ensures(Config::unused_account, (&config, entry), unused),
    ensures
        kept@ == config@.normalized(times@),
        found is Some <==> ids::has_id(config@.vcenters, id@),
        found matches Some(one) ==> one@ == ids::first_with_id(config@.vcenters, id@),
        unused is None <==> exists|i: int|
            0 <= i < config@.vcenters.len() && (#[trigger] config@.vcenters[i]).keyring_account()
                == entry.username@ + "@"@ + entry.host@,
        unused matches Some(account) ==> account@ == entry.username@ + "@"@ + entry.host@,
{
}

/// A new id is the one that the time gives, and the time is counted in nanoseconds.
pub proof fn law_ids_and_times_are_made(
    entries: &Vec<VcenterEntry>,
    nanos: u128,
    id: String,
    seconds: u64,
    rest: u32,
    counted: u128,
)
    requires
        call_ensures(ids::new_id_at, (entries, nanos), id),
        call_ensures(clock::nanos_of, (Some((seconds, rest)),), counted),
    ensures
        id@ == ids::fresh_id(ids::entries_view(entries@), nanos as nat),
        !ids::has_id(ids::entries_view(entries@), id@),
        counted == seconds * 1_000_000_000 + rest,
{
}

/// A text that is escaped reads back as it was, and an operation stands in its envelope. A REST
/// login sends the user and the password by basic authentication, a SOAP login in its operation.
pub proof fn law_messages_are_written(
    plain: &str,
    escaped: String,
    operation: &str,
    message: String,
    entry: &VcenterEntry,
    password: String,
    rest: HttpRequest,
    typed: &str,
    soap: HttpRequest,
)
    requires
        call_ensures(request::xml_escape, (plain,), escaped),
        call_ensures(request::soap_envelope, (operation,), message),
        call_ensures(request::rest_login_request, (entry, password), rest),
        call_ensures(request::soap_login_request, (entry, typed), soap),
    ensures
        request::unescaped(escaped@) == plain@,
        message@ == request::envelope(operation@),
        rest.method == HttpMethod::Post && rest.url@ == "https://"@ + entry.host@ + "/api/session"@,
        rest@.basic_auth == Some((entry.username@, password@)),
        rest@.headers.len() == 0 && rest.body is None && rest.timeout is None,
        soap@ == request::soap_request_view(
            "https://"@ + entry.host@,
            None,
            request::login_operation(entry.username@, typed@),
        ),
{
    request::law_escaped_text_reads_back(plain@);
}

} // verus!
