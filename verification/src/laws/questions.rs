//! How a question to a vCenter is put, step by step, and what is read of the answers.

use crate::call::{Call, Next, Question, QuestionView};
use crate::config::VcenterEntry;
use crate::http;
use crate::json;
use crate::laws::vcenter as vcenter_laws;
use crate::probe::{ConnectionTest, TestStep};
use crate::request;
use crate::request::{HttpMethod, HttpRequest};
use crate::text;
use crate::vcenter;
use crate::vcenter::{Upstream, VcError};
use vstd::prelude::*;

verus! {

/// A question that is put is the one that was asked, to the entry that it was asked of, also where
/// it is put again. What failed where it cannot be sent is told by the API.
pub proof fn law_questions_stay_what_they_are(
    entry: VcenterEntry,
    question: Question,
    call: Call,
    asked_of: &VcenterEntry,
    asked: &Question,
    context: &'static str,
    credential: String,
    answer: &Upstream,
    again: Call,
    stale: String,
    asked_again_of: &VcenterEntry,
    asked_again: &Question,
    last: Next,
)
    requires
        call_ensures(Call::start, (entry, question), Ok(call)),
        call_ensures(Call::entry, (&call,), asked_of),
        call_ensures(Call::question, (&call,), asked),
        call_ensures(Call::context, (&call,), context),
        call_ensures(Call::answered, (call, credential, answer), Next::Again(again, stale)),
        call_ensures(Call::entry, (&again,), asked_again_of),
        call_ensures(Call::question, (&again,), asked_again),
        call_ensures(Call::answered, (again, credential, answer), last),
    ensures
        asked_of@ == entry@ && asked_again_of@ == entry@,
        asked@ == question@ && asked_again@ == question@,
        context@ == (match question {
            Question::Rest(_, _) => "vCenter request failed"@,
            Question::Soap(_) => "vCenter SOAP request failed"@,
        }),
        stale@ == credential@,
        last is Finish,
{
}

/// A connection test first drops the sessions of its vCenter, whose id it names, and then asks for
/// the version by GET.
pub proof fn law_tests_begin_with_rest(
    entry: VcenterEntry,
    test: ConnectionTest,
    unread: Option<Result<Upstream, VcError>>,
    begun: ConnectionTest,
    id: String,
    asks_rest: TestStep,
)
    requires
        call_ensures(ConnectionTest::new, (entry,), test),
        call_ensures(ConnectionTest::step, (test, unread), TestStep::Forget(begun, id)),
        call_ensures(ConnectionTest::step, (begun, None), asks_rest),
    ensures
        id@ == entry.id@,
        asks_rest !is Forget,
        asks_rest matches TestStep::Done(r) ==> {
            &&& entry.host@.len() == 0 || entry.username@.len() == 0
            &&& r matches Err(error) && error.kind@ == "not_configured"@
        },
        asks_rest matches TestStep::Ask(_, call) ==> {
            &&& entry.host@.len() > 0 && entry.username@.len() > 0
            &&& call@.entry == entry@ && !call@.retried
            &&& call@.question == QuestionView::Rest(
                HttpMethod::Get,
                "/api/appliance/system/version"@,
            )
        },
{
}

/// What the REST part of a connection test says, by the status and the body of the answer.
pub proof fn law_rest_tests_are_read(upstream: &Upstream, r: Result<String, VcError>)
    requires
        call_ensures(vcenter::test_rest, (upstream,), r),
    ensures
        r is Err <==> upstream.status == 401,
        r matches Err(error) ==> error.kind@ == "vcenter_auth_failed"@ && error.message@
            == "vCenter accepted the login but rejected the session."@,
        upstream.status == 200 ==> {
            let version = json::json_text(upstream.body@, "version"@);
            let build = json::json_text(upstream.body@, "build"@);
            r->Ok_0@ == "Connected to vCenter "@ + (if version is Some {
                version->0
            } else {
                "?"@
            }) + " (build "@ + (if build is Some {
                build->0
            } else {
                "?"@
            }) + ")"@
        },
        upstream.status != 200 && upstream.status != 401 ==> r->Ok_0@ == "Signed in to vCenter"@,
{
    vcenter_laws::law_rest_test_tells_the_version(upstream@);
}

/// What both parts of a connection test say, by the status of the SOAP answer.
pub proof fn law_soap_tests_are_read(rest: String, soap: &Upstream, r: Result<String, VcError>)
    requires
        call_ensures(vcenter::test_soap, (rest, soap), r),
    ensures
        r is Ok <==> 200 <= soap.status <= 299,
        r matches Ok(message) ==> message@ == rest@ + ". REST and SOAP OK."@,
        r matches Err(error) ==> error.kind@ == "vcenter_unreachable"@ && error.message@ == rest@
            + ", but the SOAP API returned HTTP "@ + text::decimal(soap.status as nat) + "."@,
{
    vcenter_laws::law_soap_test_tells_both(rest@, soap.status);
}

/// A connection test goes on to SOAP where REST went well. The first failure ends it, as it is.
pub proof fn law_tests_go_on_where_rest_went_well(
    entry: VcenterEntry,
    test: ConnectionTest,
    begun: ConnectionTest,
    id: String,
    upstream: Upstream,
    said: Result<String, VcError>,
    asks_soap: TestStep,
    failure: VcError,
    failed: TestStep,
)
    requires
        call_ensures(ConnectionTest::new, (entry,), test),
        call_ensures(ConnectionTest::step, (test, None), TestStep::Forget(begun, id)),
        call_ensures(vcenter::test_rest, (&upstream,), said),
        call_ensures(ConnectionTest::step, (begun, Some(Ok(upstream))), asks_soap),
        call_ensures(ConnectionTest::step, (begun, Some(Err(failure))), failed),
        entry.host@.len() > 0,
        entry.username@.len() > 0,
    ensures
        failed matches TestStep::Done(Err(error)) && error@ == failure@,
        said matches Err(error) ==> (asks_soap matches TestStep::Done(Err(told)) && told@ == error@),
        said is Ok ==> (asks_soap matches TestStep::Ask(_, call) && call@.entry == entry@
            && !call@.retried && call@.question == QuestionView::Soap(
            "<vim25:RetrieveServiceContent><vim25:_this type=\"ServiceInstance\">ServiceInstance</vim25:_this></vim25:RetrieveServiceContent>"@,
        )),
{
}

/// A connection test that has asked SOAP ends with what both APIs said.
pub proof fn law_tests_end_with_what_both_said(
    entry: VcenterEntry,
    test: ConnectionTest,
    begun: ConnectionTest,
    id: String,
    upstream: Upstream,
    said: String,
    asked: ConnectionTest,
    call: Call,
    soap: Upstream,
    both: Result<String, VcError>,
    done: TestStep,
    failure: VcError,
    failed: TestStep,
)
    requires
        call_ensures(ConnectionTest::new, (entry,), test),
        call_ensures(ConnectionTest::step, (test, None), TestStep::Forget(begun, id)),
        call_ensures(vcenter::test_rest, (&upstream,), Ok(said)),
        call_ensures(ConnectionTest::step, (begun, Some(Ok(upstream))), TestStep::Ask(asked, call)),
        call_ensures(vcenter::test_soap, (said, &soap), both),
        call_ensures(ConnectionTest::step, (asked, Some(Ok(soap))), done),
        call_ensures(ConnectionTest::step, (asked, Some(Err(failure))), failed),
    ensures
        both matches Ok(message) ==> (done matches TestStep::Done(Ok(told)) && told@ == message@),
        both matches Err(error) ==> (done matches TestStep::Done(Err(told)) && told@ == error@),
        failed matches TestStep::Done(Err(error)) && error@ == failure@,
{
}

/// An answer is read as it came: its status, its body, and its content type where that is text.
pub proof fn law_answers_are_read_as_they_came(
    status: u16,
    content_type: &Option<Vec<u8>>,
    body: Vec<u8>,
    upstream: Upstream,
)
    requires
        call_ensures(Upstream::read, (status, content_type, body), upstream),
    ensures
        upstream.status == status,
        upstream.body@ == body@,
        content_type is None ==> upstream.content_type is None,
        content_type matches Some(bytes) ==> text::option_view(upstream.content_type)
            == http::header_text(bytes@),
{
}

/// Each kind of error has its own name and status, and keeps the message.
pub proof fn law_errors_are_made_of_their_message(
    message: String,
    not_configured: VcError,
    auth: VcError,
    network: VcError,
)
    requires
        call_ensures(VcError::not_configured, (message,), not_configured),
        call_ensures(VcError::auth, (message,), auth),
        call_ensures(VcError::network, (message,), network),
    ensures
        not_configured.kind@ == "not_configured"@ && not_configured.status == 409,
        auth.kind@ == "vcenter_auth_failed"@ && auth.status == 502,
        network.kind@ == "vcenter_unreachable"@ && network.status == 502,
        not_configured.message@ == message@,
        auth.message@ == message@,
        network.message@ == message@,
{
}

/// An entry is complete exactly where it has a host and a user, and is reported by its name where
/// not.
pub proof fn law_incomplete_entries_are_reported(entry: &VcenterEntry, r: Result<(), VcError>)
    requires
        call_ensures(vcenter::require_complete, (entry,), r),
    ensures
        r is Ok <==> entry.host@.len() > 0 && entry.username@.len() > 0,
        r matches Err(error) ==> error.kind@ == "not_configured"@ && error.message@ == "vCenter \""@
            + entry.name@ + "\""@
            + " is missing its address or username. Fix it in the DBH Insights Helper window."@,
{
    vcenter_laws::law_entries_without_host_or_user_are_reported(entry@);
}

/// A REST login is refused exactly with a status outside 200 to 299.
pub proof fn law_rest_logins_are_checked(
    entry: &VcenterEntry,
    status: u16,
    r: Result<(), VcError>,
)
    requires
        call_ensures(vcenter::check_rest_login, (entry, status), r),
    ensures
        r is Ok <==> 200 <= status <= 299,
        r matches Err(error) ==> (error.kind@ == "vcenter_auth_failed"@ <==> status == 401),
        status == 401 ==> r->Err_0.message@ == "vCenter \""@ + entry.name@ + "\""@
            + " rejected the username or password."@,
        status == 404 ==> r->Err_0.message@
            == "vCenter has no /api/session endpoint. vCenter 7.0 U2 or later is required."@,
{
    vcenter_laws::law_rest_login_gives_the_token(entry@, status, seq![]);
    reveal_strlit("vcenter_auth_failed");
    reveal_strlit("vcenter_unreachable");
    assert("vcenter_auth_failed"@.last() == 'd');
    assert("vcenter_unreachable"@.last() == 'e');
}

/// The token of a login is the text that was read, and the reason is told where none could be.
pub proof fn law_tokens_are_what_was_read(
    reading: Result<String, String>,
    r: Result<String, VcError>,
)
    requires
        call_ensures(vcenter::login_token, (reading,), r),
    ensures
        r is Ok <==> reading is Ok,
        r matches Ok(token) ==> token@ == reading->Ok_0@,
        r matches Err(error) ==> error.kind@ == "vcenter_unreachable"@ && error.message@
            == "Unexpected login response from vCenter: error decoding response body → "@
            + reading->Err_0@,
{
}

/// The message on a connection names the version and the build, and a question mark for what is not
/// known.
pub proof fn law_versions_are_told(
    version: String,
    build: String,
    both: String,
    first: String,
    second: String,
    neither: String,
)
    requires
        call_ensures(vcenter::connected_message, (Some(version), Some(build)), both),
        call_ensures(vcenter::connected_message, (Some(version), None), first),
        call_ensures(vcenter::connected_message, (None, Some(build)), second),
        call_ensures(vcenter::connected_message, (None, None), neither),
    ensures
        both@ == "Connected to vCenter "@ + version@ + " (build "@ + build@ + ")"@,
        first@ == "Connected to vCenter "@ + version@ + " (build "@ + "?"@ + ")"@,
        second@ == "Connected to vCenter "@ + "?"@ + " (build "@ + build@ + ")"@,
        neither@ == "Connected to vCenter "@ + "?"@ + " (build "@ + "?"@ + ")"@,
{
}

/// A REST request has the method and the address that it was given, and names its session. A SOAP
/// request is posted to the vCenter's `/sdk` with the operation in an envelope, and names its
/// session where it has one.
pub proof fn law_requests_are_made_as_given(
    method: HttpMethod,
    url: String,
    token: &str,
    rest: HttpRequest,
    base_url: String,
    cookie: String,
    operation: &str,
    within: HttpRequest,
    without: HttpRequest,
)
    requires
        call_ensures(request::rest_request, (method, url, token), rest),
        call_ensures(request::soap_request, (base_url, Some(cookie), operation), within),
        call_ensures(request::soap_request, (base_url, None, operation), without),
    ensures
        rest.method == method && rest.url@ == url@ && rest.body is None && rest.timeout is None,
        rest@.headers == seq![("vmware-api-session-id"@, token@)] && rest@.basic_auth is None,
        within.method == HttpMethod::Post && without.method == HttpMethod::Post,
        within.url@ == base_url@ + "/sdk"@ && without.url@ == base_url@ + "/sdk"@,
        within.body matches Some(body) && body@ == request::envelope(operation@),
        without.body matches Some(body) && body@ == request::envelope(operation@),
        within@.headers == without@.headers.push(("Cookie"@, cookie@)),
        within.timeout is None && without.timeout is None,
        within@.basic_auth is None && without@.basic_auth is None,
{
}

} // verus!
