//! What the values of the library say: what they hold, whole and unchanged.

use crate::call::{Next, Question};
use crate::clock;
use crate::config;
use crate::config::{Config, VcenterEntry};
use crate::http;
use crate::ids;
use crate::json;
use crate::listener::ServerStatus;
use crate::request;
use crate::request::HttpRequest;
use crate::server;
use crate::server::{
    Admission, AdmissionView, Caller, HelperError, ProxyRequest, SoapRequest, StatusDetails,
    StatusDetailsView, StatusReply, UpstreamReply, VcenterSummary,
};
use crate::session;
use crate::session::{Readiness, ReadinessView};
use crate::settings::{
    GeneralSettings, ListedVcenterView, PasswordAction, PasswordActionView, Settings, VcenterChange,
};
use crate::soap;
use crate::text;
use crate::vcenter;
use crate::vcenter::{Upstream, VcError};
use vstd::prelude::*;

verus! {

/// A text that may be absent, and a list of texts, say what is in them.
pub proof fn law_texts_say_what_they_hold(some: String, borrowed: &str, texts: Seq<String>, i: int)
    requires
        0 <= i < texts.len(),
    ensures
        text::option_view(Some(some)) == Some(some@),
        text::option_view(None) is None,
        session::borrowed_view(Some(borrowed)) == Some(borrowed@),
        session::borrowed_view(None) is None,
        text::texts_view(texts).len() == texts.len(),
        text::texts_view(texts)[i] == texts[i]@,
{
}

/// Headers say their bytes, and lists of headers their names and values, each in its place.
pub proof fn law_headers_say_what_they_hold(
    value: Vec<u8>,
    values: Seq<Vec<u8>>,
    sent: Seq<(String, String)>,
    answered: Seq<(&'static str, String)>,
    sendable: Seq<char>,
)
    ensures
        http::header_bytes(Some(value)) == Some(value@),
        http::header_bytes(None) is None,
        vcenter::header_list(values) =~= Seq::new(values.len(), |i: int| values[i]@),
        request::headers_view(sent) =~= Seq::new(sent.len(), |i: int| (sent[i].0@, sent[i].1@)),
        server::named_headers(answered) =~= Seq::new(
            answered.len(),
            |i: int| (answered[i].0@, answered[i].1@),
        ),
        http::can_be_header(sendable) <==> forall|i: int|
            0 <= i < vstd::utf8::encode_utf8(sendable).len() ==> {
                let b = #[trigger] vstd::utf8::encode_utf8(sendable)[i];
                b == 9 || b >= 32 && b != 127
            },
{
    let bytes = vstd::utf8::encode_utf8(sendable);
    if http::can_be_header(sendable) {
        assert forall|i: int| 0 <= i < bytes.len() implies {
            let b = #[trigger] bytes[i];
            b == 9 || b >= 32 && b != 127
        } by {
            assert(http::is_header_byte(bytes[i]));
        }
    }
}

/// Entries and settings say every field of theirs, and lists of entries each in its place.
pub proof fn law_settings_say_what_they_hold(
    entry: VcenterEntry,
    entries: Seq<VcenterEntry>,
    config: Config,
    general: GeneralSettings,
    status: ServerStatus,
)
    ensures
        entry@.id == entry.id@ && entry@.name == entry.name@ && entry@.host == entry.host@,
        entry@.username == entry.username@,
        entry@.accept_invalid_certs == entry.accept_invalid_certs,
        ids::entries_view(entries) =~= Seq::new(entries.len(), |i: int| entries[i]@),
        config@.vcenters == ids::entries_view(config.vcenters@),
        config@.port == config.port && config@.allow_local_files == config.allow_local_files,
        config@.allowed_origins == text::texts_view(config.allowed_origins@),
        config@.vcenter_host == text::option_view(config.vcenter_host),
        config@.username == text::option_view(config.username),
        config@.accept_invalid_certs == config.accept_invalid_certs,
        general@.port == general.port,
        general@.allow_local_files == general.allow_local_files,
        general@.allowed_origins == text::texts_view(general.allowed_origins@),
        status@.listening == status.listening && status@.port == status.port,
        status@.error == text::option_view(status.error),
{
}

/// A change of the vCenters says what it is about, what it saves and what it deletes.
pub proof fn law_changes_say_what_they_hold(change: VcenterChange)
    ensures
        change@.id == change.id@,
        change@.password == change.password@,
        change@.config == change.config@,
        change@.retired == text::option_view(change.retired),
{
}

/// What is decided says what it decides, with all that goes with it.
pub proof fn law_decisions_say_what_they_hold(
    error: HelperError,
    caller: Caller,
    origin: Option<String>,
    status: u16,
    account: String,
    other: String,
)
    ensures
        Admission::Refused(error)@ == AdmissionView::Refused(error@),
        Admission::Handled(caller)@ == AdmissionView::Handled(caller@),
        Admission::Preflight(status, origin)@ == AdmissionView::Preflight(
            status,
            text::option_view(origin),
        ),
        PasswordAction::Keep@ is Keep,
        PasswordAction::Store(account, other)@ == PasswordActionView::Store(account@, other@),
        PasswordAction::CarryOver(account, other)@ == PasswordActionView::CarryOver(
            account@,
            other@,
        ),
        Readiness::NeedsClient@ is NeedsClient,
        Readiness::NeedsLogin@ is NeedsLogin,
        Readiness::Ready(account)@ == ReadinessView::Ready(account@),
        Next::Finish@ is Finish,
{
}

/// What is shown in the window and told by `/status` says every field of its own, each in its
/// place.
pub proof fn law_replies_say_what_they_hold(
    settings: Settings,
    summary: VcenterSummary,
    reply: StatusReply,
    summaries: Vec<VcenterSummary>,
    capabilities: Vec<&'static str>,
    configured: bool,
)
    ensures
        settings@.port == settings.port,
        settings@.allow_local_files == settings.allow_local_files,
        settings@.allowed_origins == text::texts_view(settings.allowed_origins@),
        settings@.server == settings.server@,
        settings@.vcenters =~= Seq::new(
            settings.vcenters@.len(),
            |i: int|
                ListedVcenterView {
                    entry: settings.vcenters@[i].entry@,
                    has_password: settings.vcenters@[i].has_password,
                },
        ),
        summary@.id == summary.id@ && summary@.name == summary.name@,
        summary@.host == summary.host@ && summary@.username == summary.username@,
        reply@.helper == reply.helper@ && reply@.version == reply.version@,
        reply@.origin_allowed == reply.origin_allowed && reply@.details == reply.details@,
        StatusDetails::Granted(configured, summaries, capabilities)@ matches StatusDetailsView::Granted(
            said,
            shown,
            able,
        ) && {
            &&& said == configured
            &&& shown =~= Seq::new(summaries@.len(), |i: int| summaries@[i]@)
            &&& able =~= Seq::new(capabilities@.len(), |i: int| capabilities@[i]@)
        },
{
}

/// What the website sends, and who it is, is read as it is.
pub proof fn law_requests_say_what_they_hold(
    caller: Caller,
    rest: ProxyRequest,
    soap: SoapRequest,
    reason: String,
    verdict: &'static str,
)
    ensures
        caller@.origin == text::option_view(caller.origin) && caller@.allowed == caller.allowed,
        rest@.vcenter == text::option_view(rest.vcenter),
        rest@.method == rest.method@ && rest@.path == rest.path@,
        soap@.vcenter == text::option_view(soap.vcenter) && soap@.body == soap.body@,
        server::proxy_payload(Ok(rest)) == Ok::<_, Seq<char>>(rest@),
        server::proxy_payload(Err(reason)) == Err::<server::ProxyRequestView, _>(reason@),
        server::soap_payload(Ok(soap)) == Ok::<_, Seq<char>>(soap@),
        server::soap_payload(Err(reason)) == Err::<server::SoapRequestView, _>(reason@),
        server::verdict_view(Ok(verdict)) == Ok::<_, Seq<char>>(verdict@),
        server::verdict_view(Err(reason)) == Err::<Seq<char>, _>(reason@),
        soap::answers(Ok(verdict), Ok(verdict@)) && soap::answers(Err(reason), Err(reason@)),
{
}

/// An answer on a SOAP body is the verdict, word for word.
pub proof fn law_answers_are_the_verdict(
    answer: Result<&'static str, String>,
    operation: Seq<char>,
    reason: Seq<char>,
)
    ensures
        soap::answers(answer, Ok(operation)) <==> (answer matches Ok(got) && got@ == operation),
        soap::answers(answer, Err(reason)) <==> (answer matches Err(got) && got@ == reason),
{
}

/// Errors and answers say every field of theirs.
pub proof fn law_answers_say_what_they_hold(
    failure: VcError,
    error: HelperError,
    upstream: Upstream,
    reply: UpstreamReply,
)
    ensures
        failure@.kind == failure.kind@ && failure@.status == failure.status,
        failure@.message == failure.message@,
        error@.kind == error.kind@ && error@.status == error.status,
        error@.message == error.message@,
        upstream@.status == upstream.status && upstream@.body == upstream.body@,
        upstream@.content_type == text::option_view(upstream.content_type),
        reply@.status == reply.status && reply@.body == reply.body@,
        reply@.content_type == text::option_view(reply.content_type),
{
}

/// What is sent to a vCenter, and what is asked of it, says every field of its own.
pub proof fn law_questions_say_what_they_hold(sent: HttpRequest, question: Question)
    ensures
        sent@.method == sent.method && sent@.url == sent.url@ && sent@.timeout == sent.timeout,
        sent@.headers == request::headers_view(sent.headers@),
        sent@.body == text::option_view(sent.body),
        sent.basic_auth is None <==> sent@.basic_auth is None,
        sent.basic_auth matches Some(pair) ==> sent@.basic_auth == Some((pair.0@, pair.1@)),
        question matches Question::Rest(method, path) ==> question@
            == crate::call::QuestionView::Rest(method, path@),
        question matches Question::Soap(operation) ==> question@ == crate::call::QuestionView::Soap(
            operation@,
        ),
{
}

/// What the keychain and a reading of JSON gave is taken as it is.
pub proof fn law_readings_say_what_they_hold(text: String, reason: String)
    ensures
        vcenter::stored_view(Ok(Some(text))) == Ok::<_, Seq<char>>(Some(text@)),
        vcenter::stored_view(Ok(None)) == Ok::<_, Seq<char>>(None::<Seq<char>>),
        vcenter::stored_view(Err(reason)) == Err::<Option<Seq<char>>, _>(reason@),
        json::reading_view(Ok(text)) == Ok::<_, Seq<char>>(text@),
        json::reading_view(Err(reason)) == Err::<Seq<char>, _>(reason@),
{
}

/// A second more is a billion nanoseconds more, and a nanosecond more is one. Before the epoch it is
/// no time.
pub proof fn law_time_is_counted_in_nanoseconds(seconds: u64, nanos: u32)
    requires
        seconds < u64::MAX,
        nanos < u32::MAX,
    ensures
        clock::elapsed_nanos(Some(((seconds + 1) as u64, nanos))) == clock::elapsed_nanos(
            Some((seconds, nanos)),
        ) + 1_000_000_000,
        clock::elapsed_nanos(Some((seconds, (nanos + 1) as u32))) == clock::elapsed_nanos(
            Some((seconds, nanos)),
        ) + 1,
        clock::elapsed_nanos(Some((0, 0))) == 0,
        clock::elapsed_nanos(None) == 0,
{
}

/// A vCenter has ten seconds to take a connection, two minutes to answer and five seconds to end a
/// session. Passwords are kept under the helper's own name.
pub proof fn law_waiting_times_and_keychain_service()
    ensures
        request::CONNECT_TIMEOUT == 10,
        request::REQUEST_TIMEOUT == 120,
        request::LOGOUT_TIMEOUT == 5,
        config::KEYRING_SERVICE@ == "dbh-insights-helper"@,
        server::HELPER_ERROR_HEADER@ == "x-helper-error"@,
{
}

} // verus!
