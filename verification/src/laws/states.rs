//! What the operations that change a state do to it, one after another.

use crate::config;
use crate::config::VcenterEntry;
use crate::listener::{Listener, ServerStatus};
use crate::request;
use crate::request::{HttpMethod, HttpRequest};
use crate::session;
use crate::session::{Readiness, Session, VCenter};
use crate::text;
use vstd::prelude::*;

verus! {

/// A session that was just connected and took a REST token is asked with that token, until it is
/// said to have expired.
pub proof fn law_rest_token_is_used_until_it_expires<C>(
    made: &mut Session<C>,
    entry: &VcenterEntry,
    client: C,
    opened: &mut Session<C>,
    token: String,
    asked: &mut Session<C>,
    stale: Option<&str>,
    r: Readiness,
)
    requires
        call_ensures(Session::<C>::set_client, (made, entry, client), ()),
        *old(opened) == *final(made),
        call_ensures(Session::<C>::set_rest_token, (opened, token), ()),
        *old(asked) == *final(opened),
        call_ensures(Session::<C>::rest_session, (asked, entry, stale), r),
    ensures
        stale is Some && stale->0@ == token@ ==> r is NeedsLogin,
        !(stale is Some && stale->0@ == token@) ==> (r matches Readiness::Ready(credential)
            && credential@ == token@),
{
}

/// A session that was just connected and took a SOAP cookie is asked with that cookie, until it is
/// said to have expired.
pub proof fn law_soap_cookie_is_used_until_it_expires<C>(
    made: &mut Session<C>,
    entry: &VcenterEntry,
    client: C,
    opened: &mut Session<C>,
    cookie: String,
    asked: &mut Session<C>,
    stale: Option<&str>,
    r: Readiness,
)
    requires
        call_ensures(Session::<C>::set_client, (made, entry, client), ()),
        *old(opened) == *final(made),
        call_ensures(Session::<C>::set_soap_cookie, (opened, cookie), ()),
        *old(asked) == *final(opened),
        call_ensures(Session::<C>::soap_session, (asked, entry, stale), r),
    ensures
        stale is Some && stale->0@ == cookie@ ==> r is NeedsLogin,
        !(stale is Some && stale->0@ == cookie@) ==> (r matches Readiness::Ready(credential)
            && credential@ == cookie@),
{
}

/// What becomes of the REST session is nothing to the SOAP session: its cookie is used as before.
pub proof fn law_rest_leaves_soap_alone<C>(
    made: &mut Session<C>,
    entry: &VcenterEntry,
    client: C,
    opened: &mut Session<C>,
    cookie: String,
    logged_in: &mut Session<C>,
    token: String,
    asked: &mut Session<C>,
    stale: Option<&str>,
    first: Readiness,
    asked_again: &mut Session<C>,
    second: Readiness,
)
    requires
        call_ensures(Session::<C>::set_client, (made, entry, client), ()),
        *old(opened) == *final(made),
        call_ensures(Session::<C>::set_soap_cookie, (opened, cookie), ()),
        *old(logged_in) == *final(opened),
        call_ensures(Session::<C>::set_rest_token, (logged_in, token), ()),
        *old(asked) == *final(logged_in),
        call_ensures(Session::<C>::rest_session, (asked, entry, stale), first),
        *old(asked_again) == *final(asked),
        call_ensures(Session::<C>::soap_session, (asked_again, entry, None::<&str>), second),
    ensures
        second matches Readiness::Ready(credential) && credential@ == cookie@,
{
}

/// What becomes of the SOAP session is nothing to the REST session: its token is used as before.
pub proof fn law_soap_leaves_rest_alone<C>(
    made: &mut Session<C>,
    entry: &VcenterEntry,
    client: C,
    opened: &mut Session<C>,
    token: String,
    logged_in: &mut Session<C>,
    cookie: String,
    asked: &mut Session<C>,
    stale: Option<&str>,
    first: Readiness,
    asked_again: &mut Session<C>,
    second: Readiness,
)
    requires
        call_ensures(Session::<C>::set_client, (made, entry, client), ()),
        *old(opened) == *final(made),
        call_ensures(Session::<C>::set_rest_token, (opened, token), ()),
        *old(logged_in) == *final(opened),
        call_ensures(Session::<C>::set_soap_cookie, (logged_in, cookie), ()),
        *old(asked) == *final(logged_in),
        call_ensures(Session::<C>::soap_session, (asked, entry, stale), first),
        *old(asked_again) == *final(asked),
        call_ensures(Session::<C>::rest_session, (asked_again, entry, None::<&str>), second),
    ensures
        second matches Readiness::Ready(credential) && credential@ == token@,
{
}

/// A new client is the one that is used from then on, and neither of its sessions is open yet,
/// whatever was open before.
pub proof fn law_new_clients_log_in<C>(
    made: &mut Session<C>,
    entry: &VcenterEntry,
    client: C,
    used: Option<&C>,
    asked: &mut Session<C>,
    stale: Option<&str>,
    rest: Readiness,
    asked_again: &mut Session<C>,
    soap: Readiness,
)
    requires
        call_ensures(Session::<C>::set_client, (made, entry, client), ()),
        call_ensures(Session::<C>::client, (&*final(made),), used),
        *old(asked) == *final(made),
        call_ensures(Session::<C>::rest_session, (asked, entry, stale), rest),
        *old(asked_again) == *final(made),
        call_ensures(Session::<C>::soap_session, (asked_again, entry, stale), soap),
    ensures
        used is Some && *used->0 == client,
        rest is NeedsLogin,
        soap is NeedsLogin,
{
}

/// A vCenter that was not asked yet needs a client, for either of its APIs. There is nothing to log
/// out of.
pub proof fn law_nothing_is_open_at_first<C>(
    fresh: Session<C>,
    used: Option<&C>,
    asked: &mut Session<C>,
    entry: &VcenterEntry,
    stale: Option<&str>,
    rest: Readiness,
    asked_again: &mut Session<C>,
    soap: Readiness,
    ended: Option<(C, Vec<HttpRequest>)>,
)
    requires
        call_ensures(Session::<C>::new, (), fresh),
        call_ensures(Session::<C>::client, (&fresh,), used),
        *old(asked) == fresh,
        call_ensures(Session::<C>::rest_session, (asked, entry, stale), rest),
        *old(asked_again) == fresh,
        call_ensures(Session::<C>::soap_session, (asked_again, entry, stale), soap),
        call_ensures(Session::<C>::logout, (fresh,), ended),
    ensures
        used is None,
        rest is NeedsClient,
        soap is NeedsClient,
        ended is None,
{
}

/// Another host, another user or another choice on certificates needs another client. Asking for
/// one leaves the sessions as they are, and another name or id changes nothing.
pub proof fn law_clients_serve_one_connection<C>(
    made: &mut Session<C>,
    entry: &VcenterEntry,
    client: C,
    opened: &mut Session<C>,
    token: String,
    asked: &mut Session<C>,
    other: &VcenterEntry,
    rest: Readiness,
    asked_again: &mut Session<C>,
    again: Readiness,
)
    requires
        call_ensures(Session::<C>::set_client, (made, entry, client), ()),
        *old(opened) == *final(made),
        call_ensures(Session::<C>::set_rest_token, (opened, token), ()),
        *old(asked) == *final(opened),
        call_ensures(Session::<C>::rest_session, (asked, other, None::<&str>), rest),
        *old(asked_again) == *final(asked),
        call_ensures(Session::<C>::rest_session, (asked_again, entry, None::<&str>), again),
        !entry.host@.contains('|'),
        !other.host@.contains('|'),
    ensures
        rest is NeedsClient <==> {
            ||| entry.host@ != other.host@
            ||| entry.username@ != other.username@
            ||| entry.accept_invalid_certs != other.accept_invalid_certs
        },
        again matches Readiness::Ready(credential) && credential@ == token@,
{
    if entry@.connection_fingerprint() == other@.connection_fingerprint() {
        config::law_fingerprint_tells_connections_apart(entry@, other@);
    }
}

/// Another host, another user or another choice on certificates needs another client for SOAP too.
/// Asking for one leaves the SOAP session as it is.
pub proof fn law_clients_serve_one_connection_to_soap<C>(
    made: &mut Session<C>,
    entry: &VcenterEntry,
    client: C,
    opened: &mut Session<C>,
    cookie: String,
    asked: &mut Session<C>,
    other: &VcenterEntry,
    soap: Readiness,
    asked_again: &mut Session<C>,
    again: Readiness,
)
    requires
        call_ensures(Session::<C>::set_client, (made, entry, client), ()),
        *old(opened) == *final(made),
        call_ensures(Session::<C>::set_soap_cookie, (opened, cookie), ()),
        *old(asked) == *final(opened),
        call_ensures(Session::<C>::soap_session, (asked, other, None::<&str>), soap),
        *old(asked_again) == *final(asked),
        call_ensures(Session::<C>::soap_session, (asked_again, entry, None::<&str>), again),
        !entry.host@.contains('|'),
        !other.host@.contains('|'),
    ensures
        soap is NeedsClient <==> {
            ||| entry.host@ != other.host@
            ||| entry.username@ != other.username@
            ||| entry.accept_invalid_certs != other.accept_invalid_certs
        },
        again matches Readiness::Ready(credential) && credential@ == cookie@,
{
    if entry@.connection_fingerprint() == other@.connection_fingerprint() {
        config::law_fingerprint_tells_connections_apart(entry@, other@);
    }
}

/// Logging out ends both sessions with the client that opened them: the REST session by deleting it
/// at the vCenter, the SOAP session by a logout in an envelope, each named by its own credential.
/// Neither is waited for longer than five seconds.
pub proof fn law_logging_out_ends_both_sessions<C>(
    made: &mut Session<C>,
    entry: &VcenterEntry,
    client: C,
    opened: &mut Session<C>,
    token: String,
    logged_in: &mut Session<C>,
    cookie: String,
    ended: Option<(C, Vec<HttpRequest>)>,
)
    requires
        call_ensures(Session::<C>::set_client, (made, entry, client), ()),
        *old(opened) == *final(made),
        call_ensures(Session::<C>::set_rest_token, (opened, token), ()),
        *old(logged_in) == *final(opened),
        call_ensures(Session::<C>::set_soap_cookie, (logged_in, cookie), ()),
        call_ensures(Session::<C>::logout, (*final(logged_in),), ended),
    ensures
        ended matches Some((used, requests)) && {
            let (rest, soap) = (requests@[0], requests@[1]);
            &&& used == client
            &&& requests@.len() == 2
            &&& rest.method == HttpMethod::Delete
            &&& rest.url@ == "https://"@ + entry.host@ + "/api/session"@
            &&& rest@.headers == seq![("vmware-api-session-id"@, token@)]
            &&& rest.body is None
            &&& rest.timeout == Some(5u64)
            &&& soap.method == HttpMethod::Post
            &&& soap.url@ == "https://"@ + entry.host@ + "/sdk"@
            &&& soap@.headers.last() == ("Cookie"@, cookie@)
            &&& soap.body matches Some(body) && body@ == request::envelope(
                "<vim25:Logout><vim25:_this type=\"SessionManager\">SessionManager</vim25:_this></vim25:Logout>"@,
            )
            &&& soap.timeout == Some(5u64)
        },
{
    let (used, requests) = ended->0;
    let views = session::requests_view(requests@);
    assert(views.len() == requests@.len());
    assert(views[0] == requests@[0]@);
    assert(views[1] == requests@[1]@);
}

/// Where no session was opened, none is ended.
pub proof fn law_unopened_sessions_are_not_ended<C>(
    made: &mut Session<C>,
    entry: &VcenterEntry,
    client: C,
    ended: Option<(C, Vec<HttpRequest>)>,
)
    requires
        call_ensures(Session::<C>::set_client, (made, entry, client), ()),
        call_ensures(Session::<C>::logout, (*final(made),), ended),
    ensures
        ended matches Some((used, requests)) && used == client && requests@.len() == 0,
{
    assert(session::requests_view((ended->0).1@).len() == (ended->0).1@.len());
}

/// A vCenter has one slot: the first that is put there stays, whatever else is offered, and those of
/// the others are their own.
pub proof fn law_every_vcenter_has_its_slot<S>(
    none: VCenter<S>,
    first: &mut VCenter<S>,
    id: &str,
    fresh: S,
    given: &S,
    second: &mut VCenter<S>,
    other_id: &str,
    other_fresh: S,
    other_given: &S,
    third: &mut VCenter<S>,
    ignored: S,
    given_again: &S,
)
    requires
        call_ensures(VCenter::<S>::new, (), none),
        *old(first) == none,
        call_ensures(VCenter::<S>::slot, (first, id, fresh), given),
        *old(second) == *final(first),
        call_ensures(VCenter::<S>::slot, (second, other_id, other_fresh), other_given),
        *old(third) == *final(second),
        call_ensures(VCenter::<S>::slot, (third, id, ignored), given_again),
    ensures
        *given == fresh,
        *given_again == fresh,
        id@ != other_id@ ==> *other_given == other_fresh,
        id@ == other_id@ ==> *other_given == fresh,
{
}

/// Forgetting a vCenter hands its slot out, once, and leaves those of the others. It can have
/// another afterwards.
pub proof fn law_forgotten_vcenters_lose_their_slot<S>(
    table: VCenter<S>,
    first: &mut VCenter<S>,
    id: &str,
    taken: Option<S>,
    second: &mut VCenter<S>,
    taken_again: Option<S>,
    third: &mut VCenter<S>,
    fresh: S,
    given: &S,
    other: Seq<char>,
)
    requires
        table.is_valid(),
        *old(first) == table,
        call_ensures(VCenter::<S>::forget, (first, id), taken),
        *old(second) == *final(first),
        call_ensures(VCenter::<S>::forget, (second, id), taken_again),
        *old(third) == *final(second),
        call_ensures(VCenter::<S>::slot, (third, id, fresh), given),
        other != id@,
    ensures
        taken is Some <==> table@.contains_key(id@),
        taken matches Some(slot) ==> slot == table@[id@],
        taken_again is None,
        *given == fresh,
        final(third)@.contains_key(other) <==> table@.contains_key(other),
        table@.contains_key(other) ==> final(third)@[other] == table@[other],
{
}

/// Quitting hands out the slot of every vCenter, and none is left.
pub proof fn law_quitting_takes_every_slot<S>(
    table: VCenter<S>,
    all: &mut VCenter<S>,
    slots: Vec<S>,
    id: &str,
    after: &mut VCenter<S>,
    taken: Option<S>,
)
    requires
        table.is_valid(),
        *old(all) == table,
        call_ensures(VCenter::<S>::logout_all, (all,), slots),
        *old(after) == *final(all),
        call_ensures(VCenter::<S>::forget, (after, id), taken),
    ensures
        taken is None,
        slots@.len() == table@.dom().len(),
        table@.contains_key(id@) ==> slots@.contains(table@[id@]),
{
    let ids = choose|ids: Seq<Seq<char>>| #[trigger] session::are_all_slots(table@, ids, slots@);
    ids.unique_seq_to_set();
    if table@.contains_key(id@) {
        assert(ids.to_set().contains(id@));
        let i = choose|i: int| 0 <= i < ids.len() && ids[i] == id@;
        assert(slots@[i] == table@[id@]);
    }
}

/// A helper that was told its port listens nowhere. Once a server has started it listens where that
/// one was started, and a second takes its place: what stops the first is handed out then.
pub proof fn law_servers_take_each_others_place<S>(
    idle: Listener<S>,
    port: u16,
    at_first: ServerStatus,
    first: &mut Listener<S>,
    first_port: u16,
    first_stop: S,
    none: Result<Option<S>, String>,
    running: ServerStatus,
    second: &mut Listener<S>,
    second_port: u16,
    second_stop: S,
    previous: Result<Option<S>, String>,
    moved: ServerStatus,
)
    requires
        call_ensures(Listener::<S>::new, (port,), idle),
        call_ensures(Listener::<S>::status, (&idle,), at_first),
        *old(first) == idle,
        call_ensures(Listener::<S>::start, (first, first_port, Ok(first_stop)), none),
        call_ensures(Listener::<S>::status, (&*final(first),), running),
        *old(second) == *final(first),
        call_ensures(Listener::<S>::start, (second, second_port, Ok(second_stop)), previous),
        call_ensures(Listener::<S>::status, (&*final(second),), moved),
    ensures
        !at_first.listening && at_first.port == port && at_first.error is None,
        none matches Ok(stop) && stop is None,
        running.listening && running.port == first_port && running.error is None,
        previous matches Ok(stop) && stop == Some(first_stop),
        moved.listening && moved.port == second_port && moved.error is None,
{
}

/// A port that cannot be opened is reported with the reason, and leaves the server that runs: the
/// next that starts takes its place.
pub proof fn law_servers_outlive_ports_that_cannot_be_opened<S>(
    first: &mut Listener<S>,
    first_port: u16,
    first_stop: S,
    started: Result<Option<S>, String>,
    second: &mut Listener<S>,
    second_port: u16,
    reason: String,
    failed: Result<Option<S>, String>,
    status: ServerStatus,
    third: &mut Listener<S>,
    third_port: u16,
    third_stop: S,
    previous: Result<Option<S>, String>,
)
    requires
        call_ensures(Listener::<S>::start, (first, first_port, Ok(first_stop)), started),
        *old(second) == *final(first),
        call_ensures(Listener::<S>::start, (second, second_port, Err(reason)), failed),
        call_ensures(Listener::<S>::status, (&*final(second),), status),
        *old(third) == *final(second),
        call_ensures(Listener::<S>::start, (third, third_port, Ok(third_stop)), previous),
    ensures
        failed matches Err(message) && message@ == "Could not listen on 127.0.0.1:"@
            + text::decimal(second_port as nat) + ": "@ + reason@,
        status.listening && status.port == first_port && status.error is None,
        previous matches Ok(stop) && stop == Some(first_stop),
{
}

/// A server that stops by itself is reported with the reason where it is the one that runs. One that
/// another has replaced is not.
pub proof fn law_servers_that_stop_are_reported<S>(
    first: &mut Listener<S>,
    running_port: u16,
    stop: S,
    started: Result<Option<S>, String>,
    second: &mut Listener<S>,
    port: u16,
    reason: &str,
    status: ServerStatus,
)
    requires
        call_ensures(Listener::<S>::start, (first, running_port, Ok(stop)), started),
        *old(second) == *final(first),
        call_ensures(Listener::<S>::stop, (second, port, reason), ()),
        call_ensures(Listener::<S>::status, (&*final(second),), status),
    ensures
        status.port == running_port,
        status.listening <==> port != running_port,
        port != running_port ==> status.error is None,
        port == running_port ==> (status.error matches Some(error) && error@
            == "Server stopped: "@ + reason@),
{
}

/// That the first server could not be started is shown as it was reported, and nothing else changes.
pub proof fn law_failed_starts_are_shown<S>(
    before: Listener<S>,
    at_first: ServerStatus,
    failed: &mut Listener<S>,
    error: String,
    status: ServerStatus,
)
    requires
        call_ensures(Listener::<S>::status, (&before,), at_first),
        *old(failed) == before,
        call_ensures(Listener::<S>::fail, (failed, error), ()),
        call_ensures(Listener::<S>::status, (&*final(failed),), status),
    ensures
        status.listening == at_first.listening,
        status.port == at_first.port,
        status.error matches Some(shown) && shown@ == error@,
{
}

/// A status says that the server listens where it was started, and what went wrong where it was not
/// or has stopped.
pub proof fn law_statuses_follow_the_server(
    idle: ServerStatus,
    port: u16,
    started: &mut ServerStatus,
    started_port: u16,
    bound: Result<(), String>,
    r: Result<(), String>,
    stopped: &mut ServerStatus,
    stopped_port: u16,
    reason: &str,
    failed: &mut ServerStatus,
    error: String,
)
    requires
        call_ensures(ServerStatus::idle, (port,), idle),
        *old(started) == idle,
        call_ensures(ServerStatus::start, (started, started_port, bound), r),
        *old(stopped) == *final(started),
        call_ensures(ServerStatus::stop, (stopped, stopped_port, reason), ()),
        *old(failed) == *final(started),
        call_ensures(ServerStatus::fail, (failed, error), ()),
    ensures
        !idle.listening && idle.port == port && idle.error is None,
        r is Ok <==> bound is Ok,
        final(started).listening <==> bound is Ok,
        final(started).port == (if bound is Ok {
            started_port
        } else {
            port
        }),
        final(started).error is None,
        bound matches Err(reason) ==> (r matches Err(message) && message@
            == "Could not listen on 127.0.0.1:"@ + text::decimal(started_port as nat) + ": "@
            + reason@),
        final(stopped).port == final(started).port,
        final(stopped).listening <==> final(started).listening && stopped_port
            != final(started).port,
        stopped_port == final(started).port ==> (final(stopped).error matches Some(shown) && shown@
            == "Server stopped: "@ + reason@),
        stopped_port != final(started).port ==> final(stopped).error is None,
        final(failed).listening == final(started).listening,
        final(failed).port == final(started).port,
        final(failed).error matches Some(shown) && shown@ == error@,
{
}

} // verus!
