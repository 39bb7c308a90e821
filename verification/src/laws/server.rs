//! Who may use the local server, for what, and what it answers.

use crate::call::{Call, CallView, QuestionView};
use crate::config::{ConfigView, VcenterEntryView};
use crate::http;
use crate::ids;
use crate::laws::texts;
use crate::request::HttpMethod;
use crate::route;
use crate::server;
use crate::server::{
    AdmissionView, CallerView, HelperError, HelperErrorView, ProxyRequestView, SoapRequestView,
    StatusDetailsView,
};
use crate::soap;
use crate::text;
use crate::vcenter;
use crate::vcenter::{UpstreamView, VcErrorView};
use crate::xml;
use vstd::prelude::*;

verus! {

/// A host names the loopback exactly where it is 127.0.0.1 or, in any letter case, localhost, with
/// or without a port.
pub proof fn law_loopback_is_named_with_or_without_port(name: Seq<char>, port: Seq<char>)
    requires
        !port.contains(':'),
    ensures
        ({
            let named = name == "127.0.0.1"@ || text::lower(name) == "localhost"@;
            &&& server::is_loopback(name.push(':') + port) <==> named
            &&& !name.contains(':') ==> (server::is_loopback(name) <==> named)
        }),
{
    texts::law_cut_at_the_last(name, port, ':');
    if !name.contains(':') {
        texts::law_cut_at_the_last(name, name, ':');
    }
}

/// A request addressed to the loopback is answered as a preflight, with 204, exactly where its
/// method is OPTIONS. With any other method it is handled on behalf of the caller that its Origin
/// header names, or of one without an origin where there is no such header or it is not text.
pub proof fn law_only_options_is_a_preflight(
    config: ConfigView,
    method: Seq<char>,
    host: Seq<u8>,
    origin: Option<Seq<u8>>,
)
    requires
        http::header_text(host) matches Some(name) && server::is_loopback(name),
    ensures
        ({
            let named = match origin {
                Some(value) => http::header_text(value),
                None => None,
            };
            let admission = server::admission(config, method, Some(host), origin);
            &&& method == "OPTIONS"@ ==> admission == AdmissionView::Preflight(204, named)
            &&& method != "OPTIONS"@ ==> (admission matches AdmissionView::Handled(caller)
                && caller.origin == named)
        }),
{
}

/// A request without a host header, with one that is not text, or with one that does not name the
/// loopback is refused with 403, whatever its method and origin.
pub proof fn law_other_hosts_are_refused(
    config: ConfigView,
    method: Seq<char>,
    host: Option<Seq<u8>>,
    origin: Option<Seq<u8>>,
)
    requires
        host matches Some(value) ==> (http::header_text(value) matches Some(name)
            ==> !server::is_loopback(name)),
    ensures
        server::admission(config, method, host, origin) == AdmissionView::Refused(
            HelperErrorView {
                status: 403,
                kind: "forbidden_host"@,
                message: "Requests must be addressed to 127.0.0.1 or localhost."@,
            },
        ),
{
}

/// A caller without an origin is allowed, and one with an origin exactly where the settings allow
/// that origin. Either way it keeps its name.
pub proof fn law_callers_are_allowed_by_their_origin(config: ConfigView, origin: Seq<char>)
    ensures
        server::caller_of(config, None) == (CallerView { origin: None, allowed: true }),
        server::caller_of(config, Some(origin)) == (CallerView {
            origin: Some(origin),
            allowed: config.origin_allowed(origin),
        }),
{
}

/// Visible ASCII in a header is read as it stands, byte by byte. A header with anything else in it
/// is not text.
pub proof fn law_headers_are_read_byte_by_byte(value: Seq<u8>)
    ensures
        match http::header_text(value) {
            Some(text) => {
                &&& text.len() == value.len()
                &&& forall|i: int|
                    0 <= i < value.len() ==> (32 <= value[i] <= 126 || value[i] == 9) && (
                    #[trigger] text[i]) as u8 == value[i]
            },
            None => exists|i: int|
                0 <= i < value.len() && !(32 <= #[trigger] value[i] <= 126 || value[i] == 9),
        },
{
    match http::header_text(value) {
        Some(text) => {
            assert forall|i: int| 0 <= i < value.len() implies (32 <= value[i] <= 126 || value[i]
                == 9) && (#[trigger] text[i]) as u8 == value[i] by {
                assert(http::is_visible(value[i]));
            }
        },
        None => {
            let i = choose|i: int| 0 <= i < value.len() && !http::is_visible(#[trigger] value[i]);
            assert(!(32 <= value[i] <= 126 || value[i] == 9));
        },
    }
}

/// No answer is to be cached, and each says that it depends on the origin. An answer to a website
/// also lets it, and no other, read it: with the same permissions for every origin.
pub proof fn law_every_answer_has_its_headers(origin: Seq<char>)
    ensures
        server::answer_headers(None) == seq![("vary"@, "Origin"@), ("cache-control"@, "no-store"@)],
        http::can_be_header(origin) ==> server::answer_headers(Some(origin)) == seq![
            ("access-control-allow-origin"@, origin),
            ("access-control-allow-methods"@, "GET, POST, OPTIONS"@),
            ("access-control-allow-headers"@, "content-type"@),
            ("access-control-expose-headers"@, "x-helper-error"@),
            ("access-control-max-age"@, "600"@),
            ("access-control-allow-private-network"@, "true"@),
        ] + server::answer_headers(None),
        !http::can_be_header(origin) ==> server::answer_headers(Some(origin))
            == server::answer_headers(None),
{
}

/// In the answer to an allowed caller, `configured` says whether the list in that same answer has
/// anything in it. The list has each configured vCenter in its place, with its id, name, host and
/// user.
pub proof fn law_status_lists_what_is_configured(config: ConfigView, caller: CallerView)
    requires
        caller.allowed,
    ensures
        server::status_reply(config, caller).origin_allowed,
        match server::status_reply(config, caller).details {
            StatusDetailsView::Granted(configured, vcenters, capabilities) => {
                &&& configured <==> vcenters.len() > 0
                &&& vcenters.len() == config.vcenters.len()
                &&& forall|i: int|
                    0 <= i < vcenters.len() ==> {
                        let (shown, entry) = (#[trigger] vcenters[i], config.vcenters[i]);
                        &&& shown.id == entry.id && shown.name == entry.name
                        &&& shown.host == entry.host && shown.username == entry.username
                    }
                &&& capabilities == seq!["rest"@, "soap"@, "perf"@]
            },
            StatusDetailsView::Refused(_) => false,
        },
{
}

/// A caller that is not allowed is told its own origin and nothing else. Every caller is told which
/// program answers, in which version, and whether it is allowed.
pub proof fn law_status_tells_others_their_origin(config: ConfigView, caller: CallerView)
    ensures
        !caller.allowed ==> server::status_reply(config, caller).details
            == StatusDetailsView::Refused(caller.origin),
        server::status_reply(config, caller).origin_allowed == caller.allowed,
        server::status_reply(config, caller).helper == "dbh-insights-helper"@,
        server::status_reply(config, caller).version == "0.3.0"@,
{
}

/// A request that names an id is for the first vCenter that goes by it, wherever that stands in the
/// list.
pub proof fn law_vcenter_is_found_by_its_id(
    before: Seq<VcenterEntryView>,
    entry: VcenterEntryView,
    after: Seq<VcenterEntryView>,
)
    requires
        forall|i: int| 0 <= i < before.len() ==> (#[trigger] before[i]).id != entry.id,
    ensures
        server::resolution(before.push(entry) + after, Some(entry.id)) == Ok::<
            VcenterEntryView,
            HelperErrorView,
        >(entry),
        ids::first_with_id(before.push(entry) + after, entry.id) == entry,
        ids::has_id(before.push(entry) + after, entry.id),
        !ids::has_id(before, entry.id),
{
    let all = before.push(entry) + after;
    let n = before.len() as int;
    assert(all[n] == entry);
    assert forall|j: int| 0 <= j < n implies (#[trigger] all[j]).id != entry.id by {
        assert(before[j].id != entry.id);
    }
    assert(ids::is_first_with_id(all, entry.id, n));
    ids::lemma_first_with_id(all, entry.id, n);
}

/// A request that names no id is for the only vCenter there is. Without any, with several, and with
/// an id that no vCenter goes by, it is told which of these holds.
pub proof fn law_vcenter_may_be_left_out_where_it_is_the_only_one(
    vcenters: Seq<VcenterEntryView>,
    id: Seq<char>,
)
    ensures
        vcenters.len() == 1 ==> server::resolution(vcenters, None) == Ok::<
            VcenterEntryView,
            HelperErrorView,
        >(vcenters[0]),
        vcenters.len() > 1 ==> server::resolution(vcenters, None) == Err::<
            VcenterEntryView,
            HelperErrorView,
        >(
            HelperErrorView {
                status: 400,
                kind: "vcenter_required"@,
                message: "Several vCenters are configured. Add \"vcenter\": \"<id>\" to the request."@,
            },
        ),
        vcenters.len() > 0 && (forall|i: int|
            0 <= i < vcenters.len() ==> (#[trigger] vcenters[i]).id != id) ==> server::resolution(
            vcenters,
            Some(id),
        ) == Err::<VcenterEntryView, HelperErrorView>(
            HelperErrorView {
                status: 404,
                kind: "unknown_vcenter"@,
                message: "The helper has no vCenter with id \""@ + id + "\"."@,
            },
        ),
        forall|any: Option<Seq<char>>| #[trigger]
            server::resolution(Seq::<VcenterEntryView>::empty(), any) == Err::<
                VcenterEntryView,
                HelperErrorView,
            >(
                HelperErrorView {
                    status: 409,
                    kind: "not_configured"@,
                    message: "The helper has no vCenters configured. Open the DBH Insights Helper window and add one."@,
                },
            ),
{
}

/// GET, in any letter case, is the only method that reads.
pub proof fn law_get_is_the_only_method(method: Seq<char>)
    ensures
        server::is_get(method) <==> {
            &&& method.len() == 3
            &&& method[0] == 'G' || method[0] == 'g'
            &&& method[1] == 'E' || method[1] == 'e'
            &&& method[2] == 'T' || method[2] == 't'
        },
{
    reveal_strlit("get");
    let lower = text::lower(method);
    assert(lower.len() == method.len());
    if method.len() == 3 {
        let (a, b, c) = (method[0], method[1], method[2]);
        assert(lower[0] == text::lower_char(a) && lower[1] == text::lower_char(b) && lower[2]
            == text::lower_char(c));
        lemma_lower_letter(a, 'g', 'G');
        lemma_lower_letter(b, 'e', 'E');
        lemma_lower_letter(c, 't', 'T');
        if text::lower_char(a) == 'g' && text::lower_char(b) == 'e' && text::lower_char(c) == 't' {
            assert(lower =~= "get"@);
        }
    }
}

proof fn lemma_lower_letter(c: char, small: char, capital: char)
    requires
        'a' <= small <= 'z',
        small as u32 == capital as u32 + 32,
    ensures
        text::lower_char(c) == small <==> c == small || c == capital,
{
}

/// Whether a path is made of visible ASCII alone.
pub open spec fn is_visible_ascii(path: Seq<char>) -> bool {
    forall|i: int| 0 <= i < path.len() ==> '!' <= #[trigger] path[i] <= '~'
}

/// Whether a path begins, in any letter case, with `/api/` or `/rest/`.
pub open spec fn begins_as_api(path: Seq<char>) -> bool {
    "/api/"@.is_prefix_of(text::lower(path)) || "/rest/"@.is_prefix_of(text::lower(path))
}

/// Whether a path begins, in any letter case, as one of vCenter's session endpoints.
pub open spec fn begins_as_session(path: Seq<char>) -> bool {
    ||| "/api/session"@.is_prefix_of(text::lower(path))
    ||| "/rest/com/vmware/cis/session"@.is_prefix_of(text::lower(path))
}

/// Whether a path has one of the five things in it that are never let through.
pub open spec fn has_forbidden_part(path: Seq<char>) -> bool {
    ||| texts::holds(path, ".."@)
    ||| texts::holds(path, "//"@)
    ||| path.contains('\\')
    ||| path.contains('@')
    ||| path.contains('#')
}

/// A path is passed through exactly where it begins as one of the APIs and is no session endpoint,
/// decoded or where its dot segments lead, has none of the forbidden parts, and is visible ASCII as
/// it stands: what is percent-encoded in it counts as the characters that it is written with.
pub proof fn law_paths_that_are_passed_through(path: Seq<char>)
    ensures
        server::path_refusal(path) is None <==> {
            let reached = route::resolved(text::before_char(path, '?'));
            &&& begins_as_api(path) && !begins_as_session(text::percent_decoded(path))
            &&& begins_as_api(reached) && !begins_as_session(text::percent_decoded(reached))
            &&& !has_forbidden_part(path)
            &&& is_visible_ascii(path)
        },
{
    texts::law_search_finds_every_place(path, ".."@);
    texts::law_search_finds_every_place(path, "//"@);
    lemma_visible_ascii(path);
}

/// Why a path is refused is told by the first of these that holds: it leads to no API, it is a
/// session endpoint, it has a forbidden part or leads astray, or it is not visible ASCII.
pub proof fn law_paths_are_refused_for_the_first_reason(path: Seq<char>)
    ensures
        ({
            let refusal = server::path_refusal(path);
            let reached = route::resolved(text::before_char(path, '?'));
            let no_api = !begins_as_api(path);
            let session = begins_as_session(text::percent_decoded(path));
            let escape = has_forbidden_part(path) || !begins_as_api(reached) || begins_as_session(
                text::percent_decoded(reached),
            );
            &&& no_api ==> refusal == Some("Path must start with /api/ or /rest/."@)
            &&& !no_api && session ==> refusal == Some(
                "Session endpoints are managed by the helper and cannot be called directly."@,
            )
            &&& !no_api && !session && escape ==> refusal == Some(
                "Path contains characters that are not allowed."@,
            )
            &&& !no_api && !session && !escape && !is_visible_ascii(path) ==> refusal == Some(
                "Path must be URL-encoded ASCII with no spaces."@,
            )
        }),
{
    texts::law_search_finds_every_place(path, ".."@);
    texts::law_search_finds_every_place(path, "//"@);
    lemma_visible_ascii(path);
}

proof fn lemma_visible_ascii(path: Seq<char>)
    ensures
        server::is_url_text(path) <==> is_visible_ascii(path),
{
    if server::is_url_text(path) {
        assert forall|i: int| 0 <= i < path.len() implies '!' <= #[trigger] path[i] <= '~' by {
            assert(server::is_graphic(path[i]));
        }
    }
    if is_visible_ascii(path) {
        assert forall|i: int| 0 <= i < path.len() implies server::is_graphic(
            #[trigger] path[i],
        ) by {
            assert('!' <= path[i] <= '~');
        }
    }
}

/// What stands in the query of a path is passed through whatever is percent-encoded in it: a path
/// whose part before the query has neither a percent sign nor a dot segment inside is judged by how
/// it begins and by its characters alone.
pub proof fn law_queries_may_be_encoded(path: Seq<char>)
    requires
        !text::before_char(path, '?').contains('%'),
        !texts::holds(text::before_char(path, '?'), "/./"@),
    ensures
        server::path_refusal(path) is None <==> {
            &&& begins_as_api(path) && !begins_as_session(path)
            &&& !has_forbidden_part(path)
            &&& is_visible_ascii(path)
        },
{
    let part = text::before_char(path, '?');
    let query = path.skip(part.len() as int);
    texts::law_search_finds_every_place(part, "/./"@);
    texts::law_search_finds_every_place(path, ".."@);
    text::lemma_before_char_is_prefix(path, '?');
    text::lemma_before_char_has_none(path, '?');
    law_paths_that_are_passed_through(path);
    assert(path =~= part + query);
    text::lemma_decoded_prefix(part, query);
    lemma_decoded_query(query);
    lemma_session_before_the_query(part, query, text::percent_decoded(query));
    if begins_as_api(path) && !begins_as_session(path) && !text::occurs(".."@, path) {
        lemma_no_query_part(path, part);
        lemma_plain_reached(part);
    }
}

/// The part before the query begins as an API where the path does, and is no session endpoint where
/// the path is none.
proof fn lemma_no_query_part(path: Seq<char>, part: Seq<char>)
    requires
        part == text::before_char(path, '?'),
        begins_as_api(path),
        !begins_as_session(path),
        !text::occurs(".."@, path),
    ensures
        begins_as_api(part),
        !begins_as_session(part),
        !text::occurs(".."@, part),
        part.len() > 0,
        part[0] == '/',
{
    text::lemma_before_char_is_prefix(path, '?');
    text::lemma_before_char_has_none(path, '?');
    reveal_strlit("/api/");
    reveal_strlit("/rest/");
    let (lower, lower_part) = (text::lower(path), text::lower(part));
    let n = part.len() as int;
    assert(lower_part =~= lower.take(n));
    assert(n < path.len() ==> lower[n] == '?');
    if "/api/"@.is_prefix_of(lower) {
        assert(lower.len() >= 5);
        assert(lower[0] == "/api/"@[0] && lower[1] == "/api/"@[1] && lower[2] == "/api/"@[2]);
        assert(lower[3] == "/api/"@[3] && lower[4] == "/api/"@[4]);
        assert(n >= 5);
        assert(lower_part.take(5) =~= "/api/"@);
    } else {
        assert(lower.len() >= 6);
        assert(lower[0] == "/rest/"@[0] && lower[1] == "/rest/"@[1] && lower[2] == "/rest/"@[2]);
        assert(lower[3] == "/rest/"@[3] && lower[4] == "/rest/"@[4] && lower[5] == "/rest/"@[5]);
        assert(n >= 6);
        assert(lower_part.take(6) =~= "/rest/"@);
    }
    assert(lower[0] == text::lower_char(path[0]));
    if "/api/session"@.is_prefix_of(lower_part) {
        assert("/api/session"@ =~= lower.take("/api/session"@.len() as int));
    }
    if "/rest/com/vmware/cis/session"@.is_prefix_of(lower_part) {
        assert("/rest/com/vmware/cis/session"@ =~= lower.take(
            "/rest/com/vmware/cis/session"@.len() as int,
        ));
    }
    if text::occurs(".."@, part) {
        let i = choose|i: int|
            0 <= i <= part.len() - ".."@.len() && #[trigger] part.subrange(i, i + ".."@.len())
                == ".."@;
        assert(path.subrange(i, i + ".."@.len()) =~= part.subrange(i, i + ".."@.len()));
    }
}

/// A query that is decoded still begins with its question mark.
proof fn lemma_decoded_query(query: Seq<char>)
    requires
        query.len() > 0 ==> query[0] == '?',
    ensures
        query.len() == 0 ==> text::percent_decoded(query).len() == 0,
        query.len() > 0 ==> text::percent_decoded(query).len() > 0 && text::percent_decoded(
            query,
        )[0] == '?',
{
}

/// What stands behind a question mark does not decide whether a path is a session endpoint.
proof fn lemma_session_before_the_query(part: Seq<char>, query: Seq<char>, other: Seq<char>)
    requires
        query.len() > 0 ==> query[0] == '?',
        other.len() > 0 ==> other[0] == '?',
        query.len() > 0 <==> other.len() > 0,
    ensures
        begins_as_session(part + query) <==> begins_as_session(part + other),
{
    reveal_strlit("/api/session");
    reveal_strlit("/rest/com/vmware/cis/session");
    lemma_prefix_before_the_query(part, query, other, "/api/session"@);
    lemma_prefix_before_the_query(part, other, query, "/api/session"@);
    lemma_prefix_before_the_query(part, query, other, "/rest/com/vmware/cis/session"@);
    lemma_prefix_before_the_query(part, other, query, "/rest/com/vmware/cis/session"@);
}

proof fn lemma_prefix_before_the_query(
    part: Seq<char>,
    query: Seq<char>,
    other: Seq<char>,
    prefix: Seq<char>,
)
    requires
        query.len() > 0 ==> query[0] == '?',
        query.len() > 0 <==> other.len() > 0,
        !prefix.contains('?'),
    ensures
        prefix.is_prefix_of(text::lower(part + query)) ==> prefix.is_prefix_of(
            text::lower(part + other),
        ),
{
    let (x, y) = (text::lower(part + query), text::lower(part + other));
    let (n, k) = (part.len() as int, prefix.len() as int);
    if prefix.is_prefix_of(x) {
        assert(forall|i: int| 0 <= i < k ==> #[trigger] prefix[i] == x[i]);
        if k > n {
            assert(x[n] == text::lower_char(query[0]));
            assert(prefix[n] == '?');
        }
        assert(y.take(k) =~= prefix);
    }
}

/// A part with neither a percent sign nor a dot segment inside leads to where it says, or to that
/// without a dot at its end.
proof fn lemma_plain_reached(part: Seq<char>)
    requires
        !part.contains('%'),
        !text::occurs("/./"@, part),
        !text::occurs(".."@, part),
        begins_as_api(part),
        !begins_as_session(part),
        part.len() > 0,
        part[0] == '/',
    ensures
        begins_as_api(route::resolved(part)),
        !begins_as_session(text::percent_decoded(route::resolved(part))),
{
    let reached = route::resolved(part);
    route::law_plain_route_leads_where_it_says(part);
    reveal_strlit("/api/");
    reveal_strlit("/rest/");
    let (lower, lower_reached) = (text::lower(part), text::lower(reached));
    assert(lower_reached =~= lower.take(reached.len() as int));
    assert(!reached.contains('%')) by {
        if reached.contains('%') {
            let i = choose|i: int| 0 <= i < reached.len() && reached[i] == '%';
            assert(part[i] == '%');
        }
    }
    text::lemma_decoded_prefix(reached, seq![]);
    assert(reached + Seq::<char>::empty() == reached);
    if "/api/"@.is_prefix_of(lower) {
        assert(lower[4] == "/api/"@[4]);
        assert(lower[4] == text::lower_char(part[4]));
        assert(reached.len() >= 5);
        assert(lower_reached.take(5) =~= "/api/"@);
    } else {
        assert(lower[5] == "/rest/"@[5]);
        assert(lower[5] == text::lower_char(part[5]));
        assert(reached.len() >= 6);
        assert(lower_reached.take(6) =~= "/rest/"@);
    }
    if "/api/session"@.is_prefix_of(lower_reached) {
        assert("/api/session"@ =~= lower.take("/api/session"@.len() as int));
    }
    if "/rest/com/vmware/cis/session"@.is_prefix_of(lower_reached) {
        assert("/rest/com/vmware/cis/session"@ =~= lower.take(
            "/rest/com/vmware/cis/session"@.len() as int,
        ));
    }
}

/// A dot segment is one dot or two, each as it is or percent-encoded in either letter case.
pub proof fn law_dots_may_be_encoded(segment: Seq<char>)
    ensures
        route::is_single_dot(segment) <==> text::lower(segment) == "."@ || text::lower(segment)
            == "%2e"@,
        route::is_double_dot(segment) <==> {
            ||| text::lower(segment) == ".."@ || text::lower(segment) == ".%2e"@
            ||| text::lower(segment) == "%2e."@ || text::lower(segment) == "%2e%2e"@
        },
{
}

/// A dot segment inside a path leads nowhere else, and a double dot takes back the segment before
/// it.
pub proof fn law_dot_segments_lead_back(before: Seq<char>, segment: Seq<char>, after: Seq<char>)
    requires
        !segment.contains('/'),
        !route::is_single_dot(segment),
        !route::is_double_dot(segment),
    ensures
        ({
            let place = seq!['/'] + before;
            let ends = before.len() == 0 || before.last() == '/';
            &&& ends ==> route::resolved(place + "./"@ + after) == route::resolved(place + after)
            &&& ends ==> route::resolved(place + "%2e/"@ + after) == route::resolved(place + after)
            &&& ends ==> route::resolved(place + segment + "/../"@ + after) == route::resolved(
                place + after,
            )
            &&& ends ==> route::resolved(place + segment + "/%2E%2e/"@ + after) == route::resolved(
                place + after,
            )
        }),
{
    if before.len() == 0 || before.last() == '/' {
        reveal_strlit("./");
        reveal_strlit("%2e/");
        reveal_strlit("/../");
        reveal_strlit("/%2E%2e/");
        lemma_dot_is_skipped(before, seq!['.'], after);
        lemma_dot_is_skipped(before, seq!['%', '2', 'e'], after);
        lemma_segment_is_taken_back(before, segment, seq!['.', '.'], after);
        lemma_segment_is_taken_back(before, segment, seq!['%', '2', 'E', '%', '2', 'e'], after);
        let place = seq!['/'] + before;
        assert(place + "./"@ + after =~= place + (seq!['.'].push('/') + after));
        assert(place + "%2e/"@ + after =~= place + (seq!['%', '2', 'e'].push('/') + after));
        assert(place + segment + "/../"@ + after =~= place + (segment.push('/') + (seq!['.', '.'].push(
            '/',
        ) + after)));
        assert(place + segment + "/%2E%2e/"@ + after =~= place + (segment.push('/') + (seq![
            '%',
            '2',
            'E',
            '%',
            '2',
            'e',
        ].push('/') + after)));
    }
}

/// Following a path goes on from where its beginning led.
proof fn lemma_followed_in_two(place: Seq<char>, head: Seq<char>, tail: Seq<char>)
    requires
        place.len() > 0,
        place[0] == '/',
        place.last() == '/',
        head.len() > 0 ==> head.last() == '/',
    ensures
        route::followed(place, head + tail) == route::followed(route::followed(place, head), tail),
        route::followed(place, head).len() > 0,
        route::followed(place, head)[0] == '/',
        route::followed(place, head).last() == '/',
    decreases head.len(),
{
    if head.len() == 0 {
        assert(head + tail == tail);
        lemma_nothing_is_followed(place, head);
    } else {
        let first = text::before_char(head, '/');
        let k = first.len() as int;
        text::lemma_before_char_has_none(head, '/');
        text::lemma_before_char_is_prefix(head, '/');
        if k >= head.len() {
            assert(first =~= head);
            assert(head.contains(head[head.len() - 1]));
        }
        let rest = head.skip(k + 1);
        let whole = head + tail;
        assert(whole =~= first + (seq!['/'] + rest + tail));
        text::lemma_before_char(first, seq!['/'] + rest + tail, '/');
        assert(whole.skip(k + 1) =~= rest + tail);
        let next = if route::is_single_dot(first) {
            place
        } else if route::is_double_dot(first) {
            route::parent(place)
        } else {
            (place + first).push('/')
        };
        lemma_parent_is_a_place(place);
        assert(rest.len() > 0 ==> rest.last() == head.last());
        lemma_followed_in_two(next, rest, tail);
        assert(route::followed(place, head) == route::followed(next, rest));
        assert(route::followed(place, whole) == route::followed(next, rest + tail));
    }
}

proof fn lemma_nothing_is_followed(place: Seq<char>, nothing: Seq<char>)
    requires
        nothing.len() == 0,
    ensures
        route::followed(place, nothing) == place,
{
    reveal_strlit(".");
    reveal_strlit("%2e");
    reveal_strlit("..");
    reveal_strlit(".%2e");
    reveal_strlit("%2e.");
    reveal_strlit("%2e%2e");
    let segment = text::before_char(nothing, '/');
    assert(segment.len() == 0 && text::lower(segment).len() == 0);
    assert(place + segment == place);
}

proof fn lemma_parent_is_a_place(place: Seq<char>)
    requires
        place.len() > 0,
        place[0] == '/',
        place.last() == '/',
    ensures
        route::parent(place).len() > 0,
        route::parent(place)[0] == '/',
        route::parent(place).last() == '/',
{
    lemma_up_begins_as_before(place.drop_last());
}

proof fn lemma_up_begins_as_before(text: Seq<char>)
    ensures
        route::up_to_slash(text).len() > 0 ==> route::up_to_slash(text).last() == '/'
            && route::up_to_slash(text)[0] == text[0],
    decreases text.len(),
{
    if text.len() > 0 && text.last() != '/' {
        lemma_up_begins_as_before(text.drop_last());
    }
}

/// Going up from a place below takes its segment off.
proof fn lemma_up_from_below(place: Seq<char>, segment: Seq<char>)
    requires
        place.len() > 0,
        place.last() == '/',
        !segment.contains('/'),
    ensures
        route::up_to_slash(place + segment) == place,
    decreases segment.len(),
{
    if segment.len() == 0 {
        assert(place + segment == place);
    } else {
        let less = segment.drop_last();
        assert(segment.contains(segment[segment.len() - 1]));
        assert(!less.contains('/')) by {
            if less.contains('/') {
                let i = choose|i: int| 0 <= i < less.len() && less[i] == '/';
                assert(segment[i] == '/');
            }
        }
        assert((place + segment).drop_last() == place + less);
        lemma_up_from_below(place, less);
    }
}

proof fn lemma_one_segment(place: Seq<char>, segment: Seq<char>)
    requires
        place.len() > 0,
        !segment.contains('/'),
    ensures
        route::followed(place, segment.push('/')) == (if route::is_single_dot(segment) {
            place
        } else if route::is_double_dot(segment) {
            route::parent(place)
        } else {
            (place + segment).push('/')
        }),
{
    let rest = segment.push('/');
    assert(rest =~= segment + seq!['/']);
    text::lemma_before_char(segment, seq!['/'], '/');
    assert(rest.skip(segment.len() as int + 1) =~= Seq::<char>::empty());
    lemma_nothing_is_followed(place, Seq::<char>::empty());
    lemma_nothing_is_followed(route::parent(place), Seq::<char>::empty());
    lemma_nothing_is_followed((place + segment).push('/'), Seq::<char>::empty());
}

proof fn lemma_dot_is_skipped(before: Seq<char>, dot: Seq<char>, after: Seq<char>)
    requires
        before.len() == 0 || before.last() == '/',
        dot == seq!['.'] || dot == seq!['%', '2', 'e'],
    ensures
        route::resolved(seq!['/'] + before + (dot.push('/') + after)) == route::resolved(
            seq!['/'] + before + after,
        ),
{
    reveal_strlit(".");
    reveal_strlit("%2e");
    let top = seq!['/'];
    let reached = route::followed(top, before);
    assert(text::lower(dot) =~= "."@ || text::lower(dot) =~= "%2e"@);
    assert(!dot.contains('/'));
    lemma_followed_in_two(top, before, dot.push('/') + after);
    lemma_followed_in_two(top, before, after);
    lemma_followed_in_two(reached, dot.push('/'), after);
    lemma_one_segment(reached, dot);
    assert((top + before + (dot.push('/') + after)).drop_first() =~= before + (dot.push('/')
        + after));
    assert((top + before + after).drop_first() =~= before + after);
}

proof fn lemma_segment_is_taken_back(
    before: Seq<char>,
    segment: Seq<char>,
    dots: Seq<char>,
    after: Seq<char>,
)
    requires
        before.len() == 0 || before.last() == '/',
        !segment.contains('/'),
        !route::is_single_dot(segment),
        !route::is_double_dot(segment),
        dots == seq!['.', '.'] || dots == seq!['%', '2', 'E', '%', '2', 'e'],
    ensures
        route::resolved(
            seq!['/'] + before + (segment.push('/') + (dots.push('/') + after)),
        ) == route::resolved(seq!['/'] + before + after),
{
    reveal_strlit(".");
    reveal_strlit("%2e");
    reveal_strlit("..");
    reveal_strlit("%2e%2e");
    let top = seq!['/'];
    let reached = route::followed(top, before);
    let (down, up) = (segment.push('/'), dots.push('/'));
    assert(text::lower(dots) =~= ".."@ || text::lower(dots) =~= "%2e%2e"@);
    assert(text::lower(dots).len() == 2 || text::lower(dots).len() == 6);
    assert(!dots.contains('/'));
    lemma_followed_in_two(top, before, down + (up + after));
    lemma_followed_in_two(top, before, after);
    lemma_followed_in_two(reached, down, up + after);
    lemma_one_segment(reached, segment);
    let below = (reached + segment).push('/');
    lemma_followed_in_two(below, up, after);
    lemma_one_segment(below, dots);
    assert(below.drop_last() =~= reached + segment);
    lemma_up_from_below(reached, segment);
    assert(route::parent(below) == reached);
    assert((top + before + (down + (up + after))).drop_first() =~= before + (down + (up + after)));
    assert((top + before + after).drop_first() =~= before + after);
}

/// A website that is not allowed is told so by its name, or as unknown.
pub proof fn law_refused_websites_are_named(origin: Seq<char>, allowed: bool)
    ensures
        server::origin_refusal(CallerView { origin: Some(origin), allowed }) == (HelperErrorView {
            status: 403,
            kind: "origin_not_allowed"@,
            message: "This website ("@ + origin
                + ") is not in the helper's list of allowed websites."@,
        }),
        server::origin_refusal(CallerView { origin: None, allowed }) == (HelperErrorView {
            status: 403,
            kind: "origin_not_allowed"@,
            message: "This website ("@ + "unknown"@
                + ") is not in the helper's list of allowed websites."@,
        }),
{
}

/// An allowed website gets its GET through to the vCenter that it is for, for the path as it gave
/// it, exactly where the path is passed through, there is such a vCenter, and that is complete.
pub proof fn law_proxy_passes_on_what_it_may(
    config: ConfigView,
    caller: CallerView,
    request: ProxyRequestView,
)
    requires
        caller.allowed,
    ensures
        ({
            let outcome = server::proxy_outcome(config, caller, Ok(request));
            let found = server::resolution(config.vcenters, request.vcenter);
            let get = text::lower(request.method) == "get"@;
            let path = server::path_refusal(request.path);
            &&& outcome is Ok <==> {
                &&& get && path is None
                &&& found matches Ok(entry) && entry.host.len() > 0 && entry.username.len() > 0
            }
            &&& outcome matches Ok(call) ==> call == CallView {
                entry: found->Ok_0,
                question: QuestionView::Rest(HttpMethod::Get, request.path),
                retried: false,
            }
            &&& !get ==> outcome == Err::<CallView, HelperErrorView>(
                HelperErrorView {
                    status: 403,
                    kind: "read_only"@,
                    message: "The helper only reads from vCenter. Only GET requests are passed through."@,
                },
            )
            &&& get && path is Some ==> outcome == Err::<CallView, HelperErrorView>(
                HelperErrorView { status: 400, kind: "bad_path"@, message: path->0 },
            )
            &&& get && path is None ==> (found matches Err(error) ==> outcome == Err::<
                CallView,
                HelperErrorView,
            >(error))
        }),
{
}

/// An allowed website gets its SOAP operation through as it gave it, exactly where the body is one
/// allowed operation, there is such a vCenter, and that is complete.
pub proof fn law_soap_passes_on_what_it_may(
    config: ConfigView,
    caller: CallerView,
    request: SoapRequestView,
)
    requires
        caller.allowed,
    ensures
        ({
            let outcome = server::soap_outcome(config, caller, Ok(request));
            let verdict = soap::soap_verdict(request.body, xml::xml_events(request.body));
            let found = server::resolution(config.vcenters, request.vcenter);
            &&& server::judged_soap_outcome(config, request, verdict) == outcome
            &&& outcome is Ok <==> {
                &&& verdict is Ok
                &&& found matches Ok(entry) && entry.host.len() > 0 && entry.username.len() > 0
            }
            &&& outcome matches Ok(call) ==> call == CallView {
                entry: found->Ok_0,
                question: QuestionView::Soap(request.body),
                retried: false,
            }
            &&& verdict matches Err(reason) ==> outcome == Err::<CallView, HelperErrorView>(
                HelperErrorView { status: 400, kind: "soap_not_allowed"@, message: reason },
            )
            &&& verdict is Ok ==> (found matches Err(error) ==> outcome == Err::<
                CallView,
                HelperErrorView,
            >(error))
        }),
{
}

/// A vCenter that is not complete, and a request that could not be read, are told to the website in
/// the words that said so.
pub proof fn law_failures_are_passed_on(
    config: ConfigView,
    caller: CallerView,
    id: Option<Seq<char>>,
    question: QuestionView,
    error: VcErrorView,
    reason: Seq<char>,
)
    requires
        caller.allowed,
    ensures
        server::of_vc_error(error) == (HelperErrorView {
            status: error.status,
            kind: error.kind,
            message: error.message,
        }),
        server::resolution(config.vcenters, id) matches Ok(entry) ==> (vcenter::completeness(
            entry,
        ) matches Some(lacking) ==> server::call_to(config, id, question) == Err::<
            CallView,
            HelperErrorView,
        >(server::of_vc_error(lacking))),
        server::proxy_outcome(config, caller, Err(reason)) == Err::<CallView, HelperErrorView>(
            HelperErrorView { status: 400, kind: "bad_request"@, message: reason },
        ),
        server::soap_outcome(config, caller, Err(reason)) == Err::<CallView, HelperErrorView>(
            HelperErrorView { status: 400, kind: "bad_request"@, message: reason },
        ),
{
}

/// An answer keeps its body always, its status where HTTP has it, and its content type where that
/// can be sent.
pub proof fn law_answers_lose_only_what_cannot_be_sent(upstream: UpstreamView)
    ensures
        ({
            let passed = server::passed_on(upstream);
            &&& passed.body == upstream.body
            &&& 100 <= upstream.status <= 999 ==> passed.status == upstream.status
            &&& !(100 <= upstream.status <= 999) ==> passed.status == 502
            &&& upstream.content_type is None ==> passed.content_type is None
            &&& upstream.content_type matches Some(content_type) ==> passed.content_type == (
            if http::can_be_header(content_type) {
                Some(content_type)
            } else {
                None
            })
        }),
{
}

/// An outcome is what it is said to be, call or error.
pub proof fn law_calls_are_told_in_full(
    r: Result<Call, HelperError>,
    call: CallView,
    error: HelperErrorView,
)
    ensures
        server::call_or_error(r, Ok(call)) <==> (r matches Ok(got) && got@ == call),
        server::call_or_error(r, Err(error)) <==> (r matches Err(got) && got.kind@ == error.kind
            && got.status == error.status && got.message@ == error.message),
{
}

} // verus!
