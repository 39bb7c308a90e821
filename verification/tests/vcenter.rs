use dbh_insights_helper::call::{Call, Next, Question};
use dbh_insights_helper::config::VcenterEntry;
use dbh_insights_helper::request::{
    rest_login_request, rest_request, soap_envelope, soap_login_request, soap_request, xml_escape, HttpMethod,
};
use dbh_insights_helper::vcenter::{
    check_rest_login, check_soap_login, could_not_reach, find_soap_cookie, is_not_authenticated, login_token,
    network_error, read_rest_login, require_complete, saved_password, test_rest, test_soap, Upstream, VcError,
};

fn entry() -> VcenterEntry {
    VcenterEntry {
        id: "a".to_owned(),
        name: "Lab".to_owned(),
        host: "vc.lab".to_owned(),
        username: "ad<min".to_owned(),
        accept_invalid_certs: false,
    }
}

fn upstream(status: u16, body: &str) -> Upstream {
    Upstream { status, content_type: None, body: body.as_bytes().to_vec() }
}

fn told(e: VcError) -> (&'static str, u16, String) {
    (e.kind, e.status, e.message)
}

fn auth(message: &str) -> (&'static str, u16, String) {
    ("vcenter_auth_failed", 502, message.to_owned())
}

fn network(message: &str) -> (&'static str, u16, String) {
    ("vcenter_unreachable", 502, message.to_owned())
}

fn not_configured(message: &str) -> (&'static str, u16, String) {
    ("not_configured", 409, message.to_owned())
}

#[test]
fn escapes_credentials_for_xml() {
    assert_eq!(xml_escape(r#"p&ss<w>rd"'"#), "p&amp;ss&lt;w&gt;rd&quot;&apos;");
}

#[test]
fn escaping_keeps_the_rest() {
    assert_eq!(xml_escape(""), "");
    assert_eq!(xml_escape("h\u{e9}llo \u{1f600}"), "h\u{e9}llo \u{1f600}");
    assert_eq!(xml_escape("&amp;"), "&amp;amp;");
}

#[test]
fn wraps_operations_in_an_envelope() {
    assert_eq!(
        soap_envelope("<x/>"),
        r#"<?xml version="1.0" encoding="UTF-8"?><soapenv:Envelope xmlns:soapenv="http://schemas.xmlsoap.org/soap/envelope/" xmlns:xsi="http://www.w3.org/2001/XMLSchema-instance" xmlns:vim25="urn:vim25"><soapenv:Body><x/></soapenv:Body></soapenv:Envelope>"#
    );
}

#[test]
fn builds_the_requests() {
    let rest = rest_request(HttpMethod::Delete, "https://vc/x".to_owned(), "t");
    assert_eq!((rest.method, rest.url.as_str()), (HttpMethod::Delete, "https://vc/x"));
    assert_eq!(rest.headers, vec![("vmware-api-session-id".to_owned(), "t".to_owned())]);
    assert_eq!((rest.basic_auth, rest.body, rest.timeout), (None, None, None));

    let soap = soap_request("https://vc".to_owned(), Some("c".to_owned()), "<x/>");
    assert_eq!((soap.method, soap.url.as_str()), (HttpMethod::Post, "https://vc/sdk"));
    let headers: Vec<(&str, &str)> = soap.headers.iter().map(|(n, v)| (n.as_str(), v.as_str())).collect();
    assert_eq!(
        headers,
        vec![("content-type", "text/xml; charset=utf-8"), ("SOAPAction", "urn:vim25/8.0"), ("Cookie", "c")]
    );
    assert_eq!(soap.body, Some(soap_envelope("<x/>")));
}

#[test]
fn builds_the_logins() {
    let rest = rest_login_request(&entry(), "p<w".to_owned());
    assert_eq!((rest.method, rest.url.as_str()), (HttpMethod::Post, "https://vc.lab/api/session"));
    assert_eq!(rest.basic_auth, Some(("ad<min".to_owned(), "p<w".to_owned())));
    assert!(rest.headers.is_empty() && rest.body.is_none());

    let soap = soap_login_request(&entry(), "p&w");
    assert_eq!(soap.headers.len(), 2);
    assert_eq!(
        soap.body.unwrap(),
        soap_envelope(
            "<vim25:Login><vim25:_this type=\"SessionManager\">SessionManager</vim25:_this><vim25:userName>ad&lt;min</vim25:userName><vim25:password>p&amp;w</vim25:password></vim25:Login>"
        )
    );
}

#[test]
fn network_errors_name_their_causes() {
    let e = network_error("vCenter request failed", "oops", &vec!["a".to_owned(), "b".to_owned()]);
    assert_eq!(told(e), network("vCenter request failed: oops \u{2192} a \u{2192} b"));
    let e = network_error(&could_not_reach(&entry()), "oops", &vec![]);
    assert_eq!(told(e), network("Could not reach https://vc.lab: oops"));
}

#[test]
fn entries_must_be_complete() {
    assert!(require_complete(&entry()).is_ok());
    let e = require_complete(&VcenterEntry { host: String::new(), ..entry() }).unwrap_err();
    assert_eq!(
        told(e),
        not_configured("vCenter \"Lab\" is missing its address or username. Fix it in the DBH Insights Helper window.")
    );
}

#[test]
fn passwords_come_from_the_keychain() {
    assert_eq!(saved_password(&entry(), Ok(Some("pw".to_owned()))).unwrap(), "pw");
    assert_eq!(
        told(saved_password(&entry(), Ok(None)).unwrap_err()),
        not_configured("No password is saved for vCenter \"Lab\". Enter it in the DBH Insights Helper window.")
    );
    assert_eq!(
        told(saved_password(&entry(), Err("locked".to_owned())).unwrap_err()),
        not_configured("Could not read the password from the OS keychain: locked")
    );
}

#[test]
fn rest_logins_are_judged_by_their_status() {
    assert!(check_rest_login(&entry(), 200).is_ok());
    assert!(check_rest_login(&entry(), 299).is_ok());
    let failure = |status: u16| told(check_rest_login(&entry(), status).unwrap_err());
    assert_eq!(failure(401), auth("vCenter \"Lab\" rejected the username or password."));
    assert_eq!(
        failure(404),
        network("vCenter has no /api/session endpoint. vCenter 7.0 U2 or later is required.")
    );
    assert_eq!(failure(503), network("vCenter login failed with HTTP 503 Service Unavailable."));
    assert_eq!(failure(300), network("vCenter login failed with HTTP 300 Multiple Choices."));
    assert_eq!(failure(799), network("vCenter login failed with HTTP 799 <unknown status code>."));
}

#[test]
fn rest_logins_give_the_token() {
    assert_eq!(read_rest_login(&entry(), 201, br#""a\u0062c""#).unwrap(), "abc");
    let failure = |status: u16, body: &[u8]| told(read_rest_login(&entry(), status, body).unwrap_err());
    let (kind, status, message) = failure(200, b"{}");
    assert_eq!((kind, status), ("vcenter_unreachable", 502));
    let start = "Unexpected login response from vCenter: error decoding response body \u{2192} invalid type: map";
    assert!(message.starts_with(start), "{message}");
    // Not looked at where the status says that the login failed.
    assert_eq!(failure(401, b"\"t\""), auth("vCenter \"Lab\" rejected the username or password."));

    assert_eq!(login_token(Ok("t".to_owned())).unwrap(), "t");
    assert_eq!(
        told(login_token(Err("why".to_owned())).unwrap_err()),
        network("Unexpected login response from vCenter: error decoding response body \u{2192} why")
    );
}

#[test]
fn finds_the_session_cookie() {
    let headers = |values: &[&[u8]]| values.iter().map(|v| v.to_vec()).collect::<Vec<_>>();
    let cookie = "vmware_soap_session=\"abc\"";
    assert_eq!(find_soap_cookie(&headers(&[])), None);
    assert_eq!(
        find_soap_cookie(&headers(&[b"other=1; Path=/", b" vmware_soap_session=\"abc\" ; Path=/; Secure"])),
        Some(cookie.to_owned())
    );
    // Not readable, so passed over.
    assert_eq!(
        find_soap_cookie(&headers(&[b"vmware_soap_session=\xff", b"vmware_soap_session=2", b"vmware_soap_session=3"])),
        Some("vmware_soap_session=2".to_owned())
    );
    assert_eq!(find_soap_cookie(&headers(&[b"a=1; vmware_soap_session=2"])), None);
}

#[test]
fn soap_logins_are_judged_by_status_answer_and_cookie() {
    let cookie = || Some("vmware_soap_session=1".to_owned());
    assert_eq!(check_soap_login(&entry(), cookie(), 200, "fine").unwrap(), "vmware_soap_session=1");
    let failure = |cookie: Option<String>, status: u16, answer: &str| {
        told(check_soap_login(&entry(), cookie, status, answer).unwrap_err())
    };
    assert_eq!(
        failure(cookie(), 500, "<InvalidLogin/>"),
        auth("vCenter \"Lab\" rejected the username or password (SOAP).")
    );
    assert_eq!(
        failure(cookie(), 500, "x"),
        network("vCenter SOAP login failed with HTTP 500 Internal Server Error.")
    );
    assert_eq!(failure(None, 200, "x"), network("vCenter SOAP login returned no session cookie."));
}

#[test]
fn recognizes_expired_soap_sessions() {
    assert!(is_not_authenticated(&upstream(500, "<NotAuthenticatedFault/>")));
    assert!(!is_not_authenticated(&upstream(200, "<NotAuthenticatedFault/>")));
    assert!(!is_not_authenticated(&upstream(500, "<notauthenticated/>")));
}

#[test]
fn connection_tests_read_the_version() {
    let body = r#"{"version":"8.0.2","build":"22385739"}"#;
    assert_eq!(test_rest(&upstream(200, body)).unwrap(), "Connected to vCenter 8.0.2 (build 22385739)");
    assert_eq!(test_rest(&upstream(200, r#"{"version":8}"#)).unwrap(), "Connected to vCenter ? (build ?)");
    assert_eq!(test_rest(&upstream(200, "junk")).unwrap(), "Connected to vCenter ? (build ?)");
    assert_eq!(test_rest(&upstream(403, body)).unwrap(), "Signed in to vCenter");
    assert_eq!(
        told(test_rest(&upstream(401, body)).unwrap_err()),
        auth("vCenter accepted the login but rejected the session.")
    );
}

#[test]
fn connection_tests_run_a_soap_operation() {
    let rest = || "Signed in to vCenter".to_owned();
    assert_eq!(test_soap(rest(), &upstream(200, "")).unwrap(), "Signed in to vCenter. REST and SOAP OK.");
    assert_eq!(
        told(test_soap(rest(), &upstream(500, "")).unwrap_err()),
        network("Signed in to vCenter, but the SOAP API returned HTTP 500.")
    );
}

fn start(question: Question) -> Call {
    Call::start(entry(), question).unwrap_or_else(|e| panic!("{}", e.message))
}

fn again(next: Next) -> (Call, String) {
    match next {
        Next::Again(call, stale) => (call, stale),
        Next::Finish => panic!("finished"),
    }
}

#[test]
fn an_expired_rest_session_is_replaced_once() {
    let question = || Question::Rest(HttpMethod::Get, "/api/vm".to_owned());
    let fine = start(question()).answered("one".to_owned(), &upstream(200, ""));
    assert!(matches!(fine, Next::Finish));
    let (call, stale) = again(start(question()).answered("one".to_owned(), &upstream(401, "")));
    assert_eq!(stale, "one");
    assert_eq!(call.request("two".to_owned()).url, "https://vc.lab/api/vm");
    assert!(matches!(call.answered("two".to_owned(), &upstream(401, "")), Next::Finish));
}

#[test]
fn an_expired_soap_session_is_replaced_once() {
    let expired = upstream(500, "NotAuthenticated");
    let (call, stale) = again(start(Question::Soap("<x/>".to_owned())).answered("c".to_owned(), &expired));
    assert_eq!(stale, "c");
    assert!(matches!(call.answered("d".to_owned(), &expired), Next::Finish));
    let refused = start(Question::Soap("<x/>".to_owned())).answered("c".to_owned(), &upstream(401, ""));
    assert!(matches!(refused, Next::Finish));
}

#[test]
fn a_question_names_what_failed() {
    let rest = start(Question::Rest(HttpMethod::Get, "/api/vm".to_owned()));
    assert_eq!(rest.context(), "vCenter request failed");
    assert!(matches!(rest.question(), Question::Rest(HttpMethod::Get, path) if path == "/api/vm"));
    let soap = start(Question::Soap("<x/>".to_owned()));
    assert_eq!(soap.context(), "vCenter SOAP request failed");
}

#[test]
fn an_incomplete_entry_is_not_asked() {
    let bare = VcenterEntry { username: String::new(), ..entry() };
    assert!(Call::start(bare, Question::Soap(String::new())).is_err());
}
