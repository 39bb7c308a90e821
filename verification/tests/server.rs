use dbh_insights_helper::call::Call;
use dbh_insights_helper::config::{Config, VcenterEntry};
use dbh_insights_helper::request::HttpMethod;
use dbh_insights_helper::server::{
    default_method, guard, host_is_loopback, is_read_method, judged_soap, origin_not_allowed, proxy, reply,
    resolve_vcenter, response_headers, soap, status, upstream_response, validate_path, Admission, Caller,
    HelperError, ProxyRequest, SoapRequest, StatusDetails, HELPER_ERROR_HEADER, HELPER_VERSION,
};
use dbh_insights_helper::vcenter::{Upstream, VcError};

fn entry(id: &str, host: &str) -> VcenterEntry {
    VcenterEntry {
        id: id.to_owned(),
        name: format!("{host} name"),
        host: host.to_owned(),
        username: "admin".to_owned(),
        accept_invalid_certs: false,
    }
}

fn config(vcenters: Vec<VcenterEntry>) -> Config {
    Config { vcenters, ..Config::default() }
}

fn header(value: &str) -> Option<Vec<u8>> {
    Some(value.as_bytes().to_vec())
}

fn allowed() -> Caller {
    Caller { origin: Some("https://a.example".to_owned()), allowed: true }
}

fn refused() -> Caller {
    Caller { origin: Some("https://evil.example".to_owned()), allowed: false }
}

fn get(path: &str) -> Result<ProxyRequest, String> {
    Ok(ProxyRequest { vcenter: None, method: default_method(), path: path.to_owned() })
}

fn error_of(r: Result<Call, HelperError>) -> (u16, &'static str, String) {
    match r {
        Ok(_) => panic!("not an error"),
        Err(e) => (e.status, e.kind, e.message),
    }
}

fn call_of(r: Result<Call, HelperError>) -> Call {
    match r {
        Ok(call) => call,
        Err(e) => panic!("{}", e.message),
    }
}

#[test]
fn only_get_is_passed_through() {
    assert!(is_read_method("GET"));
    assert!(is_read_method("get"));
    for method in ["POST", "PUT", "PATCH", "DELETE", "HEAD", "OPTIONS", ""] {
        assert!(!is_read_method(method), "{method} should be refused");
    }
}

#[test]
fn allows_rest_paths() {
    assert!(validate_path("/api/vcenter/vm").is_ok());
    assert!(validate_path("/api/vcenter/vm?power_states=POWERED_ON").is_ok());
    assert!(validate_path("/rest/vcenter/vm").is_ok());
}

#[test]
fn rejects_escapes_and_sessions() {
    assert!(validate_path("/ui/").is_err());
    assert!(validate_path("/api/session").is_err());
    assert!(validate_path("/API/Session").is_err());
    assert!(validate_path("/api/../ui").is_err());
    assert!(validate_path("/api//evil.com").is_err());
    assert!(validate_path("/api/vcenter/vm@evil.com").is_err());
    assert!(validate_path("/api/vcenter/vm name").is_err());
}

#[test]
fn each_path_refusal_has_its_reason() {
    let start = Err("Path must start with /api/ or /rest/.");
    assert_eq!(validate_path(""), start);
    assert_eq!(validate_path("/api"), start);
    assert_eq!(validate_path("api/vm"), start);
    let session = Err("Session endpoints are managed by the helper and cannot be called directly.");
    assert_eq!(validate_path("/api/sessions/x"), session);
    assert_eq!(validate_path("/REST/com/VMware/cis/session?~action=get"), session);
    let escape = Err("Path contains characters that are not allowed.");
    for path in ["/api/a..b", "/api//a", "/api/a\\b", "/api/a@b", "/api/a#b"] {
        assert_eq!(validate_path(path), escape, "{path}");
    }
    for path in [
        "/api/./session",
        "/api/%2e%2e/ui",
        "/api/%2E/session",
        "/api/x/.%2e/session?y",
        "/api/x/%2e./././s%65ssion",
        "/rest/com/./vmware/cis/session",
        "/api/%2e%2e/",
        "/api/%2E%2E",
    ] {
        assert_eq!(validate_path(path), escape, "{path}");
    }
    for path in ["/api/%73ession", "/api/SE%53%73ion/x", "/rest/com/vmware%2Fcis/session"] {
        assert_eq!(validate_path(path), session, "{path}");
    }
    for path in [
        "/api/vcenter/.",
        "/api/.",
        "/api/vm/.",
        "/api/vm/.?x",
        "/api/./vcenter/vm",
        "/api/a%2eb",
        "/api/vm%2e1",
        "/api/x/%2e%2e/vm",
        "/api/%2e%2e/rest/vm",
        "/api/vm?x=/%2e%2e/%2e%2e/ui",
    ] {
        assert_eq!(validate_path(path), Ok(()), "{path}");
    }
    for path in ["/api/a.b", "/api/.hidden", "/api/vm?x=%2e&y=/./", "/api/100%", "/api/%zz", "/api/a%2Fb"] {
        assert_eq!(validate_path(path), Ok(()), "{path}");
    }
    let ascii = Err("Path must be URL-encoded ASCII with no spaces.");
    for path in ["/api/a b", "/api/\u{e9}", "/api/\x7f", "/api/a\n"] {
        assert_eq!(validate_path(path), ascii, "{path}");
    }
    assert_eq!(validate_path("/API/vm"), Ok(()));
    assert_eq!(validate_path("/api/!~"), Ok(()));
}

#[test]
fn loopback_hosts_are_recognized() {
    for host in ["127.0.0.1", "127.0.0.1:8765", "localhost", "LocalHost:1", "localhost:"] {
        assert!(host_is_loopback(host), "{host}");
    }
    for host in ["", "127.0.0.2", "localhost.evil.com", "localhost:1:2", "[::1]:8765", "evil.com:127.0.0.1"] {
        assert!(!host_is_loopback(host), "{host}");
    }
}

#[test]
fn guard_refuses_other_hosts() {
    let config = Config::default();
    for host in [None, header("evil.com"), Some(b"127.0.0.1\xff".to_vec())] {
        match guard(&config, "OPTIONS", &host, &None) {
            Admission::Refused(e) => {
                assert_eq!((e.status, e.kind), (403, "forbidden_host"));
                assert_eq!(e.message, "Requests must be addressed to 127.0.0.1 or localhost.");
            }
            _ => panic!("not refused"),
        }
    }
}

#[test]
fn guard_answers_preflights_without_granting_anything() {
    let config = Config::default();
    match guard(&config, "OPTIONS", &header("localhost:8765"), &header("https://evil.com")) {
        Admission::Preflight(status, origin) => {
            assert_eq!((status, origin), (204, Some("https://evil.com".to_owned())));
        }
        _ => panic!("not a preflight"),
    }
}

#[test]
fn guard_tells_allowed_websites_from_others() {
    let config = Config::default();
    let caller = |origin: Option<Vec<u8>>| match guard(&config, "POST", &header("127.0.0.1:8765"), &origin) {
        Admission::Handled(caller) => (caller.origin, caller.allowed),
        _ => panic!("not handled"),
    };
    let website = "https://dbh-insights.github.io";
    assert_eq!(caller(header(website)), (Some(website.to_owned()), true));
    assert_eq!(caller(header("https://evil.com")), (Some("https://evil.com".to_owned()), false));
    assert_eq!(caller(header("null")), (Some("null".to_owned()), false));
    // Not a browser.
    assert_eq!(caller(None), (None, true));
}

#[test]
fn answers_name_the_origin() {
    let headers = response_headers(&Some("https://a.example".to_owned()));
    let headers: Vec<(&str, &str)> = headers.iter().map(|(n, v)| (*n, v.as_str())).collect();
    assert_eq!(
        headers,
        vec![
            ("access-control-allow-origin", "https://a.example"),
            ("access-control-allow-methods", "GET, POST, OPTIONS"),
            ("access-control-allow-headers", "content-type"),
            ("access-control-expose-headers", "x-helper-error"),
            ("access-control-max-age", "600"),
            ("access-control-allow-private-network", "true"),
            ("vary", "Origin"),
            ("cache-control", "no-store"),
        ]
    );
    assert_eq!(HELPER_ERROR_HEADER, "x-helper-error");
    let plain = vec![("vary", "Origin".to_owned()), ("cache-control", "no-store".to_owned())];
    assert_eq!(response_headers(&None), plain);
    // Cannot be sent in a header.
    assert_eq!(response_headers(&Some("a\nb".to_owned())), plain);
    assert_eq!(response_headers(&Some("a\x7f".to_owned())), plain);
    assert_eq!(response_headers(&Some("a\tb".to_owned())).len(), 8);
}

#[test]
fn status_lists_the_vcenters() {
    let reply = status(&config(vec![entry("a", "one"), entry("b", "two")]), allowed());
    assert_eq!(reply.helper, "dbh-insights-helper");
    assert_eq!(reply.version, HELPER_VERSION);
    assert!(reply.origin_allowed);
    match reply.details {
        StatusDetails::Granted(configured, vcenters, capabilities) => {
            assert!(configured);
            assert_eq!(vcenters.len(), 2);
            assert_eq!(vcenters[1].id, "b");
            assert_eq!(vcenters[1].name, "two name");
            assert_eq!(vcenters[1].host, "two");
            assert_eq!(vcenters[1].username, "admin");
            assert_eq!(capabilities, vec!["rest", "soap", "perf"]);
        }
        _ => panic!("refused"),
    }
    match status(&Config::default(), allowed()).details {
        StatusDetails::Granted(configured, vcenters, _) => assert!(!configured && vcenters.is_empty()),
        _ => panic!("refused"),
    }
}

#[test]
fn status_tells_other_websites_nothing() {
    for vcenters in [vec![], vec![entry("a", "one")]] {
        let reply = status(&config(vcenters), refused());
        assert!(!reply.origin_allowed);
        match reply.details {
            StatusDetails::Refused(origin) => {
                assert_eq!(origin, Some("https://evil.example".to_owned()))
            }
            _ => panic!("granted"),
        }
    }
}

#[test]
fn picks_the_vcenter() {
    let two = config(vec![entry("a", "one"), entry("b", "two")]);
    let id = |id: &str| Some(id.to_owned());
    assert_eq!(resolve_vcenter(&two, &id("b")).unwrap().host, "two");
    let only = config(vec![entry("a", "one")]);
    assert_eq!(resolve_vcenter(&only, &None).unwrap().host, "one");

    let e = resolve_vcenter(&two, &id("c")).unwrap_err();
    assert_eq!((e.status, e.kind), (404, "unknown_vcenter"));
    assert_eq!(e.message, "The helper has no vCenter with id \"c\".");
    let e = resolve_vcenter(&two, &None).unwrap_err();
    assert_eq!((e.status, e.kind), (400, "vcenter_required"));
    assert_eq!(e.message, "Several vCenters are configured. Add \"vcenter\": \"<id>\" to the request.");
    for id in [None, id("a")] {
        let e = resolve_vcenter(&Config::default(), &id).unwrap_err();
        assert_eq!((e.status, e.kind), (409, "not_configured"));
        assert_eq!(
            e.message,
            "The helper has no vCenters configured. Open the DBH Insights Helper window and add one."
        );
    }
}

#[test]
fn proxy_asks_the_configured_host() {
    let config = config(vec![entry("a", "vc.lab:8443")]);
    let call = call_of(proxy(&config, &allowed(), get("/api/vcenter/vm")));
    assert_eq!(call.entry().id, "a");
    let request = call.request("token".to_owned());
    assert_eq!(request.method, HttpMethod::Get);
    assert_eq!(request.url, "https://vc.lab:8443/api/vcenter/vm");
    assert_eq!(request.headers, vec![("vmware-api-session-id".to_owned(), "token".to_owned())]);
    assert_eq!(request.body, None);
}

#[test]
fn proxy_refuses_in_order() {
    let none = Config::default();
    let refusal = "This website (https://evil.example) is not in the helper's list of allowed websites.";
    assert_eq!(
        error_of(proxy(&none, &refused(), Err("unreadable".to_owned()))),
        (403, "origin_not_allowed", refusal.to_owned())
    );
    assert_eq!(
        error_of(proxy(&none, &allowed(), Err("unreadable".to_owned()))),
        (400, "bad_request", "unreadable".to_owned())
    );
    let post = ProxyRequest { vcenter: None, method: "POST".to_owned(), path: "/ui".to_owned() };
    assert_eq!(
        error_of(proxy(&none, &allowed(), Ok(post))),
        (
            403,
            "read_only",
            "The helper only reads from vCenter. Only GET requests are passed through.".to_owned()
        )
    );
    assert_eq!(
        error_of(proxy(&none, &allowed(), get("/ui"))),
        (400, "bad_path", "Path must start with /api/ or /rest/.".to_owned())
    );
    assert_eq!(error_of(proxy(&none, &allowed(), get("/api/vm"))).1, "not_configured");
    let incomplete = config(vec![VcenterEntry { name: "x".to_owned(), ..VcenterEntry::default() }]);
    assert_eq!(
        error_of(proxy(&incomplete, &allowed(), get("/api/vm"))),
        (
            409,
            "not_configured",
            "vCenter \"x\" is missing its address or username. Fix it in the DBH Insights Helper window."
                .to_owned()
        )
    );
}

#[test]
fn soap_asks_as_given() {
    let config = config(vec![entry("a", "vc")]);
    let body = "<vim25:QueryPerf/>";
    let request = || SoapRequest { vcenter: Some("a".to_owned()), body: body.to_owned() };
    let sent = call_of(soap(&config, &allowed(), Ok(request()))).request("c=1".to_owned());
    assert_eq!(sent.method, HttpMethod::Post);
    assert_eq!(sent.url, "https://vc/sdk");
    assert_eq!(sent.headers[2], ("Cookie".to_owned(), "c=1".to_owned()));
    assert!(sent.body.unwrap().ends_with("<soapenv:Body><vim25:QueryPerf/></soapenv:Body></soapenv:Envelope>"));

    let judged = judged_soap(&config, request(), Err("no".to_owned()));
    assert_eq!(error_of(judged), (400, "soap_not_allowed", "no".to_owned()));
    assert!(judged_soap(&config, request(), Ok("QueryPerf")).is_ok());
}

#[test]
fn soap_refuses_in_order() {
    let none = Config::default();
    let body = |body: &str| Ok(SoapRequest { vcenter: None, body: body.to_owned() });
    assert_eq!(error_of(soap(&none, &refused(), body(""))).1, "origin_not_allowed");
    assert_eq!(
        error_of(soap(&none, &allowed(), Err("unreadable".to_owned()))),
        (400, "bad_request", "unreadable".to_owned())
    );
    assert_eq!(
        error_of(soap(&none, &allowed(), body(""))),
        (400, "soap_not_allowed", "SOAP body must contain one operation element.".to_owned())
    );
    assert_eq!(error_of(soap(&none, &allowed(), body("<QueryPerf/>"))).1, "not_configured");
}

#[test]
fn a_caller_without_origin_is_unknown() {
    let e = origin_not_allowed(&Caller { origin: None, allowed: false });
    assert_eq!(e.message, "This website (unknown) is not in the helper's list of allowed websites.");
}

#[test]
fn answers_are_passed_on() {
    let upstream = |status: u16, content_type: Option<&str>| Upstream {
        status,
        content_type: content_type.map(str::to_owned),
        body: vec![1, 2, 3],
    };
    let passed = upstream_response(upstream(404, Some("application/json")));
    assert_eq!(passed.status, 404);
    assert_eq!(passed.content_type, Some("application/json".to_owned()));
    assert_eq!(passed.body, vec![1, 2, 3]);
    assert_eq!(upstream_response(upstream(999, None)).status, 999);
    assert_eq!(upstream_response(upstream(100, None)).status, 100);
    for status in [0, 99, 1000] {
        assert_eq!(upstream_response(upstream(status, None)).status, 502);
    }
    assert_eq!(upstream_response(upstream(200, Some("a\nb"))).content_type, None);

    let read = Upstream::read(200, &header("text/xml"), vec![7]);
    assert_eq!(read.content_type, Some("text/xml".to_owned()));
    let passed = reply(Ok(read)).unwrap_or_else(|e| panic!("{}", e.message));
    assert_eq!((passed.status, passed.content_type, passed.body), (200, Some("text/xml".to_owned()), vec![7]));
    match reply(Err(VcError::auth("no".to_owned()))) {
        Err(e) => assert_eq!((e.status, e.kind, e.message.as_str()), (502, "vcenter_auth_failed", "no")),
        Ok(_) => panic!("passed on"),
    }
}
