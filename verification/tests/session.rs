use dbh_insights_helper::config::VcenterEntry;
use dbh_insights_helper::request::HttpMethod;
use dbh_insights_helper::session::{Readiness, Session, VCenter};

fn entry(host: &str) -> VcenterEntry {
    VcenterEntry { host: host.to_owned(), username: "u".to_owned(), ..VcenterEntry::default() }
}

fn connected(host: &str) -> Session<&'static str> {
    let mut session = Session::new();
    session.set_client(&entry(host), "client");
    session
}

fn credential(readiness: Readiness) -> Option<String> {
    match readiness {
        Readiness::Ready(credential) => Some(credential),
        Readiness::NeedsLogin => None,
        Readiness::NeedsClient => panic!("no client"),
    }
}

#[test]
fn a_client_serves_one_connection() {
    let mut fresh: Session<&str> = Session::new();
    assert!(matches!(fresh.rest_session(&entry("vc"), None), Readiness::NeedsClient));
    assert!(matches!(fresh.soap_session(&entry("vc"), None), Readiness::NeedsClient));
    assert!(fresh.client().is_none());
    let mut session = connected("vc");
    assert_eq!(session.client(), Some(&"client"));
    session.set_rest_token("t".to_owned());
    let mut needs_client = |entry: VcenterEntry| {
        matches!(session.rest_session(&entry, None), Readiness::NeedsClient)
            && matches!(session.soap_session(&entry, None), Readiness::NeedsClient)
    };
    assert!(!needs_client(entry("vc")));
    assert!(needs_client(entry("other")));
    assert!(needs_client(VcenterEntry { accept_invalid_certs: true, ..entry("vc") }));
    assert!(needs_client(VcenterEntry { username: "v".to_owned(), ..entry("vc") }));
    assert!(!needs_client(VcenterEntry { id: "x".to_owned(), name: "y".to_owned(), ..entry("vc") }));
    // Being asked for another connection does not end the session.
    assert_eq!(credential(session.rest_session(&entry("vc"), None)), Some("t".to_owned()));
}

#[test]
fn a_new_client_ends_the_sessions() {
    let mut session = connected("vc");
    session.set_rest_token("t".to_owned());
    session.set_soap_cookie("c".to_owned());
    session.set_client(&entry("other"), "next");
    assert_eq!(credential(session.rest_session(&entry("other"), None)), None);
    assert_eq!(credential(session.soap_session(&entry("other"), None)), None);
    assert_eq!(session.client(), Some(&"next"));
}

#[test]
fn stale_credentials_are_dropped() {
    let vc = entry("vc");
    let mut session = connected("vc");
    assert_eq!(credential(session.rest_session(&vc, Some("t"))), None);
    session.set_rest_token("t".to_owned());
    assert_eq!(credential(session.rest_session(&vc, None)), Some("t".to_owned()));
    assert_eq!(credential(session.rest_session(&vc, Some("older"))), Some("t".to_owned()));
    assert_eq!(credential(session.rest_session(&vc, Some("t"))), None);
    assert_eq!(credential(session.rest_session(&vc, None)), None);

    session.set_soap_cookie("c".to_owned());
    assert_eq!(credential(session.soap_session(&vc, Some("older"))), Some("c".to_owned()));
    assert_eq!(credential(session.soap_session(&vc, Some("c"))), None);
}

#[test]
fn logging_out_ends_both_sessions() {
    let none: Session<&str> = Session::new();
    assert!(none.logout().is_none());
    let (_, requests) = connected("vc").logout().unwrap();
    assert!(requests.is_empty());

    let mut session = connected("vc");
    session.set_rest_token("t".to_owned());
    session.set_soap_cookie("c".to_owned());
    let (client, requests) = session.logout().unwrap();
    assert_eq!(client, "client");
    assert_eq!(requests.len(), 2);
    assert_eq!(requests[0].method, HttpMethod::Delete);
    assert_eq!(requests[0].url, "https://vc/api/session");
    assert_eq!(requests[0].headers[0].1, "t");
    assert_eq!(requests[0].timeout, Some(5));
    assert_eq!(requests[1].url, "https://vc/sdk");
    assert_eq!(requests[1].headers[2], ("Cookie".to_owned(), "c".to_owned()));
    assert!(requests[1].body.as_ref().unwrap().contains("<vim25:Logout>"));
    assert_eq!(requests[1].timeout, Some(5));
}

#[test]
fn each_vcenter_has_one_slot() {
    let mut table: VCenter<u32> = VCenter::new();
    assert_eq!(*table.slot("a", 1), 1);
    assert_eq!(*table.slot("b", 2), 2);
    assert_eq!(*table.slot("a", 3), 1);
    assert_eq!(table.forget("a"), Some(1));
    assert_eq!(table.forget("a"), None);
    assert_eq!(*table.slot("a", 4), 4);
    let mut slots = table.logout_all();
    slots.sort();
    assert_eq!(slots, vec![2, 4]);
    assert!(table.logout_all().is_empty());
}
