use dbh_insights_helper::config::VcenterEntry;
use dbh_insights_helper::probe::{ConnectionTest, TestStep};
use dbh_insights_helper::vcenter::{Upstream, VcError};

fn entry() -> VcenterEntry {
    VcenterEntry {
        id: "a".to_owned(),
        name: "Lab".to_owned(),
        host: "vc".to_owned(),
        username: "u".to_owned(),
        accept_invalid_certs: false,
    }
}

fn answer(status: u16) -> Option<Result<Upstream, VcError>> {
    let body = br#"{"version":"8.0.2","build":"7"}"#.to_vec();
    Some(Ok(Upstream { status, content_type: None, body }))
}

fn unreachable() -> Option<Result<Upstream, VcError>> {
    Some(Err(VcError::network("down".to_owned())))
}

fn asked(step: TestStep) -> (ConnectionTest, String) {
    match step {
        TestStep::Ask(test, call) => (test, call.request("c".to_owned()).url),
        _ => panic!("not asked"),
    }
}

fn said(step: TestStep) -> Result<String, String> {
    match step {
        TestStep::Done(said) => said.map_err(|e| e.message),
        _ => panic!("not done"),
    }
}

/// A test whose old sessions are dropped and which has asked REST.
fn begun() -> ConnectionTest {
    let test = match ConnectionTest::new(entry()).step(None) {
        TestStep::Forget(test, id) => {
            assert_eq!(id, "a");
            test
        }
        _ => panic!("sessions kept"),
    };
    let (test, url) = asked(test.step(None));
    assert_eq!(url, "https://vc/api/appliance/system/version");
    test
}

#[test]
fn asks_rest_then_soap() {
    let (test, url) = asked(begun().step(answer(200)));
    assert_eq!(url, "https://vc/sdk");
    let done = said(test.step(answer(200)));
    assert_eq!(done, Ok("Connected to vCenter 8.0.2 (build 7). REST and SOAP OK.".to_owned()));
}

#[test]
fn stops_at_the_first_failure() {
    let rejected = "vCenter accepted the login but rejected the session.";
    assert_eq!(said(begun().step(answer(401))), Err(rejected.to_owned()));
    assert_eq!(said(begun().step(unreachable())), Err("down".to_owned()));
    let (test, _) = asked(begun().step(answer(403)));
    assert_eq!(
        said(test.step(answer(500))),
        Err("Signed in to vCenter, but the SOAP API returned HTTP 500.".to_owned())
    );
    let (test, _) = asked(begun().step(answer(403)));
    assert_eq!(said(test.step(unreachable())), Err("down".to_owned()));
}

#[test]
fn a_question_without_an_answer_is_put_again() {
    let (test, first) = asked(begun().step(None));
    assert_eq!(first, "https://vc/api/appliance/system/version");
    let (test, _) = asked(test.step(answer(200)));
    let (test, again) = asked(test.step(None));
    assert_eq!(again, "https://vc/sdk");
    assert!(said(test.step(answer(204))).is_ok());
}

#[test]
fn an_incomplete_vcenter_is_not_tested() {
    let bare = VcenterEntry { username: String::new(), ..entry() };
    match ConnectionTest::new(bare).step(None) {
        TestStep::Forget(test, _) => assert_eq!(
            said(test.step(None)),
            Err("vCenter \"Lab\" is missing its address or username. Fix it in the DBH Insights Helper window.".to_owned())
        ),
        _ => panic!("sessions kept"),
    }
}
