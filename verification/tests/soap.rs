use dbh_insights_helper::soap::{read_operation, validate_soap_body, SoapScan, SoapStep, SOAP_BODY_LIMIT};
use dbh_insights_helper::xml::XmlEvent;

const RETRIEVE: &str = r#"<vim25:RetrievePropertiesEx><vim25:_this type="PropertyCollector">propertyCollector</vim25:_this><vim25:specSet><vim25:propSet><vim25:type>HostSystem</vim25:type><vim25:pathSet>name</vim25:pathSet></vim25:propSet><vim25:objectSet><vim25:obj type="ContainerView">session[1]view</vim25:obj><vim25:skip>true</vim25:skip><vim25:selectSet xsi:type="vim25:TraversalSpec"><vim25:name>view</vim25:name><vim25:type>ContainerView</vim25:type><vim25:path>view</vim25:path><vim25:skip>false</vim25:skip></vim25:selectSet></vim25:objectSet></vim25:specSet><vim25:options/></vim25:RetrievePropertiesEx>"#;

#[test]
fn allows_read_only_soap_operations() {
    assert_eq!(validate_soap_body(RETRIEVE), Ok("RetrievePropertiesEx"));
    assert_eq!(
        validate_soap_body("\n  <vim25:DestroyView><vim25:_this type=\"ContainerView\">v</vim25:_this></vim25:DestroyView>\n"),
        Ok("DestroyView")
    );
    assert_eq!(
        validate_soap_body(r#"<RetrieveServiceContent xmlns="urn:vim25"><_this type="ServiceInstance">ServiceInstance</_this></RetrieveServiceContent>"#),
        Ok("RetrieveServiceContent")
    );
    assert_eq!(
        validate_soap_body(r#"<vim25:QueryPerf><vim25:_this type="PerformanceManager">PerfMgr</vim25:_this><vim25:querySpec><vim25:entity type="HostSystem">host-9</vim25:entity></vim25:querySpec></vim25:QueryPerf>"#),
        Ok("QueryPerf")
    );
}

#[test]
fn rejects_writes_and_session_operations() {
    for op in ["Login", "Logout", "PowerOffVM_Task", "Destroy_Task", "CreateSnapshot_Task", "TerminateSession", "UpdatePerfInterval", "ResetCounterLevelMapping"] {
        let body = format!("<vim25:{op}><vim25:_this type=\"X\">x</vim25:_this></vim25:{op}>");
        assert!(validate_soap_body(&body).is_err(), "{op} should be rejected");
    }
}

#[test]
fn rejects_smuggled_or_malformed_bodies() {
    // A second operation after an allowed one.
    assert!(validate_soap_body(&format!("{RETRIEVE}<vim25:PowerOffVM_Task/>")).is_err());
    // Breaking out of the envelope's Body.
    assert!(validate_soap_body(&format!("{RETRIEVE}</soapenv:Body>")).is_err());
    assert!(validate_soap_body("<vim25:RetrievePropertiesEx>").is_err());
    assert!(validate_soap_body("<!DOCTYPE x [<!ENTITY e \"y\">]><vim25:RetrieveServiceContent/>").is_err());
    assert!(validate_soap_body("junk<vim25:RetrieveServiceContent/>").is_err());
    assert!(validate_soap_body("").is_err());
}

fn refusal(body: &str) -> String {
    validate_soap_body(body).unwrap_err()
}

#[test]
fn each_refusal_has_its_reason() {
    assert_eq!(refusal(""), "SOAP body must contain one operation element.");
    assert_eq!(refusal("<!-- nothing -->"), "SOAP body must contain one operation element.");
    assert_eq!(
        refusal("<QueryPerf/><QueryPerf/>"),
        "SOAP body must contain exactly one operation."
    );
    assert_eq!(
        refusal("<vim25:Login/>"),
        "SOAP operation \"Login\" is not allowed. The helper only passes read-only property queries."
    );
    assert_eq!(refusal("x<QueryPerf/>"), "Text outside the operation element is not allowed.");
    assert_eq!(refusal("<QueryPerf/>&amp;"), "Text outside the operation element is not allowed.");
    assert_eq!(
        refusal("<![CDATA[x]]><QueryPerf/>"),
        "Text outside the operation element is not allowed."
    );
    let declared = "XML declarations, DOCTYPEs and processing instructions are not allowed.";
    assert_eq!(refusal("<?xml version=\"1.0\"?><QueryPerf/>"), declared);
    assert_eq!(refusal("<!DOCTYPE x><QueryPerf/>"), declared);
    assert_eq!(refusal("<QueryPerf><?go on?></QueryPerf>"), declared);
    assert_eq!(refusal("<QueryPerf>"), "SOAP body is not well-formed XML: unclosed element.");
    let malformed = refusal("<QueryPerf></Other>");
    assert!(malformed.starts_with("SOAP body is not well-formed XML: "), "{malformed}");
    let stray = refusal("<QueryPerf/></QueryPerf>");
    assert!(stray.starts_with("SOAP body is not well-formed XML: "), "{stray}");
}

#[test]
fn content_of_the_operation_is_free() {
    for body in [
        "<QueryPerf>text &amp; more<![CDATA[<Login/>]]><!-- c --><Login/></QueryPerf>",
        " \t\r\n\x0c<QueryPerf/> ",
        "<!-- before --><a:QueryPerf/><!-- after -->",
    ] {
        assert_eq!(validate_soap_body(body), Ok("QueryPerf"), "{body}");
    }
}

#[test]
fn large_bodies_are_refused() {
    let body = |len: usize| {
        let frame = "<QueryPerf></QueryPerf>";
        format!("<QueryPerf>{}</QueryPerf>", "x".repeat(len - frame.len()))
    };
    assert_eq!(SOAP_BODY_LIMIT, 1_000_000);
    assert_eq!(validate_soap_body(&body(1_000_000)), Ok("QueryPerf"));
    assert_eq!(refusal(&body(1_000_001)), "SOAP body is too large.");
}

#[test]
fn deep_bodies_are_read() {
    let deep = format!("<QueryPerf>{}{}</QueryPerf>", "<a>".repeat(1000), "</a>".repeat(1000));
    assert_eq!(validate_soap_body(&deep), Ok("QueryPerf"));
}

#[test]
fn knows_the_read_operations() {
    for op in [
        "RetrieveServiceContent",
        "RetrievePropertiesEx",
        "ContinueRetrievePropertiesEx",
        "CancelRetrievePropertiesEx",
        "CreateContainerView",
        "DestroyView",
        "QueryPerf",
        "QueryPerfProviderSummary",
        "QueryAvailablePerfMetric",
    ] {
        assert_eq!(read_operation(op), Some(op));
        assert_eq!(read_operation(&op.to_lowercase()), None);
    }
    assert_eq!(read_operation(""), None);
}

/// What comes of reading the events one by one.
fn scan(events: Vec<XmlEvent>) -> Option<Result<&'static str, String>> {
    let mut scan = SoapScan::new();
    for event in events {
        match scan.step(event) {
            SoapStep::More(next) => scan = next,
            SoapStep::Over(answer) => return Some(answer),
        }
    }
    None
}

#[test]
fn reads_events_one_by_one() {
    let start = |name: &str| XmlEvent::Start(name.as_bytes().to_vec());
    assert_eq!(
        scan(vec![start("QueryPerf"), start("Login"), XmlEvent::End, XmlEvent::End, XmlEvent::Eof]),
        Some(Ok("QueryPerf"))
    );
    assert_eq!(
        scan(vec![XmlEvent::End]),
        Some(Err("SOAP body has an unmatched closing tag.".to_owned()))
    );
    assert_eq!(
        scan(vec![XmlEvent::Empty(b"\xff".to_vec())]),
        Some(Err("SOAP operation \"\" is not allowed. The helper only passes read-only property queries.".to_owned()))
    );
    assert_eq!(
        scan(vec![XmlEvent::Malformed("why".to_owned())]),
        Some(Err("SOAP body is not well-formed XML: why".to_owned()))
    );
    assert_eq!(scan(vec![start("QueryPerf"), XmlEvent::Text(b"x".to_vec())]), None);
}
