//! Which SOAP bodies may be passed on to a vCenter: one read-only operation and nothing beside it.

use crate::text;
use crate::xml;
use crate::xml::{XmlEvent, XmlEventView};
use vstd::prelude::*;
use vstd::string::StringExecFns;

verus! {

/// The largest SOAP body that is looked at, in bytes.
pub const SOAP_BODY_LIMIT: usize = 1_000_000;

/// SOAP operations the pass-through allows. All are read-only: property retrieval plus the
/// session-scoped container views it uses, and the performance manager's counter metadata and
/// samples. Login and Logout stay with the helper.
pub open spec fn soap_read_operations() -> Seq<Seq<char>> {
    seq![
        "RetrieveServiceContent"@,
        "RetrievePropertiesEx"@,
        "ContinueRetrievePropertiesEx"@,
        "CancelRetrievePropertiesEx"@,
        "CreateContainerView"@,
        "DestroyView"@,
        "QueryPerf"@,
        "QueryPerfProviderSummary"@,
        "QueryAvailablePerfMetric"@,
    ]
}

/// The allowed operation called `name`, if there is one.
pub fn read_operation(name: &str) -> (operation: Option<&'static str>)
    ensures
        operation is Some <==> soap_read_operations().contains(name@),
        operation matches Some(op) ==> op@ == name@,
{
    let operations: [&'static str; 9] = [
        "RetrieveServiceContent",
        "RetrievePropertiesEx",
        "ContinueRetrievePropertiesEx",
        "CancelRetrievePropertiesEx",
        "CreateContainerView",
        "DestroyView",
        "QueryPerf",
        "QueryPerfProviderSummary",
        "QueryAvailablePerfMetric",
    ];
    let ghost allowed = soap_read_operations();
    assert(forall|j: int| 0 <= j < 9 ==> operations@[j]@ == #[trigger] allowed[j]);
    for i in 0..9usize
        invariant
            allowed == soap_read_operations(),
            allowed.len() == 9,
            forall|j: int| 0 <= j < 9 ==> operations@[j]@ == #[trigger] allowed[j],
            forall|j: int| 0 <= j < i ==> #[trigger] allowed[j] != name@,
    {
        if text::same_text(operations[i], name) {
            assert(allowed[i as int] == name@);
            return Some(operations[i]);
        }
    }
    None
}

/// Whether `b` is ASCII white space.
pub open spec fn is_ascii_white_space(b: u8) -> bool {
    b == 0x20 || b == 0x09 || b == 0x0a || b == 0x0c || b == 0x0d
}

/// Whether `bytes` holds nothing but ASCII white space.
pub open spec fn is_blank(bytes: Seq<u8>) -> bool {
    forall|i: int| 0 <= i < bytes.len() ==> is_ascii_white_space(#[trigger] bytes[i])
}

/// Whether `bytes` holds nothing but ASCII white space.
pub fn all_blank(bytes: &Vec<u8>) -> (blank: bool)
    ensures
        blank == is_blank(bytes@),
{
    for i in 0..bytes.len()
        invariant
            forall|j: int| 0 <= j < i ==> is_ascii_white_space(#[trigger] bytes@[j]),
    {
        let b = bytes[i];
        if !(b == 0x20 || b == 0x09 || b == 0x0a || b == 0x0c || b == 0x0d) {
            assert(!is_ascii_white_space(bytes@[i as int]));
            return false;
        }
    }
    true
}

/// How far the reading of a SOAP body has come.
#[verifier::ext_equal]
pub struct SoapScanView {
    /// How many elements are open.
    pub depth: nat,
    /// The operation that the body asks for, once it has been seen.
    pub operation: Option<Seq<char>>,
}

/// What comes of reading one more event: the scan goes on, or is over with an operation or with
/// the reason why the body is refused.
pub enum SoapStepView {
    More(SoapScanView),
    Over(Result<Seq<char>, Seq<char>>),
}

/// The reason for refusing the operation `name`.
pub open spec fn operation_refused(name: Seq<char>) -> Seq<char> {
    "SOAP operation \""@ + name
        + "\" is not allowed. The helper only passes read-only property queries."@
}

/// The scan after a top-level element called `name`, which leaves `open` elements open.
pub open spec fn after_top_level(scan: SoapScanView, name: Seq<char>, open: nat) -> SoapStepView {
    if scan.operation is Some {
        SoapStepView::Over(Err("SOAP body must contain exactly one operation."@))
    } else if soap_read_operations().contains(name) {
        SoapStepView::More(SoapScanView { depth: open, operation: Some(name) })
    } else {
        SoapStepView::Over(Err(operation_refused(name)))
    }
}

/// What reading `event` does to a scan.
pub open spec fn soap_step(scan: SoapScanView, event: XmlEventView) -> SoapStepView {
    let top = scan.depth == 0;
    match event {
        XmlEventView::Start(name) => if top {
            after_top_level(scan, text::utf8_or_empty(name), 1)
        } else {
            SoapStepView::More(SoapScanView { depth: scan.depth + 1, ..scan })
        },
        XmlEventView::Empty(name) => if top {
            after_top_level(scan, text::utf8_or_empty(name), 0)
        } else {
            SoapStepView::More(scan)
        },
        XmlEventView::End => if top {
            SoapStepView::Over(Err("SOAP body has an unmatched closing tag."@))
        } else {
            SoapStepView::More(SoapScanView { depth: (scan.depth - 1) as nat, ..scan })
        },
        XmlEventView::Text(content) => if top && !is_blank(content) {
            SoapStepView::Over(Err("Text outside the operation element is not allowed."@))
        } else {
            SoapStepView::More(scan)
        },
        XmlEventView::CData => if top {
            SoapStepView::Over(Err("Text outside the operation element is not allowed."@))
        } else {
            SoapStepView::More(scan)
        },
        XmlEventView::Comment => SoapStepView::More(scan),
        XmlEventView::Decl | XmlEventView::DocType | XmlEventView::Pi => SoapStepView::Over(
            Err("XML declarations, DOCTYPEs and processing instructions are not allowed."@),
        ),
        XmlEventView::Eof => if !top {
            SoapStepView::Over(Err("SOAP body is not well-formed XML: unclosed element."@))
        } else {
            match scan.operation {
                Some(operation) => SoapStepView::Over(Ok(operation)),
                None => SoapStepView::Over(Err("SOAP body must contain one operation element."@)),
            }
        },
        XmlEventView::Malformed(reason) => SoapStepView::Over(
            Err("SOAP body is not well-formed XML: "@ + reason),
        ),
    }
}

/// What comes of reading `events` from `scan` on: the outcome of the first event at which the
/// scan is over. Events that end without one hold no verdict, which reads as refused.
pub open spec fn soap_scan(scan: SoapScanView, events: Seq<XmlEventView>) -> Result<
    Seq<char>,
    Seq<char>,
>
    decreases events.len(),
{
    if events.len() == 0 {
        Err(seq![])
    } else {
        match soap_step(scan, events[0]) {
            SoapStepView::More(next) => soap_scan(next, events.drop_first()),
            SoapStepView::Over(verdict) => verdict,
        }
    }
}

/// A scan that has read nothing.
pub open spec fn soap_scan_start() -> SoapScanView {
    SoapScanView { depth: 0, operation: None }
}

/// The verdict on the SOAP body `body`, which reads as `events`: the operation it asks for, or
/// why it is refused.
pub open spec fn soap_verdict(body: Seq<char>, events: Seq<XmlEventView>) -> Result<
    Seq<char>,
    Seq<char>,
> {
    if vstd::utf8::encode_utf8(body).len() > SOAP_BODY_LIMIT {
        Err("SOAP body is too large."@)
    } else {
        soap_scan(soap_scan_start(), events)
    }
}

/// Whether an answer says what `verdict` says.
pub open spec fn answers(
    answer: Result<&'static str, String>,
    verdict: Result<Seq<char>, Seq<char>>,
) -> bool {
    match (answer, verdict) {
        (Ok(operation), Ok(expected)) => operation@ == expected,
        (Err(message), Err(expected)) => message@ == expected,
        _ => false,
    }
}

/// A SOAP body that is being read.
pub struct SoapScan {
    depth: usize,
    operation: Option<&'static str>,
}

impl View for SoapScan {
    type V = SoapScanView;

    closed spec fn view(&self) -> SoapScanView {
        SoapScanView {
            depth: self.depth as nat,
            operation: match self.operation {
                Some(operation) => Some(operation@),
                None => None,
            },
        }
    }
}

/// What comes of handing one event to a [`SoapScan`].
pub enum SoapStep {
    /// The scan goes on.
    More(SoapScan),
    /// The scan is over.
    Over(Result<&'static str, String>),
}

impl SoapStep {
    /// Whether this says what `step` says.
    pub open spec fn says(self, step: SoapStepView) -> bool {
        match (self, step) {
            (SoapStep::More(scan), SoapStepView::More(next)) => scan@ == next,
            (SoapStep::Over(answer), SoapStepView::Over(verdict)) => answers(answer, verdict),
            _ => false,
        }
    }
}

/// A refusal with a fixed message.
fn refused(message: &str) -> (step: SoapStep)
    ensures
        step.says(SoapStepView::Over(Err(message@))),
{
    SoapStep::Over(Err(message.to_owned()))
}

impl SoapScan {
    /// A scan that has read nothing.
    pub fn new() -> (scan: Self)
        ensures
            scan@ == soap_scan_start(),
    {
        SoapScan { depth: 0, operation: None }
    }

    /// The operation named by a top-level element, which leaves `open` elements open.
    fn top_level(self, name: Vec<u8>, open: usize) -> (step: SoapStep)
        ensures
            step.says(after_top_level(self@, text::utf8_or_empty(name@), open as nat)),
    {
        if self.operation.is_some() {
            return refused("SOAP body must contain exactly one operation.");
        }
        let name = text::utf8_text(&name);
        match read_operation(&name) {
            Some(operation) => SoapStep::More(SoapScan { depth: open, operation: Some(operation) }),
            None => SoapStep::Over(
                Err(
                    "SOAP operation \"".to_owned().concat(&name).concat(
                        "\" is not allowed. The helper only passes read-only property queries.",
                    ),
                ),
            ),
        }
    }

    /// Reads one more event.
    pub fn step(self, event: XmlEvent) -> (step: SoapStep)
        requires
            self@.depth < usize::MAX,
        ensures
            step.says(soap_step(self@, event@)),
    {
        match event {
            XmlEvent::Start(name) => if self.depth == 0 {
                self.top_level(name, 1)
            } else {
                SoapStep::More(SoapScan { depth: self.depth + 1, operation: self.operation })
            },
            XmlEvent::Empty(name) => if self.depth == 0 {
                self.top_level(name, 0)
            } else {
                SoapStep::More(self)
            },
            XmlEvent::End => if self.depth == 0 {
                refused("SOAP body has an unmatched closing tag.")
            } else {
                SoapStep::More(SoapScan { depth: self.depth - 1, operation: self.operation })
            },
            XmlEvent::Text(content) => if self.depth == 0 && !all_blank(&content) {
                refused("Text outside the operation element is not allowed.")
            } else {
                SoapStep::More(self)
            },
            XmlEvent::CData => if self.depth == 0 {
                refused("Text outside the operation element is not allowed.")
            } else {
                SoapStep::More(self)
            },
            XmlEvent::Comment => SoapStep::More(self),
            XmlEvent::Decl | XmlEvent::DocType | XmlEvent::Pi => refused(
                "XML declarations, DOCTYPEs and processing instructions are not allowed.",
            ),
            XmlEvent::Eof => if self.depth != 0 {
                refused("SOAP body is not well-formed XML: unclosed element.")
            } else {
                match self.operation {
                    Some(operation) => SoapStep::Over(Ok(operation)),
                    None => refused("SOAP body must contain one operation element."),
                }
            },
            XmlEvent::Malformed(reason) => SoapStep::Over(
                Err("SOAP body is not well-formed XML: ".to_owned().concat(&reason)),
            ),
        }
    }
}

/// How much deeper an event leads.
pub open spec fn descent(event: XmlEventView) -> int {
    match event {
        XmlEventView::Start(_) => 1,
        XmlEventView::End => -1,
        _ => 0,
    }
}

/// How many elements are open before the event at `i`.
pub open spec fn depth_at(events: Seq<XmlEventView>, i: nat) -> int
    decreases i,
{
    if i == 0 {
        0
    } else {
        depth_at(events, (i - 1) as nat) + descent(events[i - 1])
    }
}

/// Whether the event at `i` is an element that stands in no other.
pub open spec fn is_top_element(events: Seq<XmlEventView>, i: int) -> bool {
    &&& 0 <= i < events.len()
    &&& depth_at(events, i as nat) == 0
    &&& events[i] is Start || events[i] is Empty
}

/// The local name of an element.
pub open spec fn element_name(event: XmlEventView) -> Seq<char> {
    match event {
        XmlEventView::Start(name) => text::utf8_or_empty(name),
        XmlEventView::Empty(name) => text::utf8_or_empty(name),
        _ => seq![],
    }
}

/// Whether the event at `i` may stand where it does: no declaration, document type or processing
/// instruction anywhere, and outside the elements nothing but elements, comments and white space.
pub open spec fn is_in_place(events: Seq<XmlEventView>, i: int) -> bool {
    let event = events[i];
    &&& !(event is Decl || event is DocType || event is Pi || event.is_last())
    &&& depth_at(events, i as nat) >= 0
    &&& depth_at(events, i as nat) == 0 ==> {
        &&& !(event is End || event is CData)
        &&& event matches XmlEventView::Text(content) ==> is_blank(content)
    }
}

/// Whether the one element outside all others, among those before `end`, is called `operation`.
pub open spec fn is_only_top_element(
    events: Seq<XmlEventView>,
    end: int,
    operation: Seq<char>,
) -> bool {
    exists|k: int|
        {
            &&& k < end
            &&& #[trigger] is_top_element(events, k)
            &&& element_name(events[k]) == operation
            &&& forall|j: int| j < end && #[trigger] is_top_element(events, j) ==> j == k
        }
}

/// Whether `events` are one allowed operation, with every element closed and nothing beside it.
pub open spec fn is_one_operation(events: Seq<XmlEventView>, operation: Seq<char>) -> bool {
    let last = events.len() - 1;
    &&& events.len() > 0
    &&& events[last] is Eof
    &&& depth_at(events, last as nat) == 0
    &&& forall|i: int| 0 <= i < last ==> #[trigger] is_in_place(events, i)
    &&& is_only_top_element(events, last, operation)
    &&& soap_read_operations().contains(operation)
}

/// A SOAP body is let through exactly where it is one allowed operation with nothing beside it:
/// no second operation, no text outside it, no unclosed element or stray closing tag, no
/// declaration, document type or processing instruction. The answer is that operation.
pub proof fn law_one_operation(events: Seq<XmlEventView>)
    requires
        xml::is_reading(events),
    ensures
        forall|operation: Seq<char>|
            soap_scan(soap_scan_start(), events) == Ok::<Seq<char>, Seq<char>>(operation)
                <==> #[trigger] is_one_operation(events, operation),
{
    assert(events.skip(0) == events);
    assert forall|operation: Seq<char>|
        soap_scan(soap_scan_start(), events) == Ok::<Seq<char>, Seq<char>>(operation)
            <==> #[trigger] is_one_operation(events, operation) by {
        lemma_scan_from(events, 0, soap_scan_start(), operation);
    }
}

/// Whether `scan` is where the events before `i` lead.
spec fn is_scan_at(events: Seq<XmlEventView>, i: nat, scan: SoapScanView) -> bool {
    &&& scan.depth == depth_at(events, i)
    &&& forall|j: int| 0 <= j < i ==> #[trigger] is_in_place(events, j)
    &&& match scan.operation {
        None => forall|j: int| j < i ==> !#[trigger] is_top_element(events, j),
        Some(name) => is_only_top_element(events, i as int, name)
            && soap_read_operations().contains(name),
    }
}

proof fn lemma_scan_from(
    events: Seq<XmlEventView>,
    i: nat,
    scan: SoapScanView,
    operation: Seq<char>,
)
    requires
        xml::is_reading(events),
        i < events.len(),
        is_scan_at(events, i, scan),
    ensures
        soap_scan(scan, events.skip(i as int)) == Ok::<Seq<char>, Seq<char>>(operation)
            <==> is_one_operation(events, operation),
    decreases events.len() - i,
{
    let rest = events.skip(i as int);
    let event = events[i as int];
    let last = events.len() - 1;
    assert(rest[0] == event);
    assert(rest.drop_first() == events.skip(i as int + 1));
    if i == last {
        assert(event.is_last());
    } else {
        assert(!event.is_last());
        match soap_step(scan, event) {
            SoapStepView::More(next) => {
                assert(is_in_place(events, i as int));
                assert(depth_at(events, i + 1) == next.depth);
                assert(is_scan_at(events, i + 1, next)) by {
                    if is_top_element(events, i as int) {
                        assert(element_name(events[i as int]) == next.operation->0);
                    }
                }
                lemma_scan_from(events, i + 1, next, operation);
            },
            SoapStepView::Over(verdict) => {
                assert(verdict is Err);
                if is_one_operation(events, operation) {
                    assert(is_in_place(events, i as int));
                    assert(is_top_element(events, i as int));
                }
            },
        }
    }
}

/// Parses the body as XML and requires exactly one top-level element naming an allowed
/// operation, so nothing else can be smuggled into the envelope.
pub fn validate_soap_body(body: &str) -> (answer: Result<&'static str, String>)
    ensures
        answers(answer, soap_verdict(body@, xml::xml_events(body@))),
        forall|operation: Seq<char>|
            #![trigger is_one_operation(xml::xml_events(body@), operation)]
            (answer matches Ok(found) && found@ == operation) <==> {
                &&& vstd::utf8::encode_utf8(body@).len() <= SOAP_BODY_LIMIT
                &&& is_one_operation(xml::xml_events(body@), operation)
            },
{
    if body.as_bytes().len() > SOAP_BODY_LIMIT {
        return Err("SOAP body is too large.".to_owned());
    }
    let mut reader = xml::xml_reader(body);
    let mut scan = SoapScan::new();
    let ghost total = xml::unread_events(reader).len();
    proof {
        law_one_operation(xml::xml_events(body@));
    }
    loop
        invariant
            vstd::utf8::encode_utf8(body@).len() <= SOAP_BODY_LIMIT,
            xml::is_reading(xml::unread_events(reader)),
            xml::unread_events(reader).len() <= total <= SOAP_BODY_LIMIT + 1,
            forall|operation: Seq<char>|
                soap_scan(soap_scan_start(), xml::xml_events(body@)) == Ok::<Seq<char>, Seq<char>>(
                    operation,
                ) <==> #[trigger] is_one_operation(xml::xml_events(body@), operation),
            scan@.depth + xml::unread_events(reader).len() <= total,
            soap_scan(scan@, xml::unread_events(reader)) == soap_verdict(body@, xml::xml_events(body@)),
        decreases xml::unread_events(reader).len(),
    {
        let ghost left = xml::unread_events(reader);
        let event = xml::read_event(&mut reader);
        assert(!event@.is_last() ==> xml::unread_events(reader).last() == left.last());
        match scan.step(event) {
            SoapStep::More(next) => {
                scan = next;
            },
            SoapStep::Over(answer) => {
                return answer;
            },
        }
    }
}

} // verus!
