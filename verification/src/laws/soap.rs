//! Which SOAP bodies are let through.

use crate::soap;
use crate::soap::SoapScanView;
use crate::text;
use crate::xml;
use crate::xml::XmlEventView;
use vstd::prelude::*;

verus! {

/// The operations that are let through are these nine and no other.
pub proof fn law_nine_operations_are_let_through(name: Seq<char>)
    ensures
        soap::soap_read_operations().contains(name) <==> {
            ||| name == "RetrieveServiceContent"@ || name == "RetrievePropertiesEx"@
            ||| name == "ContinueRetrievePropertiesEx"@ || name == "CancelRetrievePropertiesEx"@
            ||| name == "CreateContainerView"@ || name == "DestroyView"@
            ||| name == "QueryPerf"@ || name == "QueryPerfProviderSummary"@
            ||| name == "QueryAvailablePerfMetric"@
        },
{
    let all = soap::soap_read_operations();
    assert(all.len() == 9);
    assert(all[0] == "RetrieveServiceContent"@ && all[1] == "RetrievePropertiesEx"@);
    assert(all[2] == "ContinueRetrievePropertiesEx"@ && all[3] == "CancelRetrievePropertiesEx"@);
    assert(all[4] == "CreateContainerView"@ && all[5] == "DestroyView"@ && all[6] == "QueryPerf"@);
    assert(all[7] == "QueryPerfProviderSummary"@ && all[8] == "QueryAvailablePerfMetric"@);
}

/// Bytes are blank exactly where each is a space, a tab, a line feed, a form feed or a carriage
/// return.
pub proof fn law_blank_is_ascii_white_space(bytes: Seq<u8>)
    ensures
        soap::is_blank(bytes) <==> forall|i: int|
            0 <= i < bytes.len() ==> {
                let b = #[trigger] bytes[i];
                b == 32 || b == 9 || b == 10 || b == 12 || b == 13
            },
{
    if soap::is_blank(bytes) {
        assert forall|i: int| 0 <= i < bytes.len() implies {
            let b = #[trigger] bytes[i];
            b == 32 || b == 9 || b == 10 || b == 12 || b == 13
        } by {
            assert(soap::is_ascii_white_space(bytes[i]));
        }
    }
}

/// A body of more than a million bytes is refused unread, and any other is judged by its events.
pub proof fn law_large_bodies_are_refused(body: Seq<char>, events: Seq<XmlEventView>)
    ensures
        vstd::utf8::encode_utf8(body).len() > 1_000_000 ==> soap::soap_verdict(body, events)
            == Err::<Seq<char>, Seq<char>>("SOAP body is too large."@),
        vstd::utf8::encode_utf8(body).len() <= 1_000_000 ==> soap::soap_verdict(body, events)
            == soap::soap_scan(SoapScanView { depth: 0, operation: None }, events),
{
}

/// Inside an element everything is free but declarations: elements are only counted, and text,
/// CDATA, comments and empty elements change nothing.
pub proof fn law_content_of_an_element_is_free(
    depth: nat,
    operation: Option<Seq<char>>,
    name: Seq<u8>,
    rest: Seq<XmlEventView>,
)
    requires
        depth > 0,
    ensures
        ({
            let read = |n: nat, events: Seq<XmlEventView>|
                soap::soap_scan(SoapScanView { depth: n, operation }, events);
            &&& read(depth, seq![XmlEventView::Start(name)] + rest) == read(depth + 1, rest)
            &&& read(depth, seq![XmlEventView::End] + rest) == read((depth - 1) as nat, rest)
            &&& read(depth, seq![XmlEventView::Empty(name)] + rest) == read(depth, rest)
            &&& read(depth, seq![XmlEventView::Text(name)] + rest) == read(depth, rest)
            &&& read(depth, seq![XmlEventView::CData] + rest) == read(depth, rest)
            &&& read(depth, seq![XmlEventView::Comment] + rest) == read(depth, rest)
            &&& read(depth, seq![XmlEventView::Eof] + rest) == Err::<Seq<char>, Seq<char>>(
                "SOAP body is not well-formed XML: unclosed element."@,
            )
        }),
{
    lemma_rest_is_read(XmlEventView::Start(name), rest);
    lemma_rest_is_read(XmlEventView::End, rest);
    lemma_rest_is_read(XmlEventView::Empty(name), rest);
    lemma_rest_is_read(XmlEventView::Text(name), rest);
    lemma_rest_is_read(XmlEventView::CData, rest);
    lemma_rest_is_read(XmlEventView::Comment, rest);
    lemma_rest_is_read(XmlEventView::Eof, rest);
}

proof fn lemma_rest_is_read(event: XmlEventView, rest: Seq<XmlEventView>)
    ensures
        (seq![event] + rest).drop_first() == rest,
        (seq![event] + rest)[0] == event,
        (seq![event] + rest).len() > 0,
{
    assert((seq![event] + rest).drop_first() =~= rest);
}

/// Outside all elements, comments and white space change nothing. Other text, CDATA and a closing
/// tag are refused, and at the end the operation that was seen is the answer.
pub proof fn law_only_white_space_stands_beside_the_operation(
    operation: Option<Seq<char>>,
    bytes: Seq<u8>,
    rest: Seq<XmlEventView>,
)
    ensures
        ({
            let read = |events: Seq<XmlEventView>|
                soap::soap_scan(SoapScanView { depth: 0, operation }, events);
            let outside = Err::<Seq<char>, Seq<char>>(
                "Text outside the operation element is not allowed."@,
            );
            &&& read(seq![XmlEventView::Comment] + rest) == read(rest)
            &&& soap::is_blank(bytes) ==> read(seq![XmlEventView::Text(bytes)] + rest) == read(rest)
            &&& !soap::is_blank(bytes) ==> read(seq![XmlEventView::Text(bytes)] + rest) == outside
            &&& read(seq![XmlEventView::CData] + rest) == outside
            &&& read(seq![XmlEventView::End] + rest) == Err::<Seq<char>, Seq<char>>(
                "SOAP body has an unmatched closing tag."@,
            )
            &&& read(seq![XmlEventView::Eof] + rest) == match operation {
                Some(name) => Ok::<Seq<char>, Seq<char>>(name),
                None => Err("SOAP body must contain one operation element."@),
            }
        }),
{
    lemma_rest_is_read(XmlEventView::Comment, rest);
    lemma_rest_is_read(XmlEventView::Text(bytes), rest);
    lemma_rest_is_read(XmlEventView::CData, rest);
    lemma_rest_is_read(XmlEventView::End, rest);
    lemma_rest_is_read(XmlEventView::Eof, rest);
}

/// The first element outside all others names the operation, which is let through or refused by
/// that name. A second one is refused whatever its name.
pub proof fn law_first_element_names_the_operation(
    name: Seq<char>,
    seen: Seq<char>,
    rest: Seq<XmlEventView>,
)
    ensures
        ({
            let bytes = vstd::utf8::encode_utf8(name);
            let open = seq![XmlEventView::Start(bytes)] + rest;
            let closed = seq![XmlEventView::Empty(bytes)] + rest;
            let fresh = SoapScanView { depth: 0, operation: None };
            let done = SoapScanView { depth: 0, operation: Some(seen) };
            let named = Some(name);
            let second = Err::<Seq<char>, Seq<char>>(
                "SOAP body must contain exactly one operation."@,
            );
            let refused = Err::<Seq<char>, Seq<char>>(
                "SOAP operation \""@ + name
                    + "\" is not allowed. The helper only passes read-only property queries."@,
            );
            let allowed = soap::soap_read_operations().contains(name);
            &&& allowed ==> soap::soap_scan(fresh, open) == soap::soap_scan(
                SoapScanView { depth: 1, operation: named },
                rest,
            )
            &&& allowed ==> soap::soap_scan(fresh, closed) == soap::soap_scan(
                SoapScanView { depth: 0, operation: named },
                rest,
            )
            &&& !allowed ==> soap::soap_scan(fresh, open) == refused && soap::soap_scan(
                fresh,
                closed,
            ) == refused
            &&& soap::soap_scan(done, open) == second && soap::soap_scan(done, closed) == second
        }),
{
    let bytes = vstd::utf8::encode_utf8(name);
    vstd::utf8::encode_utf8_valid_utf8(name);
    vstd::utf8::encode_utf8_decode_utf8(name);
    lemma_rest_is_read(XmlEventView::Start(bytes), rest);
    lemma_rest_is_read(XmlEventView::Empty(bytes), rest);
}

/// Declarations, document types and processing instructions are refused wherever they stand, and so
/// is what is not XML, with the reason.
pub proof fn law_declarations_are_refused_anywhere(
    scan: SoapScanView,
    reason: Seq<char>,
    rest: Seq<XmlEventView>,
)
    ensures
        ({
            let refused = Err::<Seq<char>, Seq<char>>(
                "XML declarations, DOCTYPEs and processing instructions are not allowed."@,
            );
            &&& soap::soap_scan(scan, seq![XmlEventView::Decl] + rest) == refused
            &&& soap::soap_scan(scan, seq![XmlEventView::DocType] + rest) == refused
            &&& soap::soap_scan(scan, seq![XmlEventView::Pi] + rest) == refused
            &&& soap::soap_scan(scan, seq![XmlEventView::Malformed(reason)] + rest) == Err::<
                Seq<char>,
                Seq<char>,
            >("SOAP body is not well-formed XML: "@ + reason)
        }),
{
    lemma_rest_is_read(XmlEventView::Decl, rest);
    lemma_rest_is_read(XmlEventView::DocType, rest);
    lemma_rest_is_read(XmlEventView::Pi, rest);
    lemma_rest_is_read(XmlEventView::Malformed(reason), rest);
}

/// How many elements the first `n` events open and do not close.
pub open spec fn open_elements(events: Seq<XmlEventView>, n: nat) -> int
    decreases n,
{
    if n == 0 {
        0
    } else {
        open_elements(events, (n - 1) as nat) + match events[n - 1] {
            XmlEventView::Start(_) => 1int,
            XmlEventView::End => -1int,
            _ => 0int,
        }
    }
}

/// A body that is let through is well-formed to its end: every element that it opens is closed, no
/// closing tag comes too early, and nothing in it declares anything. The operation is one of those
/// allowed, and an element of the body has its name.
pub proof fn law_let_through_bodies_are_whole(events: Seq<XmlEventView>, operation: Seq<char>)
    requires
        xml::is_reading(events),
        soap::soap_scan(SoapScanView { depth: 0, operation: None }, events) == Ok::<
            Seq<char>,
            Seq<char>,
        >(operation),
    ensures
        events.last() is Eof,
        open_elements(events, (events.len() - 1) as nat) == 0,
        forall|n: nat| n < events.len() ==> #[trigger] open_elements(events, n) >= 0,
        forall|i: int|
            0 <= i < events.len() ==> {
                let event = #[trigger] events[i];
                !(event is Decl || event is DocType || event is Pi || event is Malformed)
            },
        soap::soap_read_operations().contains(operation),
        exists|i: int|
            0 <= i < events.len() && match #[trigger] events[i] {
                XmlEventView::Start(name) => text::utf8_or_empty(name) == operation,
                XmlEventView::Empty(name) => text::utf8_or_empty(name) == operation,
                _ => false,
            },
{
    soap::law_one_operation(events);
    assert(soap::is_one_operation(events, operation));
    lemma_depth_is_open_elements(events, (events.len() - 1) as nat);
    lemma_let_through_in_place(events, operation);
    lemma_let_through_by_one_element(events, operation);
}

/// No element is closed too early, and nothing is declared.
proof fn lemma_let_through_in_place(events: Seq<XmlEventView>, operation: Seq<char>)
    requires
        soap::is_one_operation(events, operation),
    ensures
        forall|n: nat| n < events.len() ==> #[trigger] open_elements(events, n) >= 0,
        forall|i: int|
            0 <= i < events.len() ==> {
                let event = #[trigger] events[i];
                !(event is Decl || event is DocType || event is Pi || event is Malformed)
            },
{
    let last = events.len() - 1;
    assert forall|n: nat| n < events.len() implies #[trigger] open_elements(events, n) >= 0 by {
        lemma_depth_is_open_elements(events, n);
        if n < last {
            assert(soap::is_in_place(events, n as int));
        }
    }
    assert forall|i: int| 0 <= i < events.len() implies {
        let event = #[trigger] events[i];
        !(event is Decl || event is DocType || event is Pi || event is Malformed)
    } by {
        if i < last {
            assert(soap::is_in_place(events, i));
        }
    }
}

/// The one element that stands for the operation is among the events.
proof fn lemma_let_through_by_one_element(events: Seq<XmlEventView>, operation: Seq<char>)
    requires
        xml::is_reading(events),
        soap::is_one_operation(events, operation),
    ensures
        exists|i: int|
            0 <= i < events.len() && match #[trigger] events[i] {
                XmlEventView::Start(name) => text::utf8_or_empty(name) == operation,
                XmlEventView::Empty(name) => text::utf8_or_empty(name) == operation,
                _ => false,
            },
{
    let last = events.len() - 1;
    let k = choose|k: int|
        {
            &&& k < last
            &&& #[trigger] soap::is_top_element(events, k)
            &&& soap::element_name(events[k]) == operation
            &&& forall|j: int| j < last && #[trigger] soap::is_top_element(events, j) ==> j == k
        };
    assert(match events[k] {
        XmlEventView::Start(name) => text::utf8_or_empty(name) == operation,
        XmlEventView::Empty(name) => text::utf8_or_empty(name) == operation,
        _ => false,
    });
}

proof fn lemma_depth_is_open_elements(events: Seq<XmlEventView>, n: nat)
    ensures
        soap::depth_at(events, n) == open_elements(events, n),
    decreases n,
{
    if n > 0 {
        lemma_depth_is_open_elements(events, (n - 1) as nat);
    }
}

} // verus!
