//! Reading XML with `quick_xml`, one event at a time.

use quick_xml::events::Event;
use quick_xml::Reader;
use vstd::prelude::*;

verus! {

/// One step of reading an XML text.
pub enum XmlEvent {
    /// An opening tag, with its local name: what follows the first `:` of its name.
    Start(Vec<u8>),
    /// A tag that closes itself, with its local name.
    Empty(Vec<u8>),
    /// A closing tag.
    End,
    /// Character data between tags, as it stands in the text.
    Text(Vec<u8>),
    /// A `<![CDATA[...]]>` section.
    CData,
    /// A comment.
    Comment,
    /// An XML declaration, `<?xml ...?>`.
    Decl,
    /// A document type, `<!DOCTYPE ...>`.
    DocType,
    /// A processing instruction, `<?...?>`.
    Pi,
    /// The end of the text.
    Eof,
    /// Something that is not well-formed XML, with the reason.
    Malformed(String),
}

/// What an [`XmlEvent`] says.
#[verifier::ext_equal]
pub enum XmlEventView {
    Start(Seq<u8>),
    Empty(Seq<u8>),
    End,
    Text(Seq<u8>),
    CData,
    Comment,
    Decl,
    DocType,
    Pi,
    Eof,
    Malformed(Seq<char>),
}

impl View for XmlEvent {
    type V = XmlEventView;

    open spec fn view(&self) -> XmlEventView {
        match self {
            XmlEvent::Start(name) => XmlEventView::Start(name@),
            XmlEvent::Empty(name) => XmlEventView::Empty(name@),
            XmlEvent::End => XmlEventView::End,
            XmlEvent::Text(content) => XmlEventView::Text(content@),
            XmlEvent::CData => XmlEventView::CData,
            XmlEvent::Comment => XmlEventView::Comment,
            XmlEvent::Decl => XmlEventView::Decl,
            XmlEvent::DocType => XmlEventView::DocType,
            XmlEvent::Pi => XmlEventView::Pi,
            XmlEvent::Eof => XmlEventView::Eof,
            XmlEvent::Malformed(reason) => XmlEventView::Malformed(reason@),
        }
    }
}

impl XmlEventView {
    /// Whether reading is over: at the end of the text, or where it stops being XML.
    pub open spec fn is_last(self) -> bool {
        self is Eof || self is Malformed
    }
}

/// Whether `events` are what reading a whole text hands out: at least one event, of which the
/// last one and no other is the last of a text.
pub open spec fn is_reading(events: Seq<XmlEventView>) -> bool {
    &&& events.len() > 0
    &&& events.last().is_last()
    &&& forall|i: int| 0 <= i < events.len() - 1 ==> !(#[trigger] events[i]).is_last()
}

/// `quick_xml::Reader`: a text that is being read as XML.
#[verifier::external_type_specification]
#[verifier::external_body]
#[verifier::reject_recursive_types(R)]
pub struct ExReader<R>(quick_xml::Reader<R>);

/// The events that `quick_xml` makes of `text`, up to and including the end of the text or the
/// first place where it is not XML.
pub uninterp spec fn xml_events(text: Seq<char>) -> Seq<XmlEventView>;

/// The events that a reader has yet to hand out, up to and including the last. Of a reader that
/// has handed out the last, nothing is said.
pub uninterp spec fn unread_events(reader: Reader<&[u8]>) -> Seq<XmlEventView>;

/// `quick_xml::Reader::from_str`: a reader at the start of `text`, with the default settings.
///
/// Claimed: it has all of [`xml_events`] to hand out, which are those of a whole text. Each of
/// them but the last takes at least one byte of the text, so there is at most one more of them
/// than there are bytes. The length of the text is limited because the reader counts the nested
/// `<` of a document type in 32 bits.
#[verifier::external_body]
pub(crate) fn xml_reader(text: &str) -> (reader: Reader<&[u8]>)
    requires
        vstd::utf8::encode_utf8(text@).len() <= i32::MAX,
    ensures
        unread_events(reader) == xml_events(text@),
        is_reading(unread_events(reader)),
        unread_events(reader).len() <= vstd::utf8::encode_utf8(text@).len() + 1,
{
    Reader::from_str(text)
}

/// `quick_xml::Reader::read_event`, with the event as plain values. An error stands as its
/// message.
///
/// Claimed: it hands out the first of the events that are left. The others are left then, unless
/// that was the last: a reader goes on behind what is not XML, and hands out the end of the text
/// any number of times.
#[verifier::external_body]
pub(crate) fn read_event(reader: &mut Reader<&[u8]>) -> (event: XmlEvent)
    requires
        unread_events(*old(reader)).len() > 0,
    ensures
        event@ == unread_events(*old(reader))[0],
        !event@.is_last() ==> unread_events(*final(reader)) == unread_events(
            *old(reader),
        ).drop_first(),
{
    match reader.read_event() {
        Ok(event) => match event {
            Event::Start(e) => XmlEvent::Start(e.local_name().as_ref().to_vec()),
            Event::Empty(e) => XmlEvent::Empty(e.local_name().as_ref().to_vec()),
            Event::End(_) => XmlEvent::End,
            Event::Text(e) => XmlEvent::Text(e.to_vec()),
            Event::CData(_) => XmlEvent::CData,
            Event::Comment(_) => XmlEvent::Comment,
            Event::Decl(_) => XmlEvent::Decl,
            Event::DocType(_) => XmlEvent::DocType,
            Event::PI(_) => XmlEvent::Pi,
            Event::Eof => XmlEvent::Eof,
        },
        Err(e) => XmlEvent::Malformed(e.to_string()),
    }
}

} // verus!
