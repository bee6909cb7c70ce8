//! The event source: quick_xml's streaming reader behind trusted items, and
//! a verified loop that collects one document's events.

use vstd::prelude::*;
use quick_xml::events::Event;
use quick_xml::reader::Reader;
use crate::event::is_terminal;
use crate::event::valid_stream;
use crate::event::views_of_events;
use crate::event::XmlEvent;

verus! {

/// quick_xml's streaming reader; opaque to the verifier, which sees the
/// document only through the events handed out one by one.
#[verifier::external_type_specification]
#[verifier::external_body]
#[verifier::reject_recursive_types(R)]
pub struct ExReader<R>(Reader<R>);

/// Relies on quick_xml::reader::Reader::from_str: a reader positioned at the
/// start of the given document text.
#[verifier::external_body]
fn reader_from_str<'a>(xml: &'a str) -> Reader<&'a [u8]> {
    Reader::from_str(xml)
}

/// Relies on quick_xml::reader::Reader::read_event: the next structural
/// event of the document. Element names and text arrive as the bytes that
/// stand in the document; an ill-formed document yields a `Malformed` event,
/// and the document's end yields `Eof`. What comes back depends on the
/// reader's position, so nothing more is promised of any one call.
#[verifier::external_body]
fn next_event(r: &mut Reader<&[u8]>) -> (e: XmlEvent) {
    match r.read_event() {
        Ok(Event::Start(t)) => XmlEvent::Open(t.name().as_ref().as_bytes().to_vec()),
        Ok(Event::End(t)) => XmlEvent::Close(t.name().as_ref().as_bytes().to_vec()),
        Ok(Event::Text(t)) => XmlEvent::Text(t.as_bytes().to_vec()),
        Ok(Event::CData(t)) => XmlEvent::Text(t.as_bytes().to_vec()),
        Ok(Event::Eof) => XmlEvent::Eof,
        Ok(_) => XmlEvent::Other,
        Err(_) => XmlEvent::Malformed,
    }
}

/// Relies on quick_xml::reader::Reader::buffer_position: the byte offset of
/// the document that the reader has consumed up to, reported beside a
/// malformed document's diagnostics.
#[verifier::external_body]
fn reader_position(r: &Reader<&[u8]>) -> u64 {
    r.buffer_position()
}

/// Collects a document's events into a vector that ends with the first
/// terminal event: the document's end or the first syntax error, beside the
/// byte offset the tokenizer stopped at. A reader that hands out more than
/// `fuel` events before a terminal event is reported as malformed rather
/// than read further.
pub fn collect_events(r: &mut Reader<&[u8]>, fuel: usize) -> (out: (Vec<XmlEvent>, u64))
    ensures
        valid_stream(views_of_events(out.0@)),
{
    let mut events: Vec<XmlEvent> = Vec::new();
    let mut i: usize = 0;
    while i < fuel
        invariant
            forall|j: int|
                0 <= j < events@.len() ==> !is_terminal(#[trigger] views_of_events(events@)[j]),
        decreases fuel - i,
    {
        let e = next_event(r);
        let stop = match e {
            XmlEvent::Eof => true,
            XmlEvent::Malformed => true,
            _ => false,
        };
        let ghost before = views_of_events(events@);
        events.push(e);
        proof {
            assert(views_of_events(events@) =~= before.push(e@));
        }
        if stop {
            let pos = reader_position(r);
            return (events, pos);
        }
        i += 1;
    }
    let ghost before = views_of_events(events@);
    events.push(XmlEvent::Malformed);
    proof {
        assert(views_of_events(events@) =~= before.push(crate::event::Ev::Malformed));
    }
    let pos = reader_position(r);
    (events, pos)
}

/// Reads a whole document's events: tokenizes the text from its start and
/// collects events up to the first terminal one, beside the byte offset the
/// tokenizer stopped at.
pub fn read_events(xml: &str) -> (out: (Vec<XmlEvent>, u64))
    ensures
        valid_stream(views_of_events(out.0@)),
{
    let mut r = reader_from_str(xml);
    let len = xml.as_bytes().len();
    let fuel = if len < usize::MAX - 2 {
        len + 2
    } else {
        usize::MAX
    };
    collect_events(&mut r, fuel)
}

} // verus!
