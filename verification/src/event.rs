//! The structural events of a feed document, as the scanner sees them.

use vstd::prelude::*;

verus! {

/// One structural event of an XML document: an element opens, an element
/// closes, character data appears, the document ends, the tokenizer reports
/// a syntax error, or something the scanner ignores (comments, declarations,
/// processing instructions, empty elements) goes by.
pub enum XmlEvent {
    /// An element opened; the payload is its tag name.
    Open(Vec<u8>),
    /// An element closed; the payload is its tag name.
    Close(Vec<u8>),
    /// Character data; the payload is its bytes.
    Text(Vec<u8>),
    /// The end of the document.
    Eof,
    /// The tokenizer found the document ill-formed at this point.
    Malformed,
    /// Any other event; the scanner passes over it.
    Other,
}

/// The mathematical form of an `XmlEvent`.
#[verifier::ext_equal]
pub enum Ev {
    Open(Seq<u8>),
    Close(Seq<u8>),
    Text(Seq<u8>),
    Eof,
    Malformed,
    Other,
}

impl View for XmlEvent {
    type V = Ev;

    open spec fn view(&self) -> Ev {
        match self {
            XmlEvent::Open(t) => Ev::Open(t@),
            XmlEvent::Close(t) => Ev::Close(t@),
            XmlEvent::Text(t) => Ev::Text(t@),
            XmlEvent::Eof => Ev::Eof,
            XmlEvent::Malformed => Ev::Malformed,
            XmlEvent::Other => Ev::Other,
        }
    }
}

/// The views of a sequence of events.
pub open spec fn views_of_events(evs: Seq<XmlEvent>) -> Seq<Ev> {
    evs.map_values(|e: XmlEvent| e@)
}

/// Whether an event ends a document stream: the end of input or a syntax
/// error, after either of which a tokenizer yields nothing further.
pub open spec fn is_terminal(e: Ev) -> bool {
    e is Eof || e is Malformed
}

/// A well-formed event stream: non-empty, ends with a terminal event, and
/// holds no terminal event before its last position.
pub open spec fn valid_stream(evs: Seq<Ev>) -> bool {
    &&& evs.len() > 0
    &&& is_terminal(evs.last())
    &&& forall|i: int| 0 <= i < evs.len() - 1 ==> !is_terminal(#[trigger] evs[i])
}

} // verus!
