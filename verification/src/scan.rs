//! The verified extraction scanner: a state machine over structural events
//! that accumulates the fields of each entry scope, skips unrecognized
//! elements, consumes nested scopes, and promotes an entry exactly when every
//! required field was set before the scope closed.

use vstd::prelude::*;
use crate::bytes::bytes_eq;
use crate::bytes::push_all;
use crate::bytes::trim;
use crate::bytes::trim_bytes;
use crate::entry::all_set;
use crate::entry::complete;
use crate::entry::completed_model;
use crate::entry::empty_model;
use crate::entry::Entry;
use crate::entry::EntryModel;
use crate::entry::EntryOptional;
use crate::entry::EntryOptionalModel;
use crate::event::Ev;
use crate::event::views_of_events;
use crate::event::XmlEvent;
use crate::tags::author_bytes;
use crate::tags::channel_id_bytes;
use crate::tags::entry_bytes;
use crate::tags::name_bytes;
use crate::tags::published_bytes;
use crate::tags::tag_author;
use crate::tags::tag_channel_id;
use crate::tags::tag_entry;
use crate::tags::tag_name;
use crate::tags::tag_published;
use crate::tags::tag_title;
use crate::tags::tag_video_id;
use crate::tags::title_bytes;
use crate::tags::video_id_bytes;

verus! {

/// The required fields of an entry that are read directly from a child
/// element's text.
#[derive(Clone, Copy, PartialEq, Eq, Structural)]
pub enum Field {
    VideoId,
    ChannelId,
    Title,
    Published,
}

/// The element name that fills a field.
pub open spec fn field_tag(f: Field) -> Seq<u8> {
    match f {
        Field::VideoId => tag_video_id(),
        Field::ChannelId => tag_channel_id(),
        Field::Title => tag_title(),
        Field::Published => tag_published(),
    }
}

/// The byte form of the element name that fills a field.
pub fn field_tag_bytes(f: Field) -> (r: Vec<u8>)
    ensures
        r@ == field_tag(f),
{
    match f {
        Field::VideoId => video_id_bytes(),
        Field::ChannelId => channel_id_bytes(),
        Field::Title => title_bytes(),
        Field::Published => published_bytes(),
    }
}

/// Where the scanner stands in the document.
pub enum Mode {
    /// Between entry scopes, looking for the next one.
    Top,
    /// Inside an entry scope, dispatching on child elements.
    InEntry,
    /// Inside a field element of an entry, collecting its text; `depth`
    /// counts nested elements of the same name.
    InField { field: Field, depth: usize, text: Vec<u8> },
    /// Inside an author scope, looking for its `name` child.
    InAuthor { name: Option<Vec<u8>> },
    /// Inside the `name` element of an author scope, collecting its text.
    InAuthorName { depth: usize, text: Vec<u8> },
}

/// The mathematical form of a `Mode`.
#[verifier::ext_equal]
pub enum ModeModel {
    Top,
    InEntry,
    InField { field: Field, depth: nat, text: Seq<u8> },
    InAuthor { name: Option<Seq<u8>> },
    InAuthorName { depth: nat, text: Seq<u8> },
}

impl View for Mode {
    type V = ModeModel;

    open spec fn view(&self) -> ModeModel {
        match self {
            Mode::Top => ModeModel::Top,
            Mode::InEntry => ModeModel::InEntry,
            Mode::InField { field, depth, text } => ModeModel::InField {
                field: *field,
                depth: *depth as nat,
                text: text@,
            },
            Mode::InAuthor { name } => ModeModel::InAuthor {
                name: crate::entry::view_of_opt(*name),
            },
            Mode::InAuthorName { depth, text } => ModeModel::InAuthorName {
                depth: *depth as nat,
                text: text@,
            },
        }
    }
}

/// The record with the given field set to the given text.
pub open spec fn set_field(m: EntryOptionalModel, f: Field, v: Seq<u8>) -> EntryOptionalModel {
    match f {
        Field::VideoId => EntryOptionalModel { video_id: Option::Some(v), ..m },
        Field::ChannelId => EntryOptionalModel { channel_id: Option::Some(v), ..m },
        Field::Title => EntryOptionalModel { title: Option::Some(v), ..m },
        Field::Published => EntryOptionalModel { published: Option::Some(v), ..m },
    }
}

/// Sets one field of the record, overwriting any prior value.
pub fn set_field_exec(m: EntryOptional, f: Field, v: Vec<u8>) -> (r: EntryOptional)
    ensures
        r@ == set_field(m@, f, v@),
{
    match f {
        Field::VideoId => EntryOptional { video_id: Some(v), ..m },
        Field::ChannelId => EntryOptional { channel_id: Some(v), ..m },
        Field::Title => EntryOptional { title: Some(v), ..m },
        Field::Published => EntryOptional { published: Some(v), ..m },
    }
}

/// The scanner over one document's events.
pub struct Scanner {
    pub mode: Mode,
    pub acc: EntryOptional,
    pub entries: Vec<Entry>,
    pub malformed: bool,
}

/// The mathematical form of a `Scanner`.
#[verifier::ext_equal]
pub struct ScannerModel {
    pub mode: ModeModel,
    pub acc: EntryOptionalModel,
    pub entries: Seq<EntryModel>,
    pub malformed: bool,
}

/// The views of a sequence of completed entries.
pub open spec fn views_of_entries(es: Seq<Entry>) -> Seq<EntryModel> {
    es.map_values(|e: Entry| e@)
}

impl View for Scanner {
    type V = ScannerModel;

    open spec fn view(&self) -> ScannerModel {
        ScannerModel {
            mode: self.mode@,
            acc: self.acc@,
            entries: views_of_entries(self.entries@),
            malformed: self.malformed,
        }
    }
}

/// The scanner's state before any event: at top level, no field set, no
/// entry extracted, nothing wrong.
pub open spec fn init_model() -> ScannerModel {
    ScannerModel {
        mode: ModeModel::Top,
        acc: empty_model(),
        entries: Seq::empty(),
        malformed: false,
    }
}

/// How many nested same-named elements the scanner currently counts.
pub open spec fn mode_depth(m: ModeModel) -> nat {
    match m {
        ModeModel::InField { depth, .. } => depth,
        ModeModel::InAuthorName { depth, .. } => depth,
        _ => 0,
    }
}

/// One step of the scanner: the state after reading one event.
///
/// At top level, only the opening of an entry scope matters; its record
/// starts with every field unset. Inside an entry, a known field element
/// starts text collection, an author element opens its nested scope, an
/// unrecognized element is passed over without recursion, and the scope's
/// own close promotes the record exactly when every required field is set.
/// The end of input or a tokenizer error inside any open scope marks the
/// document malformed, and a malformed scanner ignores all further events.
pub open spec fn step(s: ScannerModel, e: Ev) -> ScannerModel {
    if s.malformed {
        s
    } else {
        match s.mode {
            ModeModel::Top => match e {
                Ev::Open(t) => if t == tag_entry() {
                    ScannerModel { mode: ModeModel::InEntry, acc: empty_model(), ..s }
                } else {
                    s
                },
                Ev::Malformed => ScannerModel { malformed: true, ..s },
                _ => s,
            },
            ModeModel::InEntry => match e {
                Ev::Open(t) => if t == tag_video_id() {
                    ScannerModel {
                        mode: ModeModel::InField {
                            field: Field::VideoId,
                            depth: 0,
                            text: Seq::empty(),
                        },
                        ..s
                    }
                } else if t == tag_channel_id() {
                    ScannerModel {
                        mode: ModeModel::InField {
                            field: Field::ChannelId,
                            depth: 0,
                            text: Seq::empty(),
                        },
                        ..s
                    }
                } else if t == tag_title() {
                    ScannerModel {
                        mode: ModeModel::InField {
                            field: Field::Title,
                            depth: 0,
                            text: Seq::empty(),
                        },
                        ..s
                    }
                } else if t == tag_published() {
                    ScannerModel {
                        mode: ModeModel::InField {
                            field: Field::Published,
                            depth: 0,
                            text: Seq::empty(),
                        },
                        ..s
                    }
                } else if t == tag_author() {
                    ScannerModel { mode: ModeModel::InAuthor { name: Option::None }, ..s }
                } else {
                    s
                },
                Ev::Close(t) => if t == tag_entry() {
                    ScannerModel {
                        mode: ModeModel::Top,
                        acc: empty_model(),
                        entries: if all_set(s.acc) {
                            s.entries.push(completed_model(s.acc))
                        } else {
                            s.entries
                        },
                        ..s
                    }
                } else {
                    s
                },
                Ev::Eof => ScannerModel { malformed: true, ..s },
                Ev::Malformed => ScannerModel { malformed: true, ..s },
                _ => s,
            },
            ModeModel::InField { field, depth, text } => match e {
                Ev::Open(t) => if t == field_tag(field) {
                    ScannerModel {
                        mode: ModeModel::InField { field, depth: depth + 1, text },
                        ..s
                    }
                } else {
                    s
                },
                Ev::Close(t) => if t == field_tag(field) {
                    if depth == 0 {
                        ScannerModel {
                            mode: ModeModel::InEntry,
                            acc: set_field(s.acc, field, trim(text)),
                            ..s
                        }
                    } else {
                        ScannerModel {
                            mode: ModeModel::InField {
                                field,
                                depth: (depth - 1) as nat,
                                text,
                            },
                            ..s
                        }
                    }
                } else {
                    s
                },
                Ev::Text(t) => ScannerModel {
                    mode: ModeModel::InField { field, depth, text: text + t },
                    ..s
                },
                Ev::Eof => ScannerModel { malformed: true, ..s },
                Ev::Malformed => ScannerModel { malformed: true, ..s },
                _ => s,
            },
            ModeModel::InAuthor { name } => match e {
                Ev::Open(t) => if t == tag_name() {
                    ScannerModel {
                        mode: ModeModel::InAuthorName { depth: 0, text: Seq::empty() },
                        ..s
                    }
                } else {
                    s
                },
                Ev::Close(t) => if t == tag_author() {
                    ScannerModel {
                        mode: ModeModel::InEntry,
                        acc: match name {
                            Option::Some(n) => set_field_author(s.acc, n),
                            Option::None => s.acc,
                        },
                        ..s
                    }
                } else {
                    s
                },
                Ev::Eof => ScannerModel { malformed: true, ..s },
                Ev::Malformed => ScannerModel { malformed: true, ..s },
                _ => s,
            },
            ModeModel::InAuthorName { depth, text } => match e {
                Ev::Open(t) => if t == tag_name() {
                    ScannerModel {
                        mode: ModeModel::InAuthorName { depth: depth + 1, text },
                        ..s
                    }
                } else {
                    s
                },
                Ev::Close(t) => if t == tag_name() {
                    if depth == 0 {
                        ScannerModel {
                            mode: ModeModel::InAuthor { name: Option::Some(trim(text)) },
                            ..s
                        }
                    } else {
                        ScannerModel {
                            mode: ModeModel::InAuthorName { depth: (depth - 1) as nat, text },
                            ..s
                        }
                    }
                } else {
                    s
                },
                Ev::Text(t) => ScannerModel {
                    mode: ModeModel::InAuthorName { depth, text: text + t },
                    ..s
                },
                Ev::Eof => ScannerModel { malformed: true, ..s },
                Ev::Malformed => ScannerModel { malformed: true, ..s },
                _ => s,
            },
        }
    }
}

/// The record with its author field set.
pub open spec fn set_field_author(m: EntryOptionalModel, v: Seq<u8>) -> EntryOptionalModel {
    EntryOptionalModel { author: Option::Some(v), ..m }
}

/// The scanner's state after reading a sequence of events from state `s`.
pub open spec fn run_from(s: ScannerModel, evs: Seq<Ev>) -> ScannerModel
    decreases evs.len(),
{
    if evs.len() == 0 {
        s
    } else {
        run_from(step(s, evs[0]), evs.drop_first())
    }
}

/// The scanner's state after reading a whole document's events.
pub open spec fn scan_spec(evs: Seq<Ev>) -> ScannerModel {
    run_from(init_model(), evs)
}

/// One step never raises the nesting count by more than one.
proof fn lemma_step_depth(s: ScannerModel, e: Ev)
    ensures
        mode_depth(step(s, e).mode) <= mode_depth(s.mode) + 1,
{
}

impl Scanner {
    /// A scanner before any event.
    pub fn new() -> (r: Scanner)
        ensures
            r@ == init_model(),
    {
        let r = Scanner {
            mode: Mode::Top,
            acc: EntryOptional::new(),
            entries: Vec::new(),
            malformed: false,
        };
        assert(r@ =~= init_model());
        r
    }
}

/// Advances the scanner by one event.
pub fn scan_step(s: Scanner, e: &XmlEvent) -> (r: Scanner)
    requires
        mode_depth(s@.mode) < usize::MAX,
    ensures
        r@ == step(s@, e@),
{
    let ghost s0 = s@;
    if s.malformed {
        return s;
    }
    let Scanner { mode, acc, entries, malformed } = s;
    match mode {
        Mode::Top => match e {
            XmlEvent::Open(t) => {
                let tag = entry_bytes();
                if bytes_eq(t.as_slice(), tag.as_slice()) {
                    let r = Scanner { mode: Mode::InEntry, acc: EntryOptional::new(), entries, malformed };
                    assert(r@ =~= step(s0, e@));
                    r
                } else {
                    let r = Scanner { mode: Mode::Top, acc, entries, malformed };
                    assert(r@ =~= step(s0, e@));
                    r
                }
            },
            XmlEvent::Malformed => {
                let r = Scanner { mode: Mode::Top, acc, entries, malformed: true };
                assert(r@ =~= step(s0, e@));
                r
            },
            _ => {
                let r = Scanner { mode: Mode::Top, acc, entries, malformed };
                assert(r@ =~= step(s0, e@));
                r
            },
        },
        Mode::InEntry => match e {
            XmlEvent::Open(t) => {
                let next_mode: Mode = if bytes_eq(t.as_slice(), video_id_bytes().as_slice()) {
                    Mode::InField { field: Field::VideoId, depth: 0, text: Vec::new() }
                } else if bytes_eq(t.as_slice(), channel_id_bytes().as_slice()) {
                    Mode::InField { field: Field::ChannelId, depth: 0, text: Vec::new() }
                } else if bytes_eq(t.as_slice(), title_bytes().as_slice()) {
                    Mode::InField { field: Field::Title, depth: 0, text: Vec::new() }
                } else if bytes_eq(t.as_slice(), published_bytes().as_slice()) {
                    Mode::InField { field: Field::Published, depth: 0, text: Vec::new() }
                } else if bytes_eq(t.as_slice(), author_bytes().as_slice()) {
                    Mode::InAuthor { name: None }
                } else {
                    Mode::InEntry
                };
                let r = Scanner { mode: next_mode, acc, entries, malformed };
                assert(r@ =~= step(s0, e@));
                r
            },
            XmlEvent::Close(t) => {
                let tag = entry_bytes();
                if bytes_eq(t.as_slice(), tag.as_slice()) {
                    let mut entries = entries;
                    match complete(acc) {
                        Some(done) => {
                            entries.push(done);
                            assert(views_of_entries(entries@) =~= s0.entries.push(
                                completed_model(s0.acc),
                            ));
                        },
                        None => {},
                    }
                    let r = Scanner {
                        mode: Mode::Top,
                        acc: EntryOptional::new(),
                        entries,
                        malformed,
                    };
                    assert(r@ =~= step(s0, e@));
                    r
                } else {
                    let r = Scanner { mode: Mode::InEntry, acc, entries, malformed };
                    assert(r@ =~= step(s0, e@));
                    r
                }
            },
            XmlEvent::Eof => {
                let r = Scanner { mode: Mode::InEntry, acc, entries, malformed: true };
                assert(r@ =~= step(s0, e@));
                r
            },
            XmlEvent::Malformed => {
                let r = Scanner { mode: Mode::InEntry, acc, entries, malformed: true };
                assert(r@ =~= step(s0, e@));
                r
            },
            _ => {
                let r = Scanner { mode: Mode::InEntry, acc, entries, malformed };
                assert(r@ =~= step(s0, e@));
                r
            },
        },
        Mode::InField { field, depth, text } => match e {
            XmlEvent::Open(t) => {
                let tag = field_tag_bytes(field);
                let next_mode: Mode = if bytes_eq(t.as_slice(), tag.as_slice()) {
                    Mode::InField { field, depth: depth + 1, text }
                } else {
                    Mode::InField { field, depth, text }
                };
                let r = Scanner { mode: next_mode, acc, entries, malformed };
                assert(r@ =~= step(s0, e@));
                r
            },
            XmlEvent::Close(t) => {
                let tag = field_tag_bytes(field);
                if bytes_eq(t.as_slice(), tag.as_slice()) {
                    if depth == 0 {
                        let trimmed = trim_bytes(&text);
                        let r = Scanner {
                            mode: Mode::InEntry,
                            acc: set_field_exec(acc, field, trimmed),
                            entries,
                            malformed,
                        };
                        assert(r@ =~= step(s0, e@));
                        r
                    } else {
                        let r = Scanner {
                            mode: Mode::InField { field, depth: depth - 1, text },
                            acc,
                            entries,
                            malformed,
                        };
                        assert(r@ =~= step(s0, e@));
                        r
                    }
                } else {
                    let r = Scanner {
                        mode: Mode::InField { field, depth, text },
                        acc,
                        entries,
                        malformed,
                    };
                    assert(r@ =~= step(s0, e@));
                    r
                }
            },
            XmlEvent::Text(t) => {
                let mut text = text;
                push_all(&mut text, t.as_slice());
                let r = Scanner {
                    mode: Mode::InField { field, depth, text },
                    acc,
                    entries,
                    malformed,
                };
                assert(r@ =~= step(s0, e@));
                r
            },
            XmlEvent::Eof => {
                let r = Scanner {
                    mode: Mode::InField { field, depth, text },
                    acc,
                    entries,
                    malformed: true,
                };
                assert(r@ =~= step(s0, e@));
                r
            },
            XmlEvent::Malformed => {
                let r = Scanner {
                    mode: Mode::InField { field, depth, text },
                    acc,
                    entries,
                    malformed: true,
                };
                assert(r@ =~= step(s0, e@));
                r
            },
            _ => {
                let r = Scanner {
                    mode: Mode::InField { field, depth, text },
                    acc,
                    entries,
                    malformed,
                };
                assert(r@ =~= step(s0, e@));
                r
            },
        },
        Mode::InAuthor { name } => match e {
            XmlEvent::Open(t) => {
                let tag = name_bytes();
                let next_mode: Mode = if bytes_eq(t.as_slice(), tag.as_slice()) {
                    Mode::InAuthorName { depth: 0, text: Vec::new() }
                } else {
                    Mode::InAuthor { name }
                };
                let r = Scanner { mode: next_mode, acc, entries, malformed };
                assert(r@ =~= step(s0, e@));
                r
            },
            XmlEvent::Close(t) => {
                let tag = author_bytes();
                if bytes_eq(t.as_slice(), tag.as_slice()) {
                    let acc = match name {
                        Some(n) => EntryOptional { author: Some(n), ..acc },
                        None => acc,
                    };
                    let r = Scanner { mode: Mode::InEntry, acc, entries, malformed };
                    assert(r@ =~= step(s0, e@));
                    r
                } else {
                    let r = Scanner { mode: Mode::InAuthor { name }, acc, entries, malformed };
                    assert(r@ =~= step(s0, e@));
                    r
                }
            },
            XmlEvent::Eof => {
                let r = Scanner { mode: Mode::InAuthor { name }, acc, entries, malformed: true };
                assert(r@ =~= step(s0, e@));
                r
            },
            XmlEvent::Malformed => {
                let r = Scanner { mode: Mode::InAuthor { name }, acc, entries, malformed: true };
                assert(r@ =~= step(s0, e@));
                r
            },
            _ => {
                let r = Scanner { mode: Mode::InAuthor { name }, acc, entries, malformed };
                assert(r@ =~= step(s0, e@));
                r
            },
        },
        Mode::InAuthorName { depth, text } => match e {
            XmlEvent::Open(t) => {
                let tag = name_bytes();
                let next_mode: Mode = if bytes_eq(t.as_slice(), tag.as_slice()) {
                    Mode::InAuthorName { depth: depth + 1, text }
                } else {
                    Mode::InAuthorName { depth, text }
                };
                let r = Scanner { mode: next_mode, acc, entries, malformed };
                assert(r@ =~= step(s0, e@));
                r
            },
            XmlEvent::Close(t) => {
                let tag = name_bytes();
                if bytes_eq(t.as_slice(), tag.as_slice()) {
                    if depth == 0 {
                        let trimmed = trim_bytes(&text);
                        let r = Scanner {
                            mode: Mode::InAuthor { name: Some(trimmed) },
                            acc,
                            entries,
                            malformed,
                        };
                        assert(r@ =~= step(s0, e@));
                        r
                    } else {
                        let r = Scanner {
                            mode: Mode::InAuthorName { depth: depth - 1, text },
                            acc,
                            entries,
                            malformed,
                        };
                        assert(r@ =~= step(s0, e@));
                        r
                    }
                } else {
                    let r = Scanner {
                        mode: Mode::InAuthorName { depth, text },
                        acc,
                        entries,
                        malformed,
                    };
                    assert(r@ =~= step(s0, e@));
                    r
                }
            },
            XmlEvent::Text(t) => {
                let mut text = text;
                push_all(&mut text, t.as_slice());
                let r = Scanner {
                    mode: Mode::InAuthorName { depth, text },
                    acc,
                    entries,
                    malformed,
                };
                assert(r@ =~= step(s0, e@));
                r
            },
            XmlEvent::Eof => {
                let r = Scanner {
                    mode: Mode::InAuthorName { depth, text },
                    acc,
                    entries,
                    malformed: true,
                };
                assert(r@ =~= step(s0, e@));
                r
            },
            XmlEvent::Malformed => {
                let r = Scanner {
                    mode: Mode::InAuthorName { depth, text },
                    acc,
                    entries,
                    malformed: true,
                };
                assert(r@ =~= step(s0, e@));
                r
            },
            _ => {
                let r = Scanner {
                    mode: Mode::InAuthorName { depth, text },
                    acc,
                    entries,
                    malformed,
                };
                assert(r@ =~= step(s0, e@));
                r
            },
        },
    }
}

/// Runs the scanner over a whole document's events.
pub fn scan_events(events: &Vec<XmlEvent>) -> (r: Scanner)
    ensures
        r@ == scan_spec(views_of_events(events@)),
{
    let ghost evs = views_of_events(events@);
    let mut st = Scanner::new();
    let mut i: usize = 0;
    proof {
        assert(evs.skip(0) =~= evs);
    }
    while i < events.len()
        invariant
            i <= events@.len(),
            evs == views_of_events(events@),
            evs.len() == events@.len(),
            mode_depth(st@.mode) <= i as nat,
            scan_spec(evs) == run_from(st@, evs.skip(i as int)),
        decreases events@.len() - i,
    {
        let ghost st_pre = st@;
        proof {
            lemma_step_depth(st_pre, evs[i as int]);
        }
        st = scan_step(st, &events[i]);
        proof {
            assert(evs.skip(i as int)[0] == evs[i as int]);
            assert(evs.skip(i as int).drop_first() =~= evs.skip(i + 1));
            assert(run_from(st_pre, evs.skip(i as int)) == run_from(st@, evs.skip(i + 1)));
        }
        i += 1;
    }
    proof {
        assert(evs.skip(evs.len() as int) =~= Seq::<Ev>::empty());
    }
    st
}

/// An unrecognized element opening inside an entry scope leaves the scanner
/// exactly as it was: it affects no sibling field, no extracted entry, and
/// no later accumulation.
pub proof fn lemma_scope_isolation(s: ScannerModel, t: Seq<u8>)
    requires
        !s.malformed,
        s.mode is InEntry,
        t != tag_video_id(),
        t != tag_channel_id(),
        t != tag_title(),
        t != tag_published(),
        t != tag_author(),
    ensures
        step(s, Ev::Open(t)) == s,
{
}

/// Every entry scope begins its accumulation from the record with no field
/// set: nothing observed before the scope opened can reach its record.
pub proof fn lemma_fresh_accumulator(s: ScannerModel)
    requires
        !s.malformed,
        s.mode is Top,
    ensures
        step(s, Ev::Open(tag_entry())).acc == empty_model(),
        step(s, Ev::Open(tag_entry())).entries == s.entries,
{
}

/// An entry scope that closes with any required field missing adds nothing
/// to the extracted entries, and the next scope starts from a fresh record.
pub proof fn lemma_partial_record_dropped(s: ScannerModel)
    requires
        !s.malformed,
        s.mode is InEntry,
        !all_set(s.acc),
    ensures
        step(s, Ev::Close(tag_entry())).entries == s.entries,
        step(s, Ev::Close(tag_entry())).acc == empty_model(),
{
}

} // verus!
