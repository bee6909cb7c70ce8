//! The record extracted from one entry scope: in progress while its fields
//! accumulate, completed once every required field is set.

use vstd::prelude::*;

verus! {

/// An entry record in progress: every field starts unset and is filled as
/// matching elements are read; a later occurrence of the same element
/// overwrites an earlier value.
pub struct EntryOptional {
    pub video_id: Option<Vec<u8>>,
    pub channel_id: Option<Vec<u8>>,
    pub title: Option<Vec<u8>>,
    pub author: Option<Vec<u8>>,
    pub published: Option<Vec<u8>>,
}

/// The mathematical form of an `EntryOptional`.
#[verifier::ext_equal]
pub struct EntryOptionalModel {
    pub video_id: Option<Seq<u8>>,
    pub channel_id: Option<Seq<u8>>,
    pub title: Option<Seq<u8>>,
    pub author: Option<Seq<u8>>,
    pub published: Option<Seq<u8>>,
}

/// A completed entry record: every required field is present.
pub struct Entry {
    pub video_id: Vec<u8>,
    pub channel_id: Vec<u8>,
    pub title: Vec<u8>,
    pub author: Vec<u8>,
    pub published: Vec<u8>,
}

/// The mathematical form of an `Entry`.
#[verifier::ext_equal]
pub struct EntryModel {
    pub video_id: Seq<u8>,
    pub channel_id: Seq<u8>,
    pub title: Seq<u8>,
    pub author: Seq<u8>,
    pub published: Seq<u8>,
}

pub open spec fn view_of_opt(v: Option<Vec<u8>>) -> Option<Seq<u8>> {
    match v {
        Option::Some(b) => Option::Some(b@),
        Option::None => Option::None,
    }
}

impl View for EntryOptional {
    type V = EntryOptionalModel;

    open spec fn view(&self) -> EntryOptionalModel {
        EntryOptionalModel {
            video_id: view_of_opt(self.video_id),
            channel_id: view_of_opt(self.channel_id),
            title: view_of_opt(self.title),
            author: view_of_opt(self.author),
            published: view_of_opt(self.published),
        }
    }
}

impl View for Entry {
    type V = EntryModel;

    open spec fn view(&self) -> EntryModel {
        EntryModel {
            video_id: self.video_id@,
            channel_id: self.channel_id@,
            title: self.title@,
            author: self.author@,
            published: self.published@,
        }
    }
}

/// The record with no field set, as an entry scope opens.
pub open spec fn empty_model() -> EntryOptionalModel {
    EntryOptionalModel {
        video_id: Option::None,
        channel_id: Option::None,
        title: Option::None,
        author: Option::None,
        published: Option::None,
    }
}

impl EntryOptional {
    /// A record with no field set.
    pub fn new() -> (r: EntryOptional)
        ensures
            r@ == empty_model(),
    {
        let r = EntryOptional {
            video_id: None,
            channel_id: None,
            title: None,
            author: None,
            published: None,
        };
        assert(r@ =~= empty_model());
        r
    }
}

/// Whether every required field of the record is set.
pub open spec fn all_set(m: EntryOptionalModel) -> bool {
    &&& m.video_id is Some
    &&& m.channel_id is Some
    &&& m.title is Some
    &&& m.author is Some
    &&& m.published is Some
}

/// The completed record that a fully populated `EntryOptional` promotes to.
pub open spec fn completed_model(m: EntryOptionalModel) -> EntryModel
    recommends
        all_set(m),
{
    EntryModel {
        video_id: m.video_id->Some_0,
        channel_id: m.channel_id->Some_0,
        title: m.title->Some_0,
        author: m.author->Some_0,
        published: m.published->Some_0,
    }
}

/// Promotes a finished in-progress record to a completed entry exactly when
/// every required field is set; a record missing any field yields nothing.
pub fn complete(e: EntryOptional) -> (r: Option<Entry>)
    ensures
        r is Some <==> all_set(e@),
        r is Some ==> r->Some_0@ == completed_model(e@),
{
    match (e.video_id, e.channel_id, e.title, e.author, e.published) {
        (Some(video_id), Some(channel_id), Some(title), Some(author), Some(published)) => Some(
            Entry { video_id, channel_id, title, author, published },
        ),
        _ => None,
    }
}

} // verus!
