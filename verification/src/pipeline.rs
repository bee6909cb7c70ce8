//! The per-document pipeline: tokenize, scan, assemble, address; and the
//! idempotent writing of a batch's artifacts into a store.

use vstd::prelude::*;
use crate::artifact::artifact_of;
use crate::artifact::make_artifact;
use crate::artifact::views_of_artifacts;
use crate::artifact::Artifact;
use crate::artifact::ArtifactModel;
use crate::entry::EntryModel;
use crate::event::valid_stream;
use crate::event::views_of_events;
use crate::event::Ev;
use crate::event::XmlEvent;
use crate::scan::scan_events;
use crate::scan::scan_spec;
use crate::store::store_write_all;
use crate::store::ArtifactStore;
use crate::tokenize::read_events;

verus! {

/// The artifacts of a sequence of completed entries, in document order.
pub open spec fn artifacts_of_entries(es: Seq<EntryModel>) -> Seq<ArtifactModel> {
    es.map_values(|e: EntryModel| artifact_of(e))
}

/// Extracts a document's artifacts from its events: the scanner's completed
/// entries, each serialized and content-addressed, in document order, beside
/// whether the document was found malformed. Entries completed before a
/// malformed position are kept; spec-level scanning says nothing follows one.
pub fn feed_artifacts(events: &Vec<XmlEvent>) -> (r: (Vec<Artifact>, bool))
    ensures
        views_of_artifacts(r.0@) == artifacts_of_entries(
            scan_spec(views_of_events(events@)).entries,
        ),
        r.1 == scan_spec(views_of_events(events@)).malformed,
{
    let sc = scan_events(events);
    let ghost wanted = artifacts_of_entries(scan_spec(views_of_events(events@)).entries);
    let mut arts: Vec<Artifact> = Vec::new();
    let mut i: usize = 0;
    while i < sc.entries.len()
        invariant
            i <= sc.entries@.len(),
            wanted.len() == sc.entries@.len(),
            forall|j: int| 0 <= j < wanted.len() ==> wanted[j] == artifact_of(sc.entries@[j]@),
            views_of_artifacts(arts@) == wanted.subrange(0, i as int),
        decreases sc.entries@.len() - i,
    {
        let ghost prev = arts@;
        let a = make_artifact(&sc.entries[i]);
        proof {
            assert(a@ == wanted[i as int]);
        }
        arts.push(a);
        proof {
            assert(arts@ =~= prev.push(a));
            assert(views_of_artifacts(prev.push(a)) =~= views_of_artifacts(prev).push(a@));
            assert(views_of_artifacts(arts@) =~= wanted.subrange(0, i + 1 as int));
        }
        i += 1;
    }
    proof {
        assert(wanted.subrange(0, wanted.len() as int) =~= wanted);
    }
    (arts, sc.malformed)
}

/// What processing one document yields: its artifacts in document order,
/// whether it was found malformed, and the byte offset the tokenizer
/// stopped at, for diagnostics.
pub struct FeedReport {
    pub artifacts: Vec<Artifact>,
    pub malformed: bool,
    pub end_position: u64,
}

/// Processes one document's text: tokenizes it and extracts its artifacts.
/// Whatever events the tokenizer handed back, the result is exactly the
/// verified pipeline applied to some well-formed event stream of them.
pub fn process_feed_text(xml: &str) -> (r: FeedReport)
    ensures
        exists|evs: Seq<Ev>|
            #[trigger] valid_stream(evs) && views_of_artifacts(r.artifacts@)
                == artifacts_of_entries(scan_spec(evs).entries) && r.malformed == scan_spec(
                evs,
            ).malformed,
{
    let (events, end_position) = read_events(xml);
    let (artifacts, malformed) = feed_artifacts(&events);
    proof {
        let evs = views_of_events(events@);
        assert(valid_stream(evs) && views_of_artifacts(artifacts@) == artifacts_of_entries(
            scan_spec(evs).entries,
        ) && malformed == scan_spec(evs).malformed);
    }
    FeedReport { artifacts, malformed, end_position }
}

/// Writes a batch of artifacts into the store, first to last, each write
/// idempotent.
pub fn write_artifacts(store: &mut ArtifactStore, arts: Vec<Artifact>)
    ensures
        final(store)@ == store_write_all(old(store)@, views_of_artifacts(arts@)),
{
    let ghost goal = store_write_all(old(store)@, views_of_artifacts(arts@));
    let mut arts = arts;
    while arts.len() > 0
        invariant
            goal == store_write_all(store@, views_of_artifacts(arts@)),
        decreases arts@.len(),
    {
        let ghost before = views_of_artifacts(arts@);
        let a = arts.remove(0);
        proof {
            assert(views_of_artifacts(arts@) =~= before.drop_first());
        }
        store.write(a);
    }
    proof {
        assert(views_of_artifacts(arts@).len() == 0);
    }
}

} // verus!
