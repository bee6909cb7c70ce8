//! Content addressing: a completed entry's canonical bytes, their digest,
//! and the artifact file they become.

use vstd::prelude::*;
use vstd::string::StringExecFns;
use crate::entry::Entry;
use crate::entry::EntryModel;
use crate::json::entry_json;
use crate::json::serialize_entry;

verus! {

/// The lowercase hex rendering of the MD5 digest of a byte sequence. The
/// digest is a pure function of the bytes: the same bytes give the same
/// digest in every run and on every machine.
pub uninterp spec fn md5_hex_of(bytes: Seq<u8>) -> Seq<char>;

/// Relies on md5::compute and the crate's LowerHex rendering of a digest:
/// the digest depends on the input bytes alone, and prints as two lowercase
/// hex digits for each of its sixteen bytes.
#[verifier::external_body]
fn md5_hex(bytes: &Vec<u8>) -> (r: String)
    ensures
        r@ == md5_hex_of(bytes@),
        r@.len() == 32,
{
    format!("{:x}", md5::compute(bytes.as_slice()))
}

/// One artifact: the serialized bytes of a completed entry, under the file
/// name derived from their digest.
pub struct Artifact {
    pub name: String,
    pub bytes: Vec<u8>,
}

/// The mathematical form of an `Artifact`.
#[verifier::ext_equal]
pub struct ArtifactModel {
    pub name: Seq<char>,
    pub bytes: Seq<u8>,
}

impl View for Artifact {
    type V = ArtifactModel;

    open spec fn view(&self) -> ArtifactModel {
        ArtifactModel { name: self.name@, bytes: self.bytes@ }
    }
}

/// The file name of a completed entry's artifact: the hex digest of its
/// canonical bytes, with a `.json` suffix.
pub open spec fn artifact_name_spec(e: EntryModel) -> Seq<char> {
    md5_hex_of(serialize_entry(e)) + ".json"@
}

/// The artifact of a completed entry.
pub open spec fn artifact_of(e: EntryModel) -> ArtifactModel {
    ArtifactModel { name: artifact_name_spec(e), bytes: serialize_entry(e) }
}

/// Builds the artifact of a completed entry: its canonical JSON bytes and
/// the content-addressed file name they hash to.
pub fn make_artifact(e: &Entry) -> (a: Artifact)
    ensures
        a@ == artifact_of(e@),
{
    let bytes = entry_json(e);
    let digest = md5_hex(&bytes);
    let name = digest.concat(".json");
    let a = Artifact { name, bytes };
    assert(a@ =~= artifact_of(e@));
    a
}

/// The views of a sequence of artifacts.
pub open spec fn views_of_artifacts(arts: Seq<Artifact>) -> Seq<ArtifactModel> {
    arts.map_values(|a: Artifact| a@)
}

/// Content addressing deduplicates by bytes: two completed entries that
/// serialize to identical bytes receive the same artifact, and so collapse
/// to one file on disk; the artifact name is a pure function of the
/// serialized bytes alone.
pub proof fn lemma_content_addressed(a: EntryModel, b: EntryModel)
    requires
        serialize_entry(a) == serialize_entry(b),
    ensures
        artifact_of(a) == artifact_of(b),
{
}

} // verus!
