//! The destination directory, modeled as a store of artifacts keyed by file
//! name. A write is idempotent: a name already present is left untouched,
//! which is sound because a name is derived from the content it holds.

use vstd::prelude::*;
use crate::artifact::Artifact;
use crate::artifact::ArtifactModel;

verus! {

/// One idempotent write: a name already present keeps its bytes; a new name
/// is added with the bytes written under it.
pub open spec fn store_write(
    m: Map<Seq<char>, Seq<u8>>,
    name: Seq<char>,
    bytes: Seq<u8>,
) -> Map<Seq<char>, Seq<u8>> {
    if m.contains_key(name) {
        m
    } else {
        m.insert(name, bytes)
    }
}

/// The store after a sequence of idempotent writes, first to last.
pub open spec fn store_write_all(
    m: Map<Seq<char>, Seq<u8>>,
    arts: Seq<ArtifactModel>,
) -> Map<Seq<char>, Seq<u8>>
    decreases arts.len(),
{
    if arts.len() == 0 {
        m
    } else {
        store_write_all(store_write(m, arts[0].name, arts[0].bytes), arts.drop_first())
    }
}

/// Whether some artifact of the sequence bears the given name.
pub open spec fn has_name(arts: Seq<ArtifactModel>, name: Seq<char>) -> bool {
    exists|i: int| 0 <= i < arts.len() && arts[i].name == name
}

/// Whether artifacts of the sequence that share a name also share their
/// bytes. Content addressing guarantees this of every batch: a name is a
/// pure function of the bytes under it.
pub open spec fn consistent(arts: Seq<ArtifactModel>) -> bool {
    forall|i: int, j: int|
        0 <= i < arts.len() && 0 <= j < arts.len() && #[trigger] arts[i].name == #[trigger] arts[j].name
            ==> arts[i].bytes == arts[j].bytes
}

/// Writing the same artifact twice leaves exactly what one write leaves:
/// one file under its name, its bytes unchanged by the second write.
pub proof fn lemma_write_idempotent(m: Map<Seq<char>, Seq<u8>>, name: Seq<char>, bytes: Seq<u8>)
    ensures
        store_write(store_write(m, name, bytes), name, bytes) == store_write(m, name, bytes),
        store_write(m, name, bytes).contains_key(name),
        !m.contains_key(name) ==> store_write(m, name, bytes)[name] == bytes,
{
}

/// Two idempotent writes commute whenever their names differ or their bytes
/// agree; a batch of content-addressed artifacts racing on one name always
/// carries identical bytes, so its writes may land in any order.
pub proof fn lemma_write_commutes(
    m: Map<Seq<char>, Seq<u8>>,
    n1: Seq<char>,
    b1: Seq<u8>,
    n2: Seq<char>,
    b2: Seq<u8>,
)
    requires
        n1 != n2 || b1 == b2,
    ensures
        store_write(store_write(m, n1, b1), n2, b2) == store_write(store_write(m, n2, b2), n1, b1),
{
    if n1 == n2 {
    } else {
        if !m.contains_key(n1) && !m.contains_key(n2) {
            assert(m.insert(n1, b1).insert(n2, b2) =~= m.insert(n2, b2).insert(n1, b1));
        }
    }
}

/// What a batch of idempotent writes leaves behind, whatever their order:
/// the names present afterwards are those present before plus those of the
/// batch; what was present before is untouched; and a batch artifact whose
/// name was free before now lies under its name with its own bytes.
pub proof fn lemma_write_all_shape(m: Map<Seq<char>, Seq<u8>>, arts: Seq<ArtifactModel>)
    requires
        consistent(arts),
    ensures
        forall|k: Seq<char>|
            #[trigger] store_write_all(m, arts).contains_key(k) <==> m.contains_key(k) || has_name(
                arts,
                k,
            ),
        forall|k: Seq<char>| m.contains_key(k) ==> #[trigger] store_write_all(m, arts)[k] == m[k],
        forall|i: int|
            0 <= i < arts.len() && !m.contains_key(#[trigger] arts[i].name) ==> store_write_all(
                m,
                arts,
            )[arts[i].name] == arts[i].bytes,
    decreases arts.len(),
{
    if arts.len() > 0 {
        let a0 = arts[0];
        let m1 = store_write(m, a0.name, a0.bytes);
        let rest = arts.drop_first();
        assert(consistent(rest)) by {
            assert(forall|i: int, j: int|
                0 <= i < rest.len() && 0 <= j < rest.len() && #[trigger] rest[i].name
                    == #[trigger] rest[j].name ==> arts[i + 1].name == arts[j + 1].name
                    && rest[i].bytes == rest[j].bytes);
        }
        lemma_write_all_shape(m1, rest);
        assert(store_write_all(m, arts) == store_write_all(m1, rest));
        assert forall|k: Seq<char>|
            #[trigger] store_write_all(m, arts).contains_key(k) <==> m.contains_key(k) || has_name(
                arts,
                k,
            ) by {
            if has_name(arts, k) {
                let i = choose|i: int| 0 <= i < arts.len() && arts[i].name == k;
                if i == 0 {
                    assert(m1.contains_key(k));
                    assert(store_write_all(m1, rest).contains_key(k));
                } else {
                    assert(rest[i - 1].name == k);
                    assert(has_name(rest, k));
                    assert(store_write_all(m1, rest).contains_key(k));
                }
            }
            if store_write_all(m, arts).contains_key(k) && !m.contains_key(k) {
                assert(store_write_all(m1, rest).contains_key(k));
                if m1.contains_key(k) {
                    assert(arts[0].name == k);
                } else {
                    assert(has_name(rest, k));
                    let i = choose|i: int| 0 <= i < rest.len() && rest[i].name == k;
                    assert(arts[i + 1].name == k);
                }
            }
        }
        assert forall|i: int|
            0 <= i < arts.len() && !m.contains_key(#[trigger] arts[i].name) implies store_write_all(
            m,
            arts,
        )[arts[i].name] == arts[i].bytes by {
            let k = arts[i].name;
            if m1.contains_key(k) {
                assert(m1[k] == a0.bytes);
                assert(a0.name == k);
                assert(arts[i].bytes == a0.bytes);
                assert(store_write_all(m1, rest)[k] == m1[k]);
            } else {
                assert(i != 0);
                assert(rest[i - 1].name == k);
                assert(store_write_all(m1, rest)[k] == rest[i - 1].bytes);
            }
        }
    }
}

/// A batch of consistent artifacts leaves the same store whatever order its
/// writes happen in: the outcome of two workers is the outcome of one.
pub proof fn lemma_order_independent(
    m: Map<Seq<char>, Seq<u8>>,
    arts1: Seq<ArtifactModel>,
    arts2: Seq<ArtifactModel>,
)
    requires
        consistent(arts1 + arts2),
        arts1.to_multiset() == arts2.to_multiset(),
    ensures
        store_write_all(m, arts1) == store_write_all(m, arts2),
{
    arts1.to_multiset_ensures();
    arts2.to_multiset_ensures();
    assert forall|a: ArtifactModel| arts1.contains(a) <==> arts2.contains(a) by {
        assert(arts1.contains(a) <==> arts1.to_multiset().count(a) > 0);
        assert(arts2.contains(a) <==> arts2.to_multiset().count(a) > 0);
    }
    assert(consistent(arts1)) by {
        assert(forall|i: int|
            0 <= i < arts1.len() ==> #[trigger] arts1[i] == (arts1 + arts2)[i]);
    }
    assert(consistent(arts2)) by {
        assert(forall|i: int|
            0 <= i < arts2.len() ==> #[trigger] arts2[i] == (arts1 + arts2)[arts1.len() + i]);
    }
    lemma_write_all_shape(m, arts1);
    lemma_write_all_shape(m, arts2);
    let r1 = store_write_all(m, arts1);
    let r2 = store_write_all(m, arts2);
    assert forall|k: Seq<char>| r1.contains_key(k) <==> r2.contains_key(k) by {
        if has_name(arts1, k) {
            let i = choose|i: int| 0 <= i < arts1.len() && arts1[i].name == k;
            assert(arts1.contains(arts1[i]));
            assert(arts2.contains(arts1[i]));
            assert(has_name(arts2, k));
        }
        if has_name(arts2, k) {
            let i = choose|i: int| 0 <= i < arts2.len() && arts2[i].name == k;
            assert(arts2.contains(arts2[i]));
            assert(arts1.contains(arts2[i]));
            assert(has_name(arts1, k));
        }
    }
    assert forall|k: Seq<char>| #[trigger] r1.contains_key(k) implies r1[k] == r2[k] by {
        if m.contains_key(k) {
        } else {
            let i = choose|i: int| 0 <= i < arts1.len() && arts1[i].name == k;
            assert(arts1.contains(arts1[i]));
            assert(arts2.contains(arts1[i]));
            let j = choose|j: int| 0 <= j < arts2.len() && arts2[j] == arts1[i];
            assert(r1[k] == arts1[i].bytes);
            assert(r2[k] == arts2[j].bytes);
        }
    }
    assert(r1 =~= r2);
}

/// An in-memory artifact store: the model of a destination directory that a
/// batch writes into.
pub struct ArtifactStore {
    pub files: Vec<Artifact>,
}

/// The map that a sequence of artifacts lays out, later names over earlier.
pub open spec fn files_map(files: Seq<ArtifactModel>) -> Map<Seq<char>, Seq<u8>>
    decreases files.len(),
{
    if files.len() == 0 {
        Map::empty()
    } else {
        files_map(files.drop_last()).insert(files.last().name, files.last().bytes)
    }
}

impl View for ArtifactStore {
    type V = Map<Seq<char>, Seq<u8>>;

    open spec fn view(&self) -> Map<Seq<char>, Seq<u8>> {
        files_map(crate::artifact::views_of_artifacts(self.files@))
    }
}

/// A name is laid out exactly when some artifact of the sequence bears it.
proof fn lemma_files_map_contains(files: Seq<ArtifactModel>, name: Seq<char>)
    ensures
        files_map(files).contains_key(name) <==> has_name(files, name),
    decreases files.len(),
{
    if files.len() > 0 {
        lemma_files_map_contains(files.drop_last(), name);
        if files_map(files).contains_key(name) {
            if files.last().name != name {
                let i = choose|i: int|
                    0 <= i < files.len() - 1 && files.drop_last()[i].name == name;
                assert(files[i].name == name);
            }
        }
        if has_name(files, name) && files.last().name != name {
            let i = choose|i: int| 0 <= i < files.len() && files[i].name == name;
            assert(files.drop_last()[i].name == name);
        }
    }
}

impl ArtifactStore {
    /// An empty store.
    pub fn new() -> (r: ArtifactStore)
        ensures
            r@ == Map::<Seq<char>, Seq<u8>>::empty(),
    {
        ArtifactStore { files: Vec::new() }
    }

    /// How many artifact files the store holds.
    pub fn file_count(&self) -> (r: usize)
        ensures
            r == self.files@.len(),
    {
        self.files.len()
    }

    /// Writes one artifact idempotently: a file already bearing its name is
    /// left untouched, otherwise the bytes are laid down under the name.
    pub fn write(&mut self, a: Artifact)
        ensures
            final(self)@ == store_write(old(self)@, a@.name, a@.bytes),
    {
        let ghost views0 = crate::artifact::views_of_artifacts(self.files@);
        let mut i: usize = 0;
        while i < self.files.len()
            invariant
                i <= self.files@.len(),
                views0 == crate::artifact::views_of_artifacts(self.files@),
                forall|j: int| 0 <= j < i ==> #[trigger] views0[j].name != a@.name,
            decreases self.files@.len() - i,
        {
            if self.files[i].name.eq(&a.name) {
                proof {
                    assert(views0[i as int].name == a@.name);
                    lemma_files_map_contains(views0, a@.name);
                }
                return ;
            }
            i += 1;
        }
        proof {
            lemma_files_map_contains(views0, a@.name);
        }
        self.files.push(a);
        proof {
            let views1 = crate::artifact::views_of_artifacts(self.files@);
            assert(views1.drop_last() =~= views0);
        }
    }
}

} // verus!
