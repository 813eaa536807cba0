//! Resource keys: which piece of artwork a cache entry stands for, and the
//! file name it is stored under.

use vstd::prelude::*;
use vstd::string::*;

verus! {

/// The four image categories a media item can have.
#[derive(Clone, Copy, PartialEq, Eq, Structural, Debug)]
pub enum ResourceKind {
    Primary,
    Thumb,
    Backdrop,
    Logo,
}

/// Identifies one cacheable artifact: an image category together with the
/// opaque item identifier the server knows it by.
#[derive(Debug)]
pub struct ResourceKey {
    pub kind: ResourceKind,
    pub id: String,
}

/// The file-name prefix that keeps the four categories apart: none for
/// `Primary`, one letter for each of the others.
pub open spec fn spec_prefix(kind: ResourceKind) -> Seq<char> {
    match kind {
        ResourceKind::Primary => Seq::<char>::empty(),
        ResourceKind::Thumb => seq!['t'],
        ResourceKind::Backdrop => seq!['b'],
        ResourceKind::Logo => seq!['l'],
    }
}

/// The fixed image extension every cache entry is stored with.
pub open spec fn spec_ext() -> Seq<char> {
    seq!['.', 'p', 'n', 'g']
}

/// The file name of a cache entry: prefix, then identifier, then extension.
pub open spec fn spec_file_name(kind: ResourceKind, id: Seq<char>) -> Seq<char> {
    spec_prefix(kind) + id + spec_ext()
}

/// The full path of a cache entry under a cache root directory.
pub open spec fn spec_path(root: Seq<char>, kind: ResourceKind, id: Seq<char>) -> Seq<char> {
    root + seq!['/'] + spec_file_name(kind, id)
}

/// The executable counterpart of `spec_prefix`.
pub fn kind_prefix(kind: ResourceKind) -> (r: &'static str)
    ensures
        r@ == spec_prefix(kind),
{
    match kind {
        ResourceKind::Primary => {
            let r = "";
            proof {
                reveal_strlit("");
                assert(r@ =~= spec_prefix(kind));
            }
            r
        },
        ResourceKind::Thumb => {
            let r = "t";
            proof {
                reveal_strlit("t");
                assert(r@ =~= spec_prefix(kind));
            }
            r
        },
        ResourceKind::Backdrop => {
            let r = "b";
            proof {
                reveal_strlit("b");
                assert(r@ =~= spec_prefix(kind));
            }
            r
        },
        ResourceKind::Logo => {
            let r = "l";
            proof {
                reveal_strlit("l");
                assert(r@ =~= spec_prefix(kind));
            }
            r
        },
    }
}

impl ResourceKey {
    /// Builds the key for one artifact.
    pub fn new(kind: ResourceKind, id: String) -> (k: ResourceKey)
        ensures
            k.kind == kind,
            k.id@ == id@,
    {
        ResourceKey { kind, id }
    }

    /// The file name this key is cached under.
    pub fn file_name(&self) -> (r: String)
        ensures
            r@ == spec_file_name(self.kind, self.id@),
    {
        let mut s = String::from_str(kind_prefix(self.kind));
        s.append(self.id.as_str());
        s.append(".png");
        proof {
            reveal_strlit(".png");
            assert(".png"@ =~= spec_ext());
        }
        s
    }
}

/// The two ways in which two distinct (kind, identifier) pairs can still name
/// the same cache file: a `Primary` identifier that itself begins with
/// another category's prefix letter shadows that category's entry.
pub open spec fn spec_names_collide(
    k1: ResourceKind,
    id1: Seq<char>,
    k2: ResourceKind,
    id2: Seq<char>,
) -> bool {
    ||| (k1 is Primary && !(k2 is Primary) && id1 == spec_prefix(k2) + id2)
    ||| (k2 is Primary && !(k1 is Primary) && id2 == spec_prefix(k1) + id1)
}

/// The prefix is empty exactly for `Primary` and a single letter otherwise.
pub proof fn lemma_prefix_len(kind: ResourceKind)
    ensures
        kind is Primary ==> spec_prefix(kind).len() == 0,
        !(kind is Primary) ==> spec_prefix(kind).len() == 1,
{
    match kind {
        ResourceKind::Primary => {
            assert(spec_prefix(kind).len() == 0);
        },
        ResourceKind::Thumb => {
            assert(spec_prefix(kind).len() == 1);
        },
        ResourceKind::Backdrop => {
            assert(spec_prefix(kind).len() == 1);
        },
        ResourceKind::Logo => {
            assert(spec_prefix(kind).len() == 1);
        },
    }
}

/// A cache file name is as long as its prefix, identifier and extension.
pub proof fn lemma_file_name_len(kind: ResourceKind, id: Seq<char>)
    ensures
        spec_file_name(kind, id).len() == spec_prefix(kind).len() + id.len() + 4,
{
    assert(spec_ext().len() == 4);
    assert((spec_prefix(kind) + id).len() == spec_prefix(kind).len() + id.len());
    assert(spec_file_name(kind, id).len() == (spec_prefix(kind) + id).len() + spec_ext().len());
}

/// Identical (kind, identifier) pairs always name the identical file.
pub proof fn lemma_file_name_deterministic(
    k1: ResourceKind,
    id1: Seq<char>,
    k2: ResourceKind,
    id2: Seq<char>,
)
    requires
        k1 == k2,
        id1 == id2,
    ensures
        spec_file_name(k1, id1) == spec_file_name(k2, id2),
{
}

/// Two keys of the same kind with distinct identifiers name distinct files.
pub proof fn lemma_file_name_injective_same_kind(
    kind: ResourceKind,
    id1: Seq<char>,
    id2: Seq<char>,
)
    requires
        id1 != id2,
    ensures
        spec_file_name(kind, id1) != spec_file_name(kind, id2),
{
    let p = spec_prefix(kind);
    let n1 = spec_file_name(kind, id1);
    let n2 = spec_file_name(kind, id2);
    lemma_file_name_len(kind, id1);
    lemma_file_name_len(kind, id2);
    if n1 == n2 {
        assert(id1.len() == id2.len());
        assert forall|i: int| 0 <= i < id1.len() implies id1[i] == id2[i] by {
            assert(n1[p.len() + i] == id1[i]);
            assert(n2[p.len() + i] == id2[i]);
        }
        assert(id1 =~= id2);
    }
}

/// Distinct (kind, identifier) pairs name distinct files, leaving aside the
/// prefix-shadowing collisions that `spec_names_collide` describes.
pub proof fn lemma_file_name_injective(
    k1: ResourceKind,
    id1: Seq<char>,
    k2: ResourceKind,
    id2: Seq<char>,
)
    requires
        !(k1 == k2 && id1 == id2),
        !spec_names_collide(k1, id1, k2, id2),
    ensures
        spec_file_name(k1, id1) != spec_file_name(k2, id2),
{
    let p1 = spec_prefix(k1);
    let p2 = spec_prefix(k2);
    let n1 = spec_file_name(k1, id1);
    let n2 = spec_file_name(k2, id2);
    lemma_prefix_len(k1);
    lemma_prefix_len(k2);
    lemma_file_name_len(k1, id1);
    lemma_file_name_len(k2, id2);
    if k1 == k2 {
        lemma_file_name_injective_same_kind(k1, id1, id2);
    } else if !(k1 is Primary) && !(k2 is Primary) {
        // Both prefixes are single, distinct letters: the names differ at
        // their first character.
        if n1 == n2 {
            assert(n1[0] == p1[0]);
            assert(n2[0] == p2[0]);
            assert(false);
        }
    } else if k1 is Primary {
        // id1 would have to spell out the other prefix and identifier.
        if n1 == n2 {
            assert(id1.len() == 1 + id2.len());
            assert forall|i: int| 0 <= i < id1.len() implies id1[i] == (p2 + id2)[i] by {
                assert(n1[i] == id1[i]);
                assert(n2[i] == (p2 + id2)[i]);
            }
            assert(id1 =~= p2 + id2);
            assert(spec_names_collide(k1, id1, k2, id2));
        }
    } else {
        if n1 == n2 {
            assert(id2.len() == 1 + id1.len());
            assert forall|i: int| 0 <= i < id2.len() implies id2[i] == (p1 + id1)[i] by {
                assert(n2[i] == id2[i]);
                assert(n1[i] == (p1 + id1)[i]);
            }
            assert(id2 =~= p1 + id1);
            assert(spec_names_collide(k1, id1, k2, id2));
        }
    }
}

/// Under one cache root, distinct file names give distinct full paths, and so
/// distinct admissible keys give distinct paths.
pub proof fn lemma_path_injective(
    root: Seq<char>,
    k1: ResourceKind,
    id1: Seq<char>,
    k2: ResourceKind,
    id2: Seq<char>,
)
    requires
        !(k1 == k2 && id1 == id2),
        !spec_names_collide(k1, id1, k2, id2),
    ensures
        spec_path(root, k1, id1) != spec_path(root, k2, id2),
{
    lemma_file_name_injective(k1, id1, k2, id2);
    let n1 = spec_file_name(k1, id1);
    let n2 = spec_file_name(k2, id2);
    let q1 = spec_path(root, k1, id1);
    let q2 = spec_path(root, k2, id2);
    if q1 == q2 {
        assert((root + seq!['/']).len() == root.len() + 1);
        assert(q1.len() == (root + seq!['/']).len() + n1.len());
        assert(q2.len() == (root + seq!['/']).len() + n2.len());
        assert(n1.len() == n2.len());
        assert forall|i: int| 0 <= i < n1.len() implies n1[i] == n2[i] by {
            assert(q1[root.len() + 1 + i] == n1[i]);
            assert(q2[root.len() + 1 + i] == n2[i]);
        }
        assert(n1 =~= n2);
    }
}

} // verus!
