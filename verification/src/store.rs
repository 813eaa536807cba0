//! The cache store: a model of the flat cache directory, keyed by the file
//! names that `key` derives, together with the plans the surrounding program
//! mirrors onto disk.

use vstd::prelude::*;
use vstd::slice::slice_to_vec;
use vstd::string::*;
use crate::key::{ResourceKey, ResourceKind, spec_file_name, spec_path};

verus! {

/// One file in the cache directory: its name and its bytes.
pub struct CacheEntry {
    pub name: String,
    pub data: Vec<u8>,
}

/// No two entries carry the same file name.
pub open spec fn unique_names(s: Seq<CacheEntry>) -> bool {
    forall|i: int, j: int| 0 <= i < j < s.len() ==> s[i].name@ != s[j].name@
}

/// The association a run of entries stands for, a later entry overriding an
/// earlier one of the same name (well-formed stores have no such pair).
pub open spec fn entries_map(s: Seq<CacheEntry>) -> Map<Seq<char>, Seq<u8>>
    decreases s.len(),
{
    if s.len() == 0 {
        Map::empty()
    } else {
        entries_map(s.drop_last()).insert(s.last().name@, s.last().data@)
    }
}

/// A name is in the association exactly when some entry carries it.
pub proof fn lemma_entries_map_contains(s: Seq<CacheEntry>, n: Seq<char>)
    ensures
        entries_map(s).dom().contains(n) <==> (exists|i: int|
            0 <= i < s.len() && s[i].name@ == n),
    decreases s.len(),
{
    if s.len() > 0 {
        lemma_entries_map_contains(s.drop_last(), n);
        if s.last().name@ == n {
            assert(s[s.len() - 1].name@ == n);
        } else if entries_map(s).dom().contains(n) {
            let i = choose|i: int| 0 <= i < s.drop_last().len() && s.drop_last()[i].name@ == n;
            assert(s[i].name@ == n);
        } else if exists|i: int| 0 <= i < s.len() && s[i].name@ == n {
            let i = choose|i: int| 0 <= i < s.len() && s[i].name@ == n;
            assert(s.drop_last()[i].name@ == n);
        }
    }
}

/// Under unique names, each entry's bytes are what the association holds for
/// its name.
pub proof fn lemma_entries_map_get(s: Seq<CacheEntry>, i: int)
    requires
        unique_names(s),
        0 <= i < s.len(),
    ensures
        entries_map(s).dom().contains(s[i].name@),
        entries_map(s)[s[i].name@] == s[i].data@,
    decreases s.len(),
{
    if i == s.len() - 1 {
    } else {
        assert(unique_names(s.drop_last()));
        assert(s.drop_last()[i] == s[i]);
        lemma_entries_map_get(s.drop_last(), i);
        assert(s[i].name@ != s.last().name@);
    }
}

/// Removing the one entry of a name removes exactly that name from the
/// association.
pub proof fn lemma_entries_map_remove(s: Seq<CacheEntry>, i: int)
    requires
        unique_names(s),
        0 <= i < s.len(),
    ensures
        entries_map(s.remove(i)) =~= entries_map(s).remove(s[i].name@),
    decreases s.len(),
{
    let n = s[i].name@;
    if i == s.len() - 1 {
        assert(s.remove(i) =~= s.drop_last());
        lemma_entries_map_contains(s.drop_last(), n);
        assert(!entries_map(s.drop_last()).dom().contains(n));
        assert(entries_map(s.drop_last()).remove(n) =~= entries_map(s.drop_last()));
    } else {
        assert(unique_names(s.drop_last()));
        assert(s.drop_last()[i] == s[i]);
        lemma_entries_map_remove(s.drop_last(), i);
        assert(s.remove(i).drop_last() =~= s.drop_last().remove(i));
        assert(s.remove(i).last() == s.last());
        assert(s[i].name@ != s.last().name@);
    }
}

/// What a `write` asks of the surrounding program: create the root directory
/// first if it was absent, then put the bytes at the path.
pub struct WritePlan {
    pub created_root: bool,
    pub path: String,
}

/// The disk-backed cache: the root directory it lives under, whether that
/// directory tree exists yet, and the files inside it.
pub struct CacheStore {
    root: String,
    root_present: bool,
    entries: Vec<CacheEntry>,
}

impl CacheStore {
    /// The cache root directory path.
    pub closed spec fn root(&self) -> Seq<char> {
        self.root@
    }

    /// Whether the cache root directory tree exists.
    pub closed spec fn root_present(&self) -> bool {
        self.root_present
    }

    /// The files of the cache, as a map from file name to contents.
    pub closed spec fn view(&self) -> Map<Seq<char>, Seq<u8>> {
        entries_map(self.entries@)
    }

    /// Well-formed stores carry at most one entry per file name.
    pub closed spec fn wf(&self) -> bool {
        unique_names(self.entries@)
    }

    /// An empty cache rooted at the given directory, which is not created
    /// until the first write needs it.
    pub fn new(root: String) -> (s: CacheStore)
        ensures
            s.wf(),
            s.root() == root@,
            !s.root_present(),
            s@ == Map::<Seq<char>, Seq<u8>>::empty(),
    {
        CacheStore { root, root_present: false, entries: Vec::new() }
    }

    /// Whether the root directory tree exists yet.
    pub fn is_root_present(&self) -> (b: bool)
        ensures
            b == self.root_present(),
    {
        self.root_present
    }

    /// The full path a key is cached under: pure, deterministic, no
    /// input-output.
    pub fn path_for(&self, key: &ResourceKey) -> (r: String)
        ensures
            r@ == spec_path(self.root(), key.kind, key.id@),
    {
        let mut s = self.root.clone();
        s.append("/");
        let name = key.file_name();
        s.append(name.as_str());
        proof {
            reveal_strlit("/");
            assert(self.root@ + "/"@ =~= self.root@ + seq!['/']);
        }
        s
    }

    /// The index of the entry carrying a name, if there is one.
    fn find(&self, name: &String) -> (r: Option<usize>)
        ensures
            match r {
                Some(i) => i < self.entries@.len() && self.entries@[i as int].name@ == name@,
                None => forall|j: int| 0 <= j < self.entries@.len()
                    ==> self.entries@[j].name@ != name@,
            },
    {
        let mut i: usize = 0;
        while i < self.entries.len()
            invariant
                i <= self.entries@.len(),
                forall|j: int| 0 <= j < i ==> self.entries@[j].name@ != name@,
            decreases self.entries@.len() - i,
        {
            if self.entries[i].name == *name {
                return Some(i);
            }
            i = i + 1;
        }
        None
    }

    /// Whether the key's file is in the cache.
    pub fn contains(&self, key: &ResourceKey) -> (r: bool)
        requires
            self.wf(),
        ensures
            r == self@.dom().contains(spec_file_name(key.kind, key.id@)),
    {
        let name = key.file_name();
        let found = self.find(&name);
        proof {
            lemma_entries_map_contains(self.entries@, name@);
        }
        found.is_some()
    }

    /// The cached bytes of a key, if its file is in the cache.
    pub fn read(&self, key: &ResourceKey) -> (r: Option<Vec<u8>>)
        requires
            self.wf(),
        ensures
            match r {
                Some(d) => self@.dom().contains(spec_file_name(key.kind, key.id@))
                    && d@ == self@[spec_file_name(key.kind, key.id@)],
                None => !self@.dom().contains(spec_file_name(key.kind, key.id@)),
            },
    {
        let name = key.file_name();
        match self.find(&name) {
            Some(i) => {
                proof {
                    lemma_entries_map_get(self.entries@, i as int);
                }
                Some(slice_to_vec(self.entries[i].data.as_slice()))
            },
            None => {
                proof {
                    lemma_entries_map_contains(self.entries@, name@);
                }
                None
            },
        }
    }

    /// Puts the key's bytes into the cache, creating the root directory tree
    /// first when it was absent and overwriting any prior content of the
    /// file. The returned plan is what the surrounding program mirrors onto
    /// disk, in that order.
    pub fn write(&mut self, key: &ResourceKey, bytes: &Vec<u8>) -> (plan: WritePlan)
        requires
            old(self).wf(),
        ensures
            final(self).wf(),
            final(self).root() == old(self).root(),
            final(self).root_present(),
            final(self)@ == old(self)@.insert(spec_file_name(key.kind, key.id@), bytes@),
            final(self)@.dom().contains(spec_file_name(key.kind, key.id@)),
            plan.created_root == !old(self).root_present(),
            plan.path@ == spec_path(old(self).root(), key.kind, key.id@),
    {
        let name = key.file_name();
        let path = self.path_for(key);
        let created_root = !self.root_present;
        self.root_present = true;
        let ghost pre = self.entries@;
        let data = slice_to_vec(bytes.as_slice());
        match self.find(&name) {
            Some(i) => {
                proof {
                    lemma_entries_map_remove(pre, i as int);
                }
                self.entries.remove(i);
                proof {
                    assert(unique_names(self.entries@));
                    assert(forall|j: int| 0 <= j < self.entries@.len()
                        ==> self.entries@[j].name@ != name@) by {
                        assert forall|j: int|
                            0 <= j < self.entries@.len()
                                && self.entries@[j].name@ == name@ implies false by {
                            if j < i {
                                assert(pre[j].name@ == name@ && pre[i as int].name@ == name@);
                            } else {
                                assert(pre[j + 1].name@ == name@ && pre[i as int].name@ == name@);
                            }
                        }
                    }
                }
                self.entries.push(CacheEntry { name, data });
                proof {
                    let post = self.entries@;
                    assert(post.drop_last() =~= pre.remove(i as int));
                    assert(entries_map(post)
                        =~= entries_map(pre).insert(spec_file_name(key.kind, key.id@), bytes@));
                }
            },
            None => {
                self.entries.push(CacheEntry { name, data });
                proof {
                    let post = self.entries@;
                    assert(post.drop_last() =~= pre);
                    assert(entries_map(post)
                        =~= entries_map(pre).insert(spec_file_name(key.kind, key.id@), bytes@));
                }
            },
        }
        WritePlan { created_root, path }
    }

    /// Removes the whole cache: afterwards the root directory is gone and no
    /// previously cached key is present. The surrounding program mirrors this
    /// by deleting the root directory tree.
    pub fn clear_all(&mut self)
        ensures
            final(self).wf(),
            final(self).root() == old(self).root(),
            !final(self).root_present(),
            final(self)@ == Map::<Seq<char>, Seq<u8>>::empty(),
            forall|n: Seq<char>| !final(self)@.dom().contains(n),
    {
        self.entries.clear();
        self.root_present = false;
    }
}

/// After a successful write of a key, that key is present with exactly the
/// written bytes; and since writing preserves the root, the path computed
/// for any key — a pure function of root, kind and identifier — is the same
/// before and after, stable across calls.
pub proof fn lemma_write_then_present(
    s0: CacheStore,
    s1: CacheStore,
    kind: ResourceKind,
    id: Seq<char>,
    bytes: Seq<u8>,
)
    requires
        s1@ == s0@.insert(spec_file_name(kind, id), bytes),
        s1.root() == s0.root(),
    ensures
        s1@.dom().contains(spec_file_name(kind, id)),
        s1@[spec_file_name(kind, id)] == bytes,
        forall|k2: ResourceKind, id2: Seq<char>|
            spec_path(s1.root(), k2, id2) == spec_path(s0.root(), k2, id2),
{
}

/// After the cache is cleared, no key whatsoever is present: a subsequent
/// presence check of any previously cached key answers no.
pub proof fn lemma_cleared_nothing_cached(s: CacheStore)
    requires
        s@ == Map::<Seq<char>, Seq<u8>>::empty(),
    ensures
        forall|kind: ResourceKind, id: Seq<char>|
            !s@.dom().contains(spec_file_name(kind, id)),
{
}

} // verus!
