//! The durable per-host ledger: a mapping from file path to fingerprint that
//! makes the next backup run incremental.

use vstd::prelude::*;

verus! {

/// Per-file change-detection state: the file's size and the hex-rendered
/// hashes of its sampled content windows, one per sampled offset.
#[derive(Debug, Clone)]
pub struct Fingerprint {
    pub size: u64,
    pub hashes: Vec<String>,
}

/// The mathematical content of a fingerprint: the size and the character
/// sequences of the window hashes.
pub open spec fn fp_model(fp: Fingerprint) -> (u64, Seq<Seq<char>>) {
    (fp.size, fp.hashes.deep_view())
}

/// Compares two fingerprints by content: equal sizes and equal window hashes.
pub fn fingerprints_equal(a: &Fingerprint, b: &Fingerprint) -> (r: bool)
    ensures
        r == (fp_model(*a) == fp_model(*b)),
{
    if a.size != b.size {
        proof {
            assert(fp_model(*a).0 != fp_model(*b).0);
        }
        return false;
    }
    if a.hashes.len() != b.hashes.len() {
        proof {
            assert(a.hashes.deep_view().len() == a.hashes@.len());
            assert(b.hashes.deep_view().len() == b.hashes@.len());
        }
        return false;
    }
    let n = a.hashes.len();
    let mut i: usize = 0;
    while i < n
        invariant
            n == a.hashes@.len(),
            n == b.hashes@.len(),
            i <= n,
            a.size == b.size,
            forall|j: int| 0 <= j < i ==> a.hashes@[j]@ == b.hashes@[j]@,
        decreases n - i,
    {
        if a.hashes[i] != b.hashes[i] {
            proof {
                assert(a.hashes.deep_view()[i as int] == a.hashes@[i as int]@);
                assert(b.hashes.deep_view()[i as int] == b.hashes@[i as int]@);
            }
            return false;
        }
        i = i + 1;
    }
    proof {
        assert(a.hashes.deep_view() =~= b.hashes.deep_view());
    }
    true
}

/// Copies a fingerprint; the copy has the same content.
pub fn copy_fingerprint(fp: &Fingerprint) -> (r: Fingerprint)
    ensures
        fp_model(r) == fp_model(*fp),
{
    let mut hashes: Vec<String> = Vec::new();
    let n = fp.hashes.len();
    let mut i: usize = 0;
    while i < n
        invariant
            n == fp.hashes@.len(),
            i <= n,
            hashes@.len() == i,
            forall|j: int| 0 <= j < i ==> hashes@[j]@ == fp.hashes@[j]@,
        decreases n - i,
    {
        hashes.push(fp.hashes[i].clone());
        i = i + 1;
    }
    let r = Fingerprint { size: fp.size, hashes };
    proof {
        assert(r.hashes.deep_view() =~= fp.hashes.deep_view());
    }
    r
}

/// One line of the ledger: a path relative to the host's backup root, and
/// the fingerprint last captured for it.
#[derive(Debug)]
pub struct RecordEntry {
    pub path: String,
    pub fp: Fingerprint,
}

/// The per-host ledger. Well-formed records hold each path at most once.
#[derive(Debug)]
pub struct Record {
    pub entries: Vec<RecordEntry>,
}

impl Record {
    /// Each path occurs at most once.
    pub open spec fn wf(self) -> bool {
        forall|i: int, j: int|
            0 <= i < j < self.entries@.len() ==> self.entries@[i].path@ != self.entries@[j].path@
    }

    /// Whether the record holds a fingerprint for the given path.
    pub open spec fn contains_path(self, p: Seq<char>) -> bool {
        exists|i: int| 0 <= i < self.entries@.len() && self.entries@[i].path@ == p
    }

    /// The content of the fingerprint recorded for a path (meaningful when
    /// `contains_path` holds and the record is well-formed).
    pub open spec fn fp_at(self, p: Seq<char>) -> (u64, Seq<Seq<char>>) {
        let i = choose|i: int| 0 <= i < self.entries@.len() && self.entries@[i].path@ == p;
        fp_model(self.entries@[i].fp)
    }

    /// An empty record: the state before any backup has completed.
    pub fn new() -> (r: Record)
        ensures
            r.wf(),
            r.entries@.len() == 0,
            forall|p: Seq<char>| !r.contains_path(p),
    {
        Record { entries: Vec::new() }
    }

    /// Number of paths the record holds.
    pub fn len(&self) -> (r: usize)
        ensures
            r == self.entries@.len(),
    {
        self.entries.len()
    }

    /// Looks a path up, returning the recorded fingerprint if any.
    pub fn get(&self, path: &String) -> (r: Option<&Fingerprint>)
        requires
            self.wf(),
        ensures
            (match r {
                Some(fp) => self.contains_path(path@) && fp_model(*fp) == self.fp_at(path@),
                None => !self.contains_path(path@),
            }),
    {
        let n = self.entries.len();
        let mut i: usize = 0;
        while i < n
            invariant
                self.wf(),
                n == self.entries@.len(),
                i <= n,
                forall|j: int| 0 <= j < i ==> self.entries@[j].path@ != path@,
            decreases n - i,
        {
            if self.entries[i].path.eq(path) {
                proof {
                    assert(self.entries@[i as int].path@ == path@);
                    let w = choose|k: int|
                        0 <= k < self.entries@.len() && self.entries@[k].path@ == path@;
                    if w != i {
                        assert(self.entries@[w].path@ != self.entries@[i as int].path@);
                    }
                }
                return Some(&self.entries[i].fp);
            }
            i = i + 1;
        }
        None
    }
}

} // verus!
