//! Change detection: classify each remote file against the prior record and
//! plan which files the transfer phase must move.

use vstd::prelude::*;
use crate::record::{Fingerprint, Record, RecordEntry, fp_model, fingerprints_equal, copy_fingerprint};

verus! {

/// How one file compares to its prior fingerprint.
#[derive(Debug, Clone, Copy, PartialEq, Eq, Structural)]
pub enum FileStatus {
    /// No prior fingerprint was recorded for the path.
    New,
    /// The size or some sampled window hash differs from the recorded one.
    Changed,
    /// Size and every sampled window hash match the recorded fingerprint.
    Unchanged,
}

/// Classifies one file against its prior fingerprint, if any. A file with no
/// prior fingerprint is new regardless of content; one whose size and sampled
/// window hashes all match the recorded fingerprint is unchanged; any other
/// file is changed.
pub fn classify(prior: Option<&Fingerprint>, current: &Fingerprint) -> (r: FileStatus)
    ensures
        r == (match prior {
            Some(p) => if fp_model(*p) == fp_model(*current) {
                FileStatus::Unchanged
            } else {
                FileStatus::Changed
            },
            None => FileStatus::New,
        }),
        prior is None ==> r == FileStatus::New,
        (prior matches Some(p) && fp_model(*p) == fp_model(*current)) ==> r == FileStatus::Unchanged,
    {
    match prior {
        None => FileStatus::New,
        Some(p) => {
            if fingerprints_equal(p, current) {
                FileStatus::Unchanged
            } else {
                FileStatus::Changed
            }
        },
    }
}

/// One file of the current remote listing, with the fingerprint just
/// captured for it.
#[derive(Debug)]
pub struct RemoteFile {
    pub path: String,
    pub fp: Fingerprint,
}

/// What a backup run must do: the paths to transfer, and the record to
/// persist once the transfer phase has succeeded.
#[derive(Debug)]
pub struct BackupPlan {
    pub transfer: Vec<String>,
    pub record: Record,
}

/// Whether a file must be transferred: it has no prior fingerprint, or its
/// current content differs from the recorded one.
pub open spec fn needs_transfer(prior: Record, path: Seq<char>, fp: (u64, Seq<Seq<char>>)) -> bool {
    !(prior.contains_path(path) && prior.fp_at(path) == fp)
}

/// A listing holds each path at most once.
pub open spec fn listing_wf(remote: Seq<RemoteFile>) -> bool {
    forall|i: int, j: int| 0 <= i < j < remote.len() ==> remote[i].path@ != remote[j].path@
}

/// Whether some file of the listing has the given path.
pub open spec fn listed(remote: Seq<RemoteFile>, p: Seq<char>) -> bool {
    exists|i: int| 0 <= i < remote.len() && remote[i].path@ == p
}

/// Whether some file of the listing has the given path and must be
/// transferred.
pub open spec fn listed_needing_transfer(prior: Record, remote: Seq<RemoteFile>, p: Seq<char>) -> bool {
    exists|i: int|
        0 <= i < remote.len() && remote[i].path@ == p
            && needs_transfer(prior, p, fp_model(remote[i].fp))
}

/// Whether some element of the path list has the given view.
pub open spec fn path_in(v: Seq<String>, p: Seq<char>) -> bool {
    exists|k: int| 0 <= k < v.len() && v[k]@ == p
}

/// The paths a run must transfer: the new and changed files of the listing,
/// in listing order, each once.
pub open spec fn planned_transfers(prior: Record, remote: Seq<RemoteFile>) -> Seq<String>
    decreases remote.len(),
{
    if remote.len() == 0 {
        Seq::empty()
    } else {
        let pre = planned_transfers(prior, remote.drop_last());
        if needs_transfer(prior, remote.last().path@, fp_model(remote.last().fp)) {
            pre.push(remote.last().path)
        } else {
            pre
        }
    }
}

/// Plans one backup run. The transfer set holds exactly the new and changed
/// files of the current listing; the planned record holds exactly the
/// current listing's paths with their freshly captured fingerprints, so a
/// path that vanished from the remote host is dropped.
pub fn plan_backup(prior: &Record, remote: &Vec<RemoteFile>) -> (r: BackupPlan)
    requires
        prior.wf(),
        listing_wf(remote@),
    ensures
        r.record.wf(),
        r.record.entries@.len() == remote@.len(),
        forall|i: int| 0 <= i < remote@.len() ==> r.record.entries@[i].path@ == remote@[i].path@
            && fp_model(r.record.entries@[i].fp) == fp_model(remote@[i].fp),
        r.transfer@ == planned_transfers(*prior, remote@),
        forall|k: int| #![trigger r.transfer@[k]] 0 <= k < r.transfer@.len()
            ==> listed_needing_transfer(*prior, remote@, r.transfer@[k]@),
        forall|i: int| #![trigger remote@[i]] 0 <= i < remote@.len()
            && needs_transfer(*prior, remote@[i].path@, fp_model(remote@[i].fp))
            ==> path_in(r.transfer@, remote@[i].path@),
        forall|p: Seq<char>| r.record.contains_path(p) ==> listed(remote@, p),
        forall|p: Seq<char>| prior.contains_path(p) && !listed(remote@, p)
            ==> !r.record.contains_path(p),
{
    let mut transfer: Vec<String> = Vec::new();
    let mut entries: Vec<RecordEntry> = Vec::new();
    let n = remote.len();
    let mut i: usize = 0;
    while i < n
        invariant
            prior.wf(),
            listing_wf(remote@),
            n == remote@.len(),
            i <= n,
            entries@.len() == i,
            forall|j: int| 0 <= j < i ==> entries@[j].path@ == remote@[j].path@
                && fp_model(entries@[j].fp) == fp_model(remote@[j].fp),
            transfer@ == planned_transfers(*prior, remote@.take(i as int)),
            forall|k: int| #![trigger transfer@[k]] 0 <= k < transfer@.len()
                ==> listed_needing_transfer(*prior, remote@, transfer@[k]@),
            forall|j: int| #![trigger remote@[j]] 0 <= j < i
                && needs_transfer(*prior, remote@[j].path@, fp_model(remote@[j].fp))
                ==> path_in(transfer@, remote@[j].path@),
        decreases n - i,
    {
        let file = &remote[i];
        let prior_fp = prior.get(&file.path);
        let status = classify(prior_fp, &file.fp);
        let is_unchanged = match status {
            FileStatus::Unchanged => true,
            _ => false,
        };
        let ghost pre_transfer = transfer@;
        proof {
            assert(is_unchanged
                == !needs_transfer(*prior, remote@[i as int].path@, fp_model(remote@[i as int].fp)));
        }
        if !is_unchanged {
            transfer.push(file.path.clone());
            proof {
                assert(transfer@[transfer@.len() - 1]@ == remote@[i as int].path@);
            }
        }
        entries.push(RecordEntry { path: file.path.clone(), fp: copy_fingerprint(&file.fp) });
        proof {
            assert(remote@.take(i + 1 as int).drop_last() =~= remote@.take(i as int));
            assert(remote@.take(i + 1 as int).last() == remote@[i as int]);
            assert(transfer@ =~= planned_transfers(*prior, remote@.take(i + 1 as int)));
            assert forall|k: int| 0 <= k < transfer@.len()
                implies listed_needing_transfer(*prior, remote@, transfer@[k]@) by {
                if k < pre_transfer.len() {
                    assert(transfer@[k] == pre_transfer[k]);
                } else {
                    assert(transfer@[k]@ == remote@[i as int].path@);
                }
            }
            assert forall|j: int| 0 <= j < i + 1
                && needs_transfer(*prior, remote@[j].path@, fp_model(remote@[j].fp))
                implies path_in(transfer@, remote@[j].path@) by {
                if j < i as int {
                    let k0 = choose|k: int|
                        0 <= k < pre_transfer.len() && pre_transfer[k]@ == remote@[j].path@;
                    assert(transfer@[k0]@ == remote@[j].path@);
                } else {
                    assert(transfer@[transfer@.len() - 1]@ == remote@[j].path@);
                }
            }
        }
        i = i + 1;
    }
    let record = Record { entries };
    proof {
        assert(record.wf());
        assert(remote@.take(n as int) =~= remote@);
    }
    BackupPlan { transfer, record }
}

/// A file whose current size and sampled window hashes match its recorded
/// fingerprint is never re-transferred: under the planner's guarantees, no
/// planned transfer names its path.
pub proof fn lemma_unchanged_not_transferred(
    prior: Record,
    remote: Seq<RemoteFile>,
    transfer: Seq<String>,
    i: int,
)
    requires
        listing_wf(remote),
        forall|k: int| #![trigger transfer[k]] 0 <= k < transfer.len()
            ==> listed_needing_transfer(prior, remote, transfer[k]@),
        0 <= i < remote.len(),
        !needs_transfer(prior, remote[i].path@, fp_model(remote[i].fp)),
    ensures
        !path_in(transfer, remote[i].path@),
{
    if path_in(transfer, remote[i].path@) {
        let k = choose|k: int| 0 <= k < transfer.len() && transfer[k]@ == remote[i].path@;
        assert(listed_needing_transfer(prior, remote, transfer[k]@));
        let j = choose|j: int|
            0 <= j < remote.len() && remote[j].path@ == transfer[k]@
                && needs_transfer(prior, transfer[k]@, fp_model(remote[j].fp));
        if j < i {
            assert(remote[j].path@ != remote[i].path@);
        } else if i < j {
            assert(remote[i].path@ != remote[j].path@);
        }
    }
}

/// A file absent from the prior record is transferred whatever its content:
/// under the planner's guarantees, its path stands in the transfer set.
pub proof fn lemma_new_file_transferred(
    prior: Record,
    remote: Seq<RemoteFile>,
    transfer: Seq<String>,
    i: int,
)
    requires
        forall|j: int| #![trigger remote[j]] 0 <= j < remote.len()
            && needs_transfer(prior, remote[j].path@, fp_model(remote[j].fp))
            ==> path_in(transfer, remote[j].path@),
        0 <= i < remote.len(),
        !prior.contains_path(remote[i].path@),
    ensures
        path_in(transfer, remote[i].path@),
{
    assert(needs_transfer(prior, remote[i].path@, fp_model(remote[i].fp)));
}

} // verus!
