//! The restore planner: decides which recorded packages still need a
//! rebuild, from the presence of their binaries on disk and the operator's
//! force policy.
//!
//! Presence is handed in as data: for each record, one boolean per listed
//! binary, `true` when a file of that name already exists in the install
//! root's binary directory. A presence check that could not be carried out
//! is reported as `false` (missing), so that the package is rebuilt rather
//! than silently skipped.

use vstd::prelude::*;

use crate::record::{InstallInfo, InstallRecord};

verus! {

/// When a record must be rebuilt: always under `force_all`; always when it
/// lists no binaries at all (such a record can never be observed as already
/// installed); otherwise exactly when at least one of its binaries is
/// missing.
pub open spec fn needs_install_spec(info: InstallInfo, present: Seq<bool>, force_all: bool) -> bool {
    ||| force_all
    ||| info.bins@.len() == 0
    ||| exists|j: int| 0 <= j < present.len() && !present[j]
}

/// Decides whether one record needs a rebuild. `present` holds one entry
/// per listed binary.
pub fn needs_install(info: &InstallInfo, present: &Vec<bool>, force_all: bool) -> (r: bool)
    requires
        present@.len() == info.bins@.len(),
    ensures
        r == needs_install_spec(*info, present@, force_all),
{
    if force_all {
        return true;
    }
    if info.bins.len() == 0 {
        return true;
    }
    let mut j: usize = 0;
    while j < present.len()
        invariant
            j <= present@.len(),
            forall|t: int| 0 <= t < j ==> present@[t],
        decreases present@.len() - j,
    {
        if !present[j] {
            proof {
                assert(!present@[j as int]);
            }
            return true;
        }
        j += 1;
    }
    proof {
        assert(forall|t: int| 0 <= t < present@.len() ==> present@[t]);
    }
    false
}

/// What it means for `idxs` to be the work list planned from `records`:
/// the indices are strictly increasing positions into `records`, and a
/// position is listed exactly when its record needs a rebuild.
pub open spec fn is_plan(
    records: Seq<InstallRecord>,
    presence: Seq<Vec<bool>>,
    force_all: bool,
    idxs: Seq<usize>,
) -> bool {
    &&& forall|a: int, b: int| 0 <= a < b < idxs.len() ==> idxs[a] < idxs[b]
    &&& forall|a: int| 0 <= a < idxs.len() ==> (idxs[a] as int) < records.len()
    &&& forall|k: int|
        0 <= k < records.len() ==> (idxs.contains(k as usize) <==> needs_install_spec(
            records[k].info,
            presence[k]@,
            force_all,
        ))
}

/// Plans the restore: returns, in manifest order, the positions of the
/// records that need a rebuild.
pub fn plan(records: &Vec<InstallRecord>, presence: &Vec<Vec<bool>>, force_all: bool) -> (r: Vec<
    usize,
>)
    requires
        presence@.len() == records@.len(),
        forall|i: int| 0 <= i < records@.len() ==> presence@[i]@.len() == records@[i].info.bins@.len(),
    ensures
        is_plan(records@, presence@, force_all, r@),
{
    let mut r: Vec<usize> = Vec::new();
    let mut k: usize = 0;
    while k < records.len()
        invariant
            k <= records@.len(),
            presence@.len() == records@.len(),
            forall|i: int|
                0 <= i < records@.len() ==> presence@[i]@.len() == records@[i].info.bins@.len(),
            forall|a: int, b: int| 0 <= a < b < r@.len() ==> r@[a] < r@[b],
            forall|a: int| 0 <= a < r@.len() ==> (r@[a] as int) < k as int,
            forall|m: int|
                0 <= m < k ==> (r@.contains(m as usize) <==> needs_install_spec(
                    records@[m].info,
                    presence@[m]@,
                    force_all,
                )),
        decreases records@.len() - k,
    {
        let ghost old_r = r@;
        let need = needs_install(&records[k].info, &presence[k], force_all);
        if need {
            r.push(k);
        }
        proof {
            assert forall|m: int|
                0 <= m < k + 1 implies (r@.contains(m as usize) <==> needs_install_spec(
                records@[m].info,
                presence@[m]@,
                force_all,
            )) by {
                if m < k {
                    if old_r.contains(m as usize) {
                        let i = choose|i: int| 0 <= i < old_r.len() && old_r[i] == m as usize;
                        assert(r@[i] == m as usize);
                    }
                    if r@.contains(m as usize) {
                        let i = choose|i: int| 0 <= i < r@.len() && r@[i] == m as usize;
                        if i < old_r.len() {
                            assert(old_r[i] == m as usize);
                        } else {
                            assert(r@[i] == k as usize);
                        }
                    }
                } else {
                    if need {
                        assert(r@[r@.len() - 1] == k as usize);
                    } else {
                        if r@.contains(k as usize) {
                            let i = choose|i: int| 0 <= i < r@.len() && r@[i] == k as usize;
                            assert((r@[i] as int) < k as int);
                        }
                    }
                }
            }
        }
        k += 1;
    }
    r
}

/// A record whose binaries are all present — and there is at least one —
/// is excluded from the work list when no full rebuild is forced.
pub proof fn lemma_all_present_excluded(
    records: Seq<InstallRecord>,
    presence: Seq<Vec<bool>>,
    idxs: Seq<usize>,
    k: int,
)
    requires
        is_plan(records, presence, false, idxs),
        0 <= k < records.len(),
        records[k].info.bins@.len() > 0,
        presence[k]@.len() == records[k].info.bins@.len(),
        forall|j: int| 0 <= j < presence[k]@.len() ==> presence[k]@[j],
    ensures
        !idxs.contains(k as usize),
{
    assert(!needs_install_spec(records[k].info, presence[k]@, false));
}

/// A record with at least one missing binary is planned for a rebuild,
/// whatever the force policy says.
pub proof fn lemma_missing_included(
    records: Seq<InstallRecord>,
    presence: Seq<Vec<bool>>,
    force_all: bool,
    idxs: Seq<usize>,
    k: int,
    j: int,
)
    requires
        is_plan(records, presence, force_all, idxs),
        0 <= k < records.len(),
        0 <= j < presence[k]@.len(),
        !presence[k]@[j],
    ensures
        idxs.contains(k as usize),
{
    assert(needs_install_spec(records[k].info, presence[k]@, force_all));
}

/// Under `force_all`, every record is planned for a rebuild, present or not.
pub proof fn lemma_force_includes(
    records: Seq<InstallRecord>,
    presence: Seq<Vec<bool>>,
    idxs: Seq<usize>,
    k: int,
)
    requires
        is_plan(records, presence, true, idxs),
        0 <= k < records.len(),
    ensures
        idxs.contains(k as usize),
{
    assert(needs_install_spec(records[k].info, presence[k]@, true));
}

/// A record that lists no binaries is always planned for a rebuild: with
/// nothing to check on disk it can never be judged already installed.
pub proof fn lemma_empty_bins_included(
    records: Seq<InstallRecord>,
    presence: Seq<Vec<bool>>,
    force_all: bool,
    idxs: Seq<usize>,
    k: int,
)
    requires
        is_plan(records, presence, force_all, idxs),
        0 <= k < records.len(),
        records[k].info.bins@.len() == 0,
    ensures
        idxs.contains(k as usize),
{
}

} // verus!
