//! A scan of an account: finding the account, gathering what each resource type's scan
//! found, and the result reported.

use vstd::prelude::*;
use crate::provider::{resources_view, CloudAccount, CloudResource, ResourceV};
use crate::text::{cat3, str_eq};

verus! {

/// The outcome of a scan.
#[derive(Debug)]
pub struct ScanResult {
    pub scan_id: String,
    pub account_id: String,
    pub total_resources: usize,
    pub status: String,
}

/// The index of the first account with id `id`.
pub open spec fn account_index(ids: Seq<Seq<char>>, id: Seq<char>) -> Option<int>
    decreases ids.len(),
{
    if ids.len() == 0 {
        None
    } else {
        match account_index(ids.drop_last(), id) {
            Some(i) => Some(i),
            None => if ids.last() == id {
                Some(ids.len() - 1)
            } else {
                None
            },
        }
    }
}

/// The ids of a list of accounts.
pub open spec fn account_ids(accounts: Seq<CloudAccount>) -> Seq<Seq<char>> {
    accounts.map_values(|a: CloudAccount| a.id@)
}

/// Finds the account to scan: the first with the given id, else the error
/// `Account {id} not found`.
pub fn find_account(accounts: &Vec<CloudAccount>, id: &str) -> (r: Result<usize, String>)
    ensures
        match r {
            Ok(i) => account_index(account_ids(accounts@), id@) == Some(i as int),
            Err(e) => account_index(account_ids(accounts@), id@) is None && e@ == "Account "@ + id@
                + " not found"@,
        },
{
    let ghost ids = account_ids(accounts@);
    let n = accounts.len();
    let mut i: usize = 0;
    assert(ids.take(0) =~= Seq::<Seq<char>>::empty());
    while i < n
        invariant
            n == accounts@.len(),
            ids == account_ids(accounts@),
            i <= n,
            account_index(ids.take(i as int), id@) is None,
        decreases n - i,
    {
        assert(ids.take(i + 1).drop_last() =~= ids.take(i as int));
        assert(ids.take(i + 1).last() == accounts@[i as int].id@);
        if str_eq(accounts[i].id.as_str(), id) {
            proof {
                lemma_index_prefix(ids, id@, i + 1);
            }
            return Ok(i);
        }
        i = i + 1;
    }
    assert(ids.take(n as int) =~= ids);
    Err(cat3("Account ", id, " not found"))
}

proof fn lemma_index_prefix(ids: Seq<Seq<char>>, id: Seq<char>, m: int)
    requires
        0 <= m <= ids.len(),
        account_index(ids.take(m), id) is Some,
    ensures
        account_index(ids, id) == account_index(ids.take(m), id),
    decreases ids.len() - m,
{
    if m < ids.len() {
        assert(ids.take(m + 1).drop_last() =~= ids.take(m));
        lemma_index_prefix(ids, id, m + 1);
    } else {
        assert(ids.take(m) =~= ids);
    }
}

/// The resources of per-type scans, in order; a failed scan (`None`) adds nothing.
pub open spec fn gathered(parts: Seq<Option<Seq<ResourceV>>>) -> Seq<ResourceV>
    decreases parts.len(),
{
    if parts.len() == 0 {
        Seq::empty()
    } else {
        gathered(parts.drop_last()) + match parts.last() {
            Some(r) => r,
            None => Seq::empty(),
        }
    }
}

/// The value of per-type scan outcomes.
pub open spec fn parts_view(parts: Seq<Option<Vec<CloudResource>>>) -> Seq<Option<Seq<ResourceV>>> {
    parts.map_values(
        |p: Option<Vec<CloudResource>>|
            match p {
                Some(v) => Some(resources_view(v@)),
                None => None,
            },
    )
}

/// Gathers what the per-type scans found, in scan order; failed scans are skipped.
pub fn gather_results(parts: Vec<Option<Vec<CloudResource>>>) -> (r: Vec<CloudResource>)
    ensures
        resources_view(r@) == gathered(parts_view(parts@)),
{
    let ghost pv = parts_view(parts@);
    let mut out: Vec<CloudResource> = Vec::new();
    let mut parts = parts;
    let ghost all = parts@;
    let n = parts.len();
    let mut i: usize = 0;
    assert(resources_view(out@) =~= Seq::<ResourceV>::empty());
    assert(pv.take(0) =~= Seq::<Option<Seq<ResourceV>>>::empty());
    assert(parts@ =~= all.subrange(0, n as int));
    while i < n
        invariant
            n == all.len(),
            pv == parts_view(all),
            i <= n,
            parts@ =~= all.subrange(i as int, n as int),
            resources_view(out@) == gathered(pv.take(i as int)),
        decreases n - i,
    {
        assert(pv.take(i + 1).drop_last() =~= pv.take(i as int));
        let part = parts.remove(0);
        assert(part == all[i as int]);
        match part {
            Some(mut found) => {
                let ghost before = resources_view(out@);
                let ghost added = resources_view(found@);
                out.append(&mut found);
                assert(resources_view(out@) =~= before + added);
                assert(pv[i as int] == Some(added));
            },
            None => {
                assert(pv[i as int] == None::<Seq<ResourceV>>);
                assert(resources_view(out@) =~= resources_view(out@) + Seq::<ResourceV>::empty());
            },
        }
        i = i + 1;
    }
    assert(pv.take(n as int) =~= pv);
    out
}

/// The result of a completed scan.
pub fn completed_scan(scan_id: String, account_id: String, total: usize) -> (r: ScanResult)
    ensures
        r.scan_id == scan_id,
        r.account_id == account_id,
        r.total_resources == total,
        r.status@ == "completed"@,
{
    ScanResult { scan_id, account_id, total_resources: total, status: String::from_str("completed") }
}


/// The account found for an id is the first account with that id; when none is found,
/// no account has it.
pub proof fn law_find_account_finds_the_first(ids: Seq<Seq<char>>, id: Seq<char>)
    ensures
        account_index(ids, id) matches Some(i) ==> 0 <= i < ids.len() && ids[i] == id && forall|
            j: int,
        | 0 <= j < i ==> ids[j] != id,
        account_index(ids, id) is None ==> forall|j: int| 0 <= j < ids.len() ==> ids[j] != id,
    decreases ids.len(),
{
    if ids.len() > 0 {
        law_find_account_finds_the_first(ids.drop_last(), id);
        let p = ids.drop_last();
        assert forall|j: int| 0 <= j < p.len() implies p[j] == ids[j] by {}
    }
}

/// Gathering keeps the resources of every successful scan, in scan order, and drops
/// the failed ones: gathering two runs of scans one after the other gives the two
/// gatherings one after the other.
pub proof fn law_gathered_concatenates(a: Seq<Option<Seq<ResourceV>>>, b: Seq<Option<Seq<ResourceV>>>)
    ensures
        gathered(a + b) == gathered(a) + gathered(b),
        gathered(Seq::empty()) == Seq::<ResourceV>::empty(),
        forall|x: Seq<ResourceV>| gathered(seq![Some(x)]) == x,
        gathered(seq![None::<Seq<ResourceV>>]) == Seq::<ResourceV>::empty(),
    decreases b.len(),
{
    if b.len() == 0 {
        assert(a + b =~= a);
        assert(gathered(a) + Seq::<ResourceV>::empty() =~= gathered(a));
    } else {
        law_gathered_concatenates(a, b.drop_last());
        assert((a + b).drop_last() =~= a + b.drop_last());
        assert((a + b).last() == b.last());
        let tail = match b.last() {
            Some(r) => r,
            None => Seq::<ResourceV>::empty(),
        };
        assert(gathered(a) + gathered(b.drop_last()) + tail =~= gathered(a) + (gathered(
            b.drop_last(),
        ) + tail));
    }
    let none = Seq::<Option<Seq<ResourceV>>>::empty();
    assert(gathered(none) == Seq::<ResourceV>::empty());
    assert forall|x: Seq<ResourceV>| gathered(seq![Some(x)]) == x by {
        let s = seq![Some(x)];
        assert(s.len() == 1);
        assert(s.last() == Some(x));
        assert(s.drop_last() =~= none);
        assert(Seq::<ResourceV>::empty() + x =~= x);
    }
    let s = seq![None::<Seq<ResourceV>>];
    assert(s.len() == 1);
    assert(s.last() == None::<Seq<ResourceV>>);
    assert(s.drop_last() =~= none);
    assert(Seq::<ResourceV>::empty() + Seq::<ResourceV>::empty() =~= Seq::<ResourceV>::empty());
}

} // verus!
