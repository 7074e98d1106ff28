//! Settings of the trust ranking (`[trust_rank]`).
use crate::types::Float;
use crate::uri::PubkyId;
use vstd::prelude::*;

verus! {

/// Keys of a seed list.
pub open spec fn key_texts(ids: Seq<PubkyId>) -> Seq<Seq<char>> {
    Seq::new(ids.len(), |i: int| ids[i]@)
}

/// A list without its later duplicates.
pub open spec fn first_occurrences(keys: Seq<Seq<char>>) -> Seq<Seq<char>>
    decreases keys.len(),
{
    if keys.len() == 0 {
        Seq::empty()
    } else {
        let before = first_occurrences(keys.drop_last());
        if keys.drop_last().contains(keys.last()) {
            before
        } else {
            before.push(keys.last())
        }
    }
}

/// What a list without its later duplicates holds: each key of the list, once.
proof fn lemma_first_occurrences(keys: Seq<Seq<char>>)
    ensures
        first_occurrences(keys).no_duplicates(),
        forall|k: Seq<char>| #[trigger]
            first_occurrences(keys).contains(k) <==> keys.contains(k),
    decreases keys.len(),
{
    if keys.len() > 0 {
        let init = keys.drop_last();
        let before = first_occurrences(init);
        let all = first_occurrences(keys);
        lemma_first_occurrences(init);
        assert forall|k: Seq<char>| #[trigger] all.contains(k) <==> keys.contains(k) by {
            if all.contains(k) {
                let i = choose|i: int| 0 <= i < all.len() && all[i] == k;
                if i < before.len() {
                    assert(before.contains(before[i]));
                    let j = choose|j: int| 0 <= j < init.len() && init[j] == k;
                    assert(keys[j] == k);
                } else {
                    assert(keys[keys.len() - 1] == k);
                }
            }
            if keys.contains(k) {
                let i = choose|i: int| 0 <= i < keys.len() && keys[i] == k;
                if i < init.len() {
                    assert(init[i] == k);
                    assert(before.contains(k));
                    let j = choose|j: int| 0 <= j < before.len() && before[j] == k;
                    assert(all[j] == k);
                } else if !init.contains(k) {
                    assert(all[all.len() - 1] == k);
                } else {
                    assert(before.contains(k));
                }
            }
        }
        if !init.contains(keys.last()) {
            assert(!before.contains(keys.last()));
            assert(all.no_duplicates());
        }
    }
}

/// Drops later duplicates from the seeds, keeping first-occurrence order.
pub fn dedupe_seed(ids: Vec<PubkyId>) -> (r: Vec<PubkyId>)
    ensures
        key_texts(r@) == first_occurrences(key_texts(ids@)),
{
    let ghost all = key_texts(ids@);
    let mut kept: Vec<PubkyId> = Vec::new();
    let mut i: usize = 0;
    assert(key_texts(kept@) =~= first_occurrences(all.take(0)));
    while i < ids.len()
        invariant
            i <= ids.len(),
            all == key_texts(ids@),
            key_texts(kept@) == first_occurrences(all.take(i as int)),
        decreases ids.len() - i,
    {
        let mut seen: bool = false;
        let mut j: usize = 0;
        let ghost before = key_texts(kept@);
        while j < kept.len()
            invariant
                i < ids.len(),
                j <= kept.len(),
                before == key_texts(kept@),
                seen == before.take(j as int).contains(ids@[i as int]@),
            decreases kept.len() - j,
        {
            proof {
                let t = before.take(j as int + 1);
                assert(t =~= before.take(j as int).push(before[j as int]));
                if before.take(j as int).contains(ids@[i as int]@) {
                    let k = choose|k: int| 0 <= k < j && before.take(j as int)[k] == ids@[i as int]@;
                    assert(t[k] == ids@[i as int]@);
                }
                assert(t[j as int] == kept@[j as int]@);
            }
            if *kept[j].as_str() == *ids[i].as_str() {
                seen = true;
            }
            j = j + 1;
        }
        proof {
            let taken = all.take(i as int + 1);
            assert(taken.drop_last() =~= all.take(i as int));
            assert(taken.last() == ids@[i as int]@);
            assert(before.take(j as int) =~= before);
            lemma_first_occurrences(all.take(i as int));
        }
        if !seen {
            let id = ids[i].copy();
            proof {
                assert(key_texts(kept@.push(id)) =~= before.push(id@));
            }
            kept.push(id);
        }
        i = i + 1;
    }
    assert(all.take(i as int) =~= all);
    kept
}

/// Accepts a number of iterations, or of reported ranks, that is at least 1.
pub fn check_at_least_one(val: u64, field: &str) -> (r: Result<u64, String>)
    ensures
        match r {
            Ok(v) => val >= 1 && v == val,
            Err(e) => val == 0 && e@ == field@ + " must be at least 1"@,
        },
{
    if val == 0 {
        Err(field.to_owned().concat(" must be at least 1"))
    } else {
        Ok(val)
    }
}

/// Trust-rank computation parameters (`[trust_rank]`).
#[derive(Debug, Clone, PartialEq, Eq)]
pub struct TrustRankConfig {
    /// Users whom the ranking trusts to begin with.
    pub seed: Vec<PubkyId>,
    /// Share of the trust that goes back to the seeds.
    pub alpha: Float,
    pub max_iterations: u64,
    /// Change below which the ranking has settled.
    pub tolerance: Float,
    pub report_enabled: bool,
    /// Directory that reports are written to.
    pub report_dir: String,
    /// Largest number of ranks in a report.
    pub report_limit: u64,
}

/// Whether `r` is what configured parameters come to.
pub open spec fn trust_checked_as(
    configured: TrustRankConfig,
    r: Result<TrustRankConfig, String>,
) -> bool {
    if configured.max_iterations == 0 {
        r matches Err(e) && e@ == "max_iterations"@ + " must be at least 1"@
    } else if configured.report_limit == 0 {
        r matches Err(e) && e@ == "report_limit"@ + " must be at least 1"@
    } else {
        &&& r matches Ok(c)
        &&& key_texts(c.seed@) == first_occurrences(key_texts(configured.seed@))
        &&& c == (TrustRankConfig { seed: c.seed, ..configured })
    }
}

impl TrustRankConfig {
    /// Accepts parameters with at least one iteration and at least one reported rank, and drops
    /// duplicate seeds.
    pub fn checked(self) -> (r: Result<TrustRankConfig, String>)
        ensures
            trust_checked_as(self, r),
    {
        match check_at_least_one(self.max_iterations, "max_iterations") {
            Err(e) => Err(e),
            Ok(_) => match check_at_least_one(self.report_limit, "report_limit") {
                Err(e) => Err(e),
                Ok(_) => Ok(TrustRankConfig { seed: dedupe_seed(self.seed), ..self }),
            },
        }
    }
}

/// Every seed is kept once, and a list without duplicates is kept as it is.
pub proof fn law_seeds_are_kept_once(keys: Seq<Seq<char>>)
    ensures
        first_occurrences(keys).no_duplicates(),
        forall|k: Seq<char>| #[trigger]
            first_occurrences(keys).contains(k) <==> keys.contains(k),
        keys.no_duplicates() ==> first_occurrences(keys) == keys,
        first_occurrences(first_occurrences(keys)) == first_occurrences(keys),
{
    lemma_first_occurrences(keys);
    lemma_distinct_is_kept(first_occurrences(keys));
    if keys.no_duplicates() {
        lemma_distinct_is_kept(keys);
    }
}

/// A list without duplicates is kept as it is.
proof fn lemma_distinct_is_kept(keys: Seq<Seq<char>>)
    requires
        keys.no_duplicates(),
    ensures
        first_occurrences(keys) == keys,
    decreases keys.len(),
{
    if keys.len() > 0 {
        let init = keys.drop_last();
        assert(init.no_duplicates());
        lemma_distinct_is_kept(init);
        assert(!init.contains(keys.last()));
        assert(init.push(keys.last()) =~= keys);
    }
}

/// Parameters are refused exactly where nothing would be computed or reported, and said to be so by
/// their name. Accepted parameters are those configured, with every seed kept and none twice.
pub proof fn law_accepted_parameters_are_those_configured(
    configured: TrustRankConfig,
    r: Result<TrustRankConfig, String>,
)
    requires
        trust_checked_as(configured, r),
    ensures
        r is Ok <==> configured.max_iterations >= 1 && configured.report_limit >= 1,
        r matches Err(e) ==> e@ == (if configured.max_iterations == 0 {
            "max_iterations"@
        } else {
            "report_limit"@
        }) + " must be at least 1"@,
        r matches Ok(c) ==> c == (TrustRankConfig { seed: c.seed, ..configured }),
        r matches Ok(c) ==> key_texts(c.seed@).no_duplicates(),
        r matches Ok(c) ==> forall|k: Seq<char>| #[trigger]
            key_texts(c.seed@).contains(k) <==> key_texts(configured.seed@).contains(k),
{
    law_seeds_are_kept_once(key_texts(configured.seed@));
}

} // verus!
