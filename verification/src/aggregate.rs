//! Result aggregation: per-option tallies over the votes cast for one
//! poll. The result enumerates every canonical option exactly once (by
//! value, in canonical order), injecting zero counts for options nobody
//! chose, and the total equals the sum of the entries' counts.

use vstd::prelude::*;
use crate::models::VoteCount;
use crate::text::contains_string;

verus! {

/// How often `choice` occurs among the cast votes.
pub open spec fn count_of(cast: Seq<Seq<char>>, choice: Seq<char>) -> nat
    decreases cast.len(),
{
    if cast.len() == 0 {
        0
    } else {
        count_of(cast.drop_last(), choice) + if cast.last() == choice {
            1nat
        } else {
            0
        }
    }
}

/// How many cast votes name any of the given values.
pub open spec fn count_in(cast: Seq<Seq<char>>, vals: Seq<Seq<char>>) -> nat
    decreases cast.len(),
{
    if cast.len() == 0 {
        0
    } else {
        count_in(cast.drop_last(), vals) + if vals.contains(cast.last()) {
            1nat
        } else {
            0
        }
    }
}

/// The canonical option list with later repetitions of a value removed:
/// one occurrence per value, in first-occurrence order.
pub open spec fn dedup_keep_first(fields: Seq<Seq<char>>) -> Seq<Seq<char>>
    decreases fields.len(),
{
    if fields.len() == 0 {
        Seq::empty()
    } else {
        dedup_keep_first(fields.drop_last()) + if fields.drop_last().contains(fields.last()) {
            Seq::empty()
        } else {
            seq![fields.last()]
        }
    }
}

/// The choice strings of a tally list.
pub open spec fn entry_choices(entries: Seq<VoteCount>) -> Seq<Seq<char>> {
    Seq::new(entries.len(), |k: int| entries[k].choice@)
}

/// The sum of a tally list's counts.
pub open spec fn sum_counts(entries: Seq<VoteCount>) -> int
    decreases entries.len(),
{
    if entries.len() == 0 {
        0
    } else {
        sum_counts(entries.drop_last()) + entries.last().count
    }
}

/// Deduplication keeps exactly the values of the full list.
pub proof fn lemma_dedup_contains(fields: Seq<Seq<char>>, x: Seq<char>)
    ensures
        dedup_keep_first(fields).contains(x) <==> fields.contains(x),
    decreases fields.len(),
{
    if fields.len() > 0 {
        lemma_dedup_contains(fields.drop_last(), x);
        let prefix = fields.drop_last();
        if fields.contains(x) {
            let d = dedup_keep_first(fields);
            let dp = dedup_keep_first(prefix);
            let j = choose|j: int| 0 <= j < fields.len() && fields[j] == x;
            if j < fields.len() - 1 {
                assert(prefix[j] == x);
                assert(prefix.contains(x));
                let k = choose|k: int| 0 <= k < dp.len() && dp[k] == x;
                assert(d[k] == x);
            } else {
                if prefix.contains(x) {
                    let k = choose|k: int| 0 <= k < dp.len() && dp[k] == x;
                    assert(d[k] == x);
                } else {
                    assert(d[dp.len() as int] == x);
                }
            }
            assert(dedup_keep_first(fields).contains(x));
        }
        if dedup_keep_first(fields).contains(x) {
            if !prefix.contains(x) && fields.last() != x {
                let d = dedup_keep_first(prefix);
                let k = choose|k: int|
                    0 <= k < dedup_keep_first(fields).len() && dedup_keep_first(fields)[k] == x;
                assert(d.contains(x));
            }
            if prefix.contains(x) {
                let j = choose|j: int| 0 <= j < prefix.len() && prefix[j] == x;
                assert(fields[j] == x);
            }
        }
    }
}

/// No vote names a value from an empty set.
pub proof fn lemma_count_in_empty(cast: Seq<Seq<char>>)
    ensures
        count_in(cast, Seq::<Seq<char>>::empty()) == 0,
    decreases cast.len(),
{
    if cast.len() > 0 {
        lemma_count_in_empty(cast.drop_last());
    }
}

/// No more votes can name a set of values than there are votes.
pub proof fn lemma_count_in_bound(cast: Seq<Seq<char>>, vals: Seq<Seq<char>>)
    ensures
        count_in(cast, vals) <= cast.len(),
    decreases cast.len(),
{
    if cast.len() > 0 {
        lemma_count_in_bound(cast.drop_last(), vals);
    }
}

/// Adding one fresh value to a set raises its vote count by exactly the
/// multiplicity of that value.
pub proof fn lemma_count_in_extend(cast: Seq<Seq<char>>, vals: Seq<Seq<char>>, v: Seq<char>)
    requires
        !vals.contains(v),
    ensures
        count_in(cast, vals + seq![v]) == count_in(cast, vals) + count_of(cast, v),
    decreases cast.len(),
{
    if cast.len() > 0 {
        lemma_count_in_extend(cast.drop_last(), vals, v);
        let ext = vals + seq![v];
        if ext.contains(cast.last()) {
            let j = choose|j: int| 0 <= j < ext.len() && ext[j] == cast.last();
            if j < vals.len() {
                assert(vals.contains(cast.last()));
            } else {
                assert(cast.last() == v);
            }
        }
        if vals.contains(cast.last()) {
            let j = choose|j: int| 0 <= j < vals.len() && vals[j] == cast.last();
            assert(ext[j] == cast.last());
            assert(ext.contains(cast.last()));
        }
        if cast.last() == v {
            assert(ext[vals.len() as int] == v);
        }
    }
}

/// Counts how often one choice was cast.
pub fn count_choice(cast: &Vec<String>, choice: &String) -> (r: i64)
    requires
        cast@.len() < 0x7fff_ffff_ffff_ffff,
    ensures
        r == count_of(cast.deep_view(), choice@),
        0 <= r <= cast@.len(),
{
    let ghost cdv = cast.deep_view();
    let mut n: i64 = 0;
    let mut i: usize = 0;
    while i < cast.len()
        invariant
            i <= cast.len(),
            cdv == cast.deep_view(),
            cast@.len() < 0x7fff_ffff_ffff_ffff,
            0 <= n <= i,
            n == count_of(cdv.take(i as int), choice@),
        decreases cast.len() - i,
    {
        proof {
            assert(cdv.take(i + 1).drop_last() =~= cdv.take(i as int));
            assert(cdv.take(i + 1).last() == cdv[i as int]);
            assert(cdv[i as int] == cast@[i as int]@);
        }
        if cast[i] == *choice {
            n = n + 1;
        }
        i = i + 1;
    }
    proof {
        assert(cdv.take(cast.len() as int) =~= cdv);
    }
    n
}

/// Whether a tally list already has an entry for the given choice.
fn has_entry(entries: &Vec<VoteCount>, choice: &String) -> (r: bool)
    ensures
        r == entry_choices(entries@).contains(choice@),
{
    let mut i: usize = 0;
    while i < entries.len()
        invariant
            i <= entries.len(),
            forall|k: int| 0 <= k < i ==> entry_choices(entries@)[k] != choice@,
        decreases entries.len() - i,
    {
        if entries[i].choice == *choice {
            proof {
                assert(entry_choices(entries@)[i as int] == choice@);
            }
            return true;
        }
        i = i + 1;
    }
    false
}

/// Tallies the cast votes of one poll against its canonical option list:
/// one entry per canonical option value, in canonical order, with zero
/// counts injected for options nobody chose; the total is the sum of the
/// entries' counts.
pub fn aggregate_results(fields: &Vec<String>, cast: &Vec<String>) -> (r: (Vec<VoteCount>, i64))
    requires
        cast@.len() < 0x7fff_ffff_ffff_ffff,
    ensures
        entry_choices(r.0@) == dedup_keep_first(fields.deep_view()),
        forall|k: int|
            0 <= k < r.0@.len() ==> #[trigger] r.0@[k].count == count_of(
                cast.deep_view(),
                r.0@[k].choice@,
            ),
        r.1 == sum_counts(r.0@),
        0 <= r.1 <= cast@.len(),
{
    let ghost fdv = fields.deep_view();
    let ghost cdv = cast.deep_view();
    let mut entries: Vec<VoteCount> = Vec::new();
    let mut total: i64 = 0;
    let mut i: usize = 0;
    proof {
        assert(entry_choices(entries@) =~= Seq::<Seq<char>>::empty());
        lemma_count_in_empty(cdv);
    }
    while i < fields.len()
        invariant
            i <= fields.len(),
            fdv == fields.deep_view(),
            cdv == cast.deep_view(),
            cast@.len() < 0x7fff_ffff_ffff_ffff,
            entry_choices(entries@) =~= dedup_keep_first(fdv.take(i as int)),
            forall|k: int|
                0 <= k < entries@.len() ==> #[trigger] entries@[k].count == count_of(
                    cdv,
                    entries@[k].choice@,
                ),
            total == sum_counts(entries@),
            total == count_in(cdv, entry_choices(entries@)),
            0 <= total <= cast@.len(),
        decreases fields.len() - i,
    {
        proof {
            assert(fdv.take(i + 1).drop_last() =~= fdv.take(i as int));
            assert(fdv.take(i + 1).last() == fdv[i as int]);
            assert(fdv[i as int] == fields@[i as int]@);
        }
        let fresh = !has_entry(&entries, &fields[i]);
        proof {
            lemma_dedup_contains(fdv.take(i as int), fdv[i as int]);
        }
        if fresh {
            let c = count_choice(cast, &fields[i]);
            proof {
                lemma_count_in_extend(cdv, entry_choices(entries@), fdv[i as int]);
                lemma_count_in_bound(cdv, entry_choices(entries@) + seq![fdv[i as int]]);
            }
            let ghost pre = entries@;
            entries.push(VoteCount { choice: fields[i].clone(), count: c });
            total = total + c;
            proof {
                assert(entries@.drop_last() =~= pre);
                assert(entry_choices(entries@) =~= entry_choices(pre) + seq![fdv[i as int]]);
                assert(entry_choices(entries@) =~= dedup_keep_first(fdv.take(i + 1)));
            }
        }
        i = i + 1;
    }
    proof {
        assert(fdv.take(fields.len() as int) =~= fdv);
    }
    (entries, total)
}

/// Every canonical option has exactly one tally entry: each option value
/// occurs among the entry choices, and the entry choices repeat no value.
pub proof fn lemma_results_cover_options(fields: Seq<Seq<char>>, x: Seq<char>)
    ensures
        dedup_keep_first(fields).contains(x) <==> fields.contains(x),
        forall|i: int, j: int|
            0 <= i < j < dedup_keep_first(fields).len() ==> #[trigger] dedup_keep_first(fields)[i]
                != #[trigger] dedup_keep_first(fields)[j],
    decreases fields.len(),
{
    lemma_dedup_contains(fields, x);
    if fields.len() > 0 {
        lemma_results_cover_options(fields.drop_last(), x);
        let prefix = fields.drop_last();
        let d = dedup_keep_first(fields);
        let dp = dedup_keep_first(prefix);
        assert forall|i: int, j: int|
            0 <= i < j < d.len() implies #[trigger] d[i] != #[trigger] d[j] by {
            if j < dp.len() {
                assert(d[i] == dp[i] && d[j] == dp[j]);
            } else {
                assert(!prefix.contains(fields.last()));
                assert(d[j] == fields.last());
                assert(d[i] == dp[i]);
                assert(dp.contains(dp[i]));
                lemma_dedup_contains(prefix, dp[i]);
            }
        }
    }
}

} // verus!
