//! Ranking entries by usage: which of them lead, and in what order.
//!
//! Entries are known by their place in the sequence they came in. The
//! greater usage leads; of two entries with the same usage, the one that
//! came first does.

use vstd::prelude::*;

verus! {

/// The entry at place `a` is listed before the one at place `b`: its usage
/// is greater, or it is the same and `a` is the earlier place.
pub open spec fn ranks_before(usage: Seq<u64>, a: int, b: int) -> bool {
    usage[a] > usage[b] || (usage[a] == usage[b] && a < b)
}

/// `order` lists the places of the leading entries of `usage`: as many as
/// `limit` allows, each place of the sequence, in ranking order, and ranked
/// before every entry left out.
pub open spec fn is_top_ranking(usage: Seq<u64>, limit: nat, order: Seq<usize>) -> bool {
    &&& order.len() == if limit <= usage.len() {
        limit
    } else {
        usage.len()
    }
    &&& forall|k: int| 0 <= k < order.len() ==> (#[trigger] order[k]) < usage.len()
    &&& forall|j: int, k: int|
        0 <= j < k < order.len() ==> ranks_before(
            usage,
            #[trigger] order[j] as int,
            #[trigger] order[k] as int,
        )
    &&& forall|i: usize, k: int|
        i < usage.len() && 0 <= k < order.len() && !order.contains(i) ==> #[trigger] ranks_before(
            usage,
            order[k] as int,
            i as int,
        )
}

/// The places of the leading entries of `usage`, at most `limit` of them, in
/// ranking order.
pub open spec fn top_ranking(usage: Seq<u64>, limit: nat) -> Seq<usize> {
    choose|order: Seq<usize>| is_top_ranking(usage, limit, order)
}

/// Where two rankings agree before position `p` and differ at it, the entry
/// that `first` has there is ranked before the one that `second` has.
proof fn lemma_leads_the_rest(
    usage: Seq<u64>,
    limit: nat,
    first: Seq<usize>,
    second: Seq<usize>,
    p: int,
)
    requires
        is_top_ranking(usage, limit, first),
        is_top_ranking(usage, limit, second),
        0 <= p < first.len(),
        forall|k: int| 0 <= k < p ==> first[k] == second[k],
        first[p] != second[p],
    ensures
        ranks_before(usage, first[p] as int, second[p] as int),
{
    let b = second[p];
    if first.contains(b) {
        let m = choose|m: int| 0 <= m < first.len() && first[m] == b;
        if m < p {
            // `second` would hold the same place twice.
            assert(second[m] == second[p]);
            assert(ranks_before(usage, second[m] as int, second[p] as int));
        }
        assert(ranks_before(usage, first[p] as int, first[m] as int));
    } else {
        assert(ranks_before(usage, first[p] as int, b as int));
    }
}

/// Two rankings of the same entries under the same limit agree up to any
/// position.
proof fn lemma_rankings_agree_up_to(
    usage: Seq<u64>,
    limit: nat,
    first: Seq<usize>,
    second: Seq<usize>,
    upto: int,
)
    requires
        is_top_ranking(usage, limit, first),
        is_top_ranking(usage, limit, second),
        0 <= upto <= first.len(),
    ensures
        forall|k: int| 0 <= k < upto ==> first[k] == second[k],
    decreases upto,
{
    if upto > 0 {
        lemma_rankings_agree_up_to(usage, limit, first, second, upto - 1);
        let p = upto - 1;
        let a = first[p];
        let b = second[p];
        if a != b {
            // Each of the two is ranked before the other.
            assert(ranks_before(usage, a as int, b as int)) by {
                lemma_leads_the_rest(usage, limit, first, second, p);
            }
            assert(ranks_before(usage, b as int, a as int)) by {
                lemma_leads_the_rest(usage, limit, second, first, p);
            }
        }
    }
}

/// The ranking is fully determined by the entries and the limit.
pub proof fn lemma_top_ranking_unique(
    usage: Seq<u64>,
    limit: nat,
    first: Seq<usize>,
    second: Seq<usize>,
)
    requires
        is_top_ranking(usage, limit, first),
        is_top_ranking(usage, limit, second),
    ensures
        first == second,
{
    lemma_rankings_agree_up_to(usage, limit, first, second, first.len() as int);
    assert(first =~= second);
}

/// The ranking lists usage in descending order.
pub proof fn lemma_top_ranking_descends(usage: Seq<u64>, limit: nat, order: Seq<usize>)
    requires
        is_top_ranking(usage, limit, order),
    ensures
        forall|j: int, k: int|
            0 <= j <= k < order.len() ==> usage[#[trigger] order[j] as int]
                >= usage[#[trigger] order[k] as int],
{
    assert forall|j: int, k: int|
        0 <= j <= k < order.len() implies usage[#[trigger] order[j] as int]
            >= usage[#[trigger] order[k] as int] by {
        if j < k {
            assert(ranks_before(usage, order[j] as int, order[k] as int));
        }
    }
}

/// Every place below `count` is listed in `order`.
spec fn lists_all_below(order: Seq<usize>, count: int) -> bool {
    forall|x: usize| x < count ==> #[trigger] order.contains(x)
}

/// The ranking of the entries before place `i`, with `i` taken in at
/// position `at` and the last entry dropped where that exceeds the limit, is
/// the ranking of the entries up to and including `i`.
proof fn lemma_rank_taken_in(
    usage: Seq<u64>,
    i: int,
    limit: nat,
    before: Seq<usize>,
    at: int,
    after: Seq<usize>,
)
    requires
        0 <= i < usage.len(),
        i <= usize::MAX,
        is_top_ranking(usage.take(i), limit, before),
        before.len() < limit ==> lists_all_below(before, i),
        0 <= at <= before.len(),
        at < limit,
        forall|k: int| at <= k < before.len() ==> usage[#[trigger] before[k] as int] < usage[i],
        at > 0 ==> usage[before[at - 1] as int] >= usage[i],
        after == if before.len() < limit {
            before.insert(at, i as usize)
        } else {
            before.insert(at, i as usize).drop_last()
        },
    ensures
        is_top_ranking(usage.take(i + 1), limit, after),
        after.len() < limit ==> lists_all_below(after, i + 1),
{
    let seen = usage.take(i);
    let now = usage.take(i + 1);
    let grown = before.insert(at, i as usize);
    let n = before.len() as int;
    assert(forall|x: int| 0 <= x < i ==> now[x] == seen[x]);
    // Every entry listed before `at` uses at least as much as `i`.
    assert forall|k: int| 0 <= k < at implies usage[#[trigger] before[k] as int] >= usage[i] by {
        if k < at - 1 {
            assert(ranks_before(seen, before[k] as int, before[at - 1] as int));
        }
    }
    // Where an entry of `grown` came from.
    assert forall|k: int| 0 <= k < grown.len() implies (#[trigger] grown[k]) == (if k < at {
        before[k]
    } else if k == at {
        i as usize
    } else {
        before[k - 1]
    }) by {}
    assert forall|j: int, k: int| 0 <= j < k < grown.len() implies ranks_before(
        now,
        #[trigger] grown[j] as int,
        #[trigger] grown[k] as int,
    ) by {
        if k < at {
            assert(ranks_before(seen, before[j] as int, before[k] as int));
        } else if k == at {
            assert(usage[before[j] as int] >= usage[i]);
        } else if j < at {
            assert(ranks_before(seen, before[j] as int, before[k - 1] as int));
        } else if j == at {
            assert(usage[before[k - 1] as int] < usage[i]);
        } else {
            assert(ranks_before(seen, before[j - 1] as int, before[k - 1] as int));
        }
    }
    // Whatever `before` lists, `grown` lists too, and `i` besides.
    assert forall|x: usize| before.contains(x) implies #[trigger] grown.contains(x) by {
        let m = choose|m: int| 0 <= m < n && before[m] == x;
        if m < at {
            assert(grown[m] == x);
        } else {
            assert(grown[m + 1] == x);
        }
    }
    assert(grown[at] == i as usize);
    if n < limit {
        assert(after == grown);
        assert forall|x: usize| x < i + 1 implies #[trigger] after.contains(x) by {
            if x < i {
                assert(before.contains(x));
            }
        }
    } else {
        let dropped = before[n - 1];
        assert(grown[n] == dropped);
        assert(usage[dropped as int] < usage[i]);
        assert forall|k: int| 0 <= k < after.len() implies (#[trigger] after[k]) == grown[k] by {}
        assert forall|x: usize, k: int|
            x < now.len() && 0 <= k < after.len() && !after.contains(
                x,
            ) implies #[trigger] ranks_before(now, after[k] as int, x as int) by {
            assert(after[at] == i as usize);
            assert(x != i);
            if before.contains(x) {
                let m = choose|m: int| 0 <= m < n && before[m] == x;
                if m < at {
                    assert(after[m] == x);
                } else if m < n - 1 {
                    assert(after[m + 1] == x);
                }
                assert(x == dropped);
                assert(ranks_before(now, grown[k] as int, grown[n] as int));
            } else {
                if k == at {
                    assert(ranks_before(seen, dropped as int, x as int));
                } else if k < at {
                    assert(ranks_before(seen, before[k] as int, x as int));
                } else {
                    assert(ranks_before(seen, before[k - 1] as int, x as int));
                }
            }
        }
    }
}

/// Where the ranking of the entries before place `i` is full and `i` uses
/// no more than its last entry, it is the ranking of the entries up to and
/// including `i` as well.
proof fn lemma_rank_left_out(usage: Seq<u64>, i: int, limit: nat, before: Seq<usize>)
    requires
        0 <= i < usage.len(),
        i <= usize::MAX,
        is_top_ranking(usage.take(i), limit, before),
        before.len() == limit,
        limit > 0 ==> usage[before[limit - 1] as int] >= usage[i],
    ensures
        is_top_ranking(usage.take(i + 1), limit, before),
{
    let seen = usage.take(i);
    let now = usage.take(i + 1);
    assert(forall|x: int| 0 <= x < i ==> now[x] == seen[x]);
    assert forall|j: int, k: int| 0 <= j < k < before.len() implies ranks_before(
        now,
        #[trigger] before[j] as int,
        #[trigger] before[k] as int,
    ) by {
        assert(ranks_before(seen, before[j] as int, before[k] as int));
    }
    assert forall|x: usize, k: int|
        x < now.len() && 0 <= k < before.len() && !before.contains(
            x,
        ) implies #[trigger] ranks_before(now, before[k] as int, x as int) by {
        if x < i {
            assert(ranks_before(seen, before[k] as int, x as int));
        } else if k < limit - 1 {
            assert(ranks_before(seen, before[k] as int, before[limit - 1] as int));
        }
    }
}

/// Position at which an entry of usage `value` is taken into `order` when
/// it came after every entry listed there: behind all that use at least as
/// much.
spec fn place_for(usage: Seq<u64>, order: Seq<usize>, value: u64) -> int
    decreases order.len(),
{
    if order.len() == 0 {
        0
    } else if usage[order.last() as int] >= value {
        order.len() as int
    } else {
        place_for(usage, order.drop_last(), value)
    }
}

/// `place_for` splits `order` into the entries that use at least `value`
/// and those that use less, provided the latter all stand at the end.
proof fn lemma_place_for_splits(usage: Seq<u64>, order: Seq<usize>, value: u64)
    ensures
        0 <= place_for(usage, order, value) <= order.len(),
        forall|k: int|
            place_for(usage, order, value) <= k < order.len() ==> usage[#[trigger] order[k] as int]
                < value,
        place_for(usage, order, value) > 0 ==> usage[order[place_for(usage, order, value)
            - 1] as int] >= value,
    decreases order.len(),
{
    if order.len() > 0 && usage[order.last() as int] < value {
        let shorter = order.drop_last();
        lemma_place_for_splits(usage, shorter, value);
        let at = place_for(usage, order, value);
        assert forall|k: int| at <= k < order.len() implies usage[#[trigger] order[k] as int]
            < value by {
            if k < shorter.len() {
                assert(shorter[k] == order[k]);
            }
        }
        if at > 0 {
            assert(shorter[at - 1] == order[at - 1]);
        }
    }
}

/// The first `count` entries of any sequence have a ranking.
proof fn lemma_ranking_exists_among(usage: Seq<u64>, limit: nat, count: int) -> (order: Seq<usize>)
    requires
        0 <= count <= usage.len(),
        usage.len() <= usize::MAX,
    ensures
        is_top_ranking(usage.take(count), limit, order),
        order.len() < limit ==> lists_all_below(order, count),
    decreases count,
{
    if count == 0 {
        Seq::empty()
    } else {
        let i = count - 1;
        let before = lemma_ranking_exists_among(usage, limit, i);
        let at = place_for(usage, before, usage[i]);
        lemma_place_for_splits(usage, before, usage[i]);
        if at < limit {
            let after = if before.len() < limit {
                before.insert(at, i as usize)
            } else {
                before.insert(at, i as usize).drop_last()
            };
            lemma_rank_taken_in(usage, i, limit, before, at, after);
            after
        } else {
            lemma_rank_left_out(usage, i, limit, before);
            before
        }
    }
}

/// Every sequence has its ranking under every limit.
pub proof fn lemma_top_ranking_exists(usage: Seq<u64>, limit: nat)
    requires
        usage.len() <= usize::MAX,
    ensures
        is_top_ranking(usage, limit, top_ranking(usage, limit)),
{
    let order = lemma_ranking_exists_among(usage, limit, usage.len() as int);
    assert(usage.take(usage.len() as int) =~= usage);
}

/// Ranks the entries of `usage` and returns the places of the leading ones,
/// at most `limit` of them, in ranking order.
pub fn rank_top(usage: &Vec<u64>, limit: usize) -> (order: Vec<usize>)
    ensures
        is_top_ranking(usage@, limit as nat, order@),
        order@ == top_ranking(usage@, limit as nat),
{
    let mut order: Vec<usize> = Vec::new();
    let mut i: usize = 0;
    while i < usage.len()
        invariant
            i <= usage.len(),
            is_top_ranking(usage@.take(i as int), limit as nat, order@),
            order.len() < limit ==> lists_all_below(order@, i as int),
        decreases usage.len() - i,
    {
        let ghost before = order@;
        let current: u64 = usage[i];
        let mut at: usize = order.len();
        while at > 0 && usage[order[at - 1]] < current
            invariant
                at <= order.len(),
                i < usage.len(),
                current == usage[i as int],
                forall|k: int| 0 <= k < order.len() ==> (#[trigger] order[k]) < i,
                forall|k: int|
                    at <= k < order.len() ==> usage[#[trigger] order[k] as int] < current,
            decreases at,
        {
            at -= 1;
        }
        if at < limit {
            order.insert(at, i);
            if order.len() > limit {
                order.pop();
            }
            proof {
                assert(before.insert(at as int, i).drop_last() =~= before.insert(
                    at as int,
                    i,
                ).subrange(0, before.len() as int));
                lemma_rank_taken_in(usage@, i as int, limit as nat, before, at as int, order@);
            }
        } else {
            proof {
                lemma_rank_left_out(usage@, i as int, limit as nat, before);
            }
        }
        i += 1;
    }
    proof {
        assert(usage@.take(usage.len() as int) =~= usage@);
        lemma_top_ranking_unique(usage@, limit as nat, order@, top_ranking(usage@, limit as nat));
    }
    order
}

} // verus!
