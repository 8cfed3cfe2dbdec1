//! Stable arrangement by score, the highest first.
use vstd::prelude::*;

use crate::score::Score;

verus! {

/// Whether `order` lists each of the numbers from 0 up to `n` exactly once.
pub open spec fn is_order(order: Seq<int>, n: nat) -> bool {
    &&& order.len() == n
    &&& forall|i: int| 0 <= i < n ==> 0 <= #[trigger] order[i] < n
    &&& forall|i: int, j: int| 0 <= i < j < n ==> order[i] != order[j]
}

/// Whether `output` holds the items of `input`, none lost and none added, with the
/// item that stands at `i` taken from `order[i]`.
pub open spec fn rearranges<T>(input: Seq<T>, output: Seq<T>, order: Seq<int>) -> bool {
    &&& output.len() == input.len()
    &&& is_order(order, input.len())
    &&& forall|i: int| 0 <= i < output.len() ==> #[trigger] output[i] == input[order[i]]
}

/// Whether the item at `a` of the scored sequence belongs before the one at `b`: its
/// score is higher, or they tie and it came first.
pub open spec fn precedes(scores: Seq<Score>, a: int, b: int) -> bool {
    scores[b].rank() < scores[a].rank() || (scores[a].rank() == scores[b].rank() && a < b)
}

/// Whether `order` takes the items with these scores from the highest score to the
/// lowest, ties in the order in which they came.
pub open spec fn is_ranked(scores: Seq<Score>, order: Seq<int>) -> bool {
    forall|i: int, j: int|
        0 <= i < j < order.len() ==> #[trigger] precedes(scores, order[i], order[j])
}

/// Whether every one of the scores is a number.
pub open spec fn all_numbers(scores: Seq<Score>) -> bool {
    forall|i: int| 0 <= i < scores.len() ==> !(#[trigger] scores[i]).nan()
}

/// Every number below `n` stands somewhere in an order of `n` numbers.
pub proof fn lemma_order_is_onto(order: Seq<int>, n: nat, k: int)
    requires
        is_order(order, n),
        0 <= k < n,
    ensures
        order.contains(k),
{
    assert(order.no_duplicates());
    order.unique_seq_to_set();
    let range = vstd::set_lib::set_int_range(0, n as int);
    vstd::set_lib::lemma_int_range(0, n as int);
    assert(order.to_set().subset_of(range)) by {
        assert forall|x: int| order.to_set().contains(x) implies range.contains(x) by {
            let i = choose|i: int| 0 <= i < order.len() && order[i] == x;
            assert(order[i] == x);
        }
    }
    vstd::set_lib::lemma_subset_equality(order.to_set(), range);
    assert(range.contains(k));
    assert(order.to_set().contains(k));
}

/// There is only one ranked order: two that rank the same scores agree at every
/// position.
pub proof fn law_ranked_order_is_unique(scores: Seq<Score>, first: Seq<int>, second: Seq<int>)
    requires
        is_order(first, scores.len()),
        is_order(second, scores.len()),
        is_ranked(scores, first),
        is_ranked(scores, second),
    ensures
        first == second,
{
    assert forall|i: int| 0 <= i < scores.len() implies first[i] == second[i] by {
        lemma_same_position(scores, first, second, i);
    }
    assert(first =~= second);
}

proof fn lemma_same_position(scores: Seq<Score>, first: Seq<int>, second: Seq<int>, i: int)
    requires
        is_order(first, scores.len()),
        is_order(second, scores.len()),
        is_ranked(scores, first),
        is_ranked(scores, second),
        0 <= i < scores.len(),
    ensures
        first[i] == second[i],
    decreases i,
{
    assert forall|j: int| 0 <= j < i implies first[j] == second[j] by {
        lemma_same_position(scores, first, second, j);
    }
    let a = first[i];
    let b = second[i];
    if a != b {
        lemma_order_is_onto(second, scores.len(), a);
        lemma_order_is_onto(first, scores.len(), b);
        let k = choose|k: int| 0 <= k < second.len() && second[k] == a;
        let m = choose|m: int| 0 <= m < first.len() && first[m] == b;
        assert(k > i) by {
            if k < i {
                assert(first[k] == second[k]);
            }
        }
        assert(m > i) by {
            if m < i {
                assert(first[m] == second[m]);
            }
        }
        assert(precedes(scores, second[i], second[k]));
        assert(precedes(scores, first[i], first[m]));
        assert(false);
    }
}

/// Rearranging loses no item and adds none.
pub proof fn law_rearranging_keeps_the_items<T>(input: Seq<T>, output: Seq<T>, order: Seq<int>)
    requires
        rearranges(input, output, order),
    ensures
        output.to_multiset() == input.to_multiset(),
    decreases input.len(),
{
    broadcast use vstd::seq_lib::group_to_multiset_ensures;

    if input.len() == 0 {
        assert(output =~= input);
    } else {
        let last = input.len() - 1;
        let p = order[last];
        let rest = input.remove(p);
        let shown = output.drop_last();
        let places = Seq::new(last as nat, |i: int| if order[i] > p { order[i] - 1 } else { order[i] });
        assert(rearranges(rest, shown, places));
        law_rearranging_keeps_the_items(rest, shown, places);
        assert(output =~= shown.push(input[p]));
        assert(input =~= rest.insert(p, input[p]));
        assert(output.to_multiset() =~= shown.to_multiset().insert(input[p]));
        assert(rest.to_multiset() =~= input.to_multiset().remove(input[p]));
        assert(input.to_multiset().contains(input[p])) by {
            assert(input.contains(input[p]));
        }
        assert(output.to_multiset() =~= input.to_multiset());
    }
}

} // verus!
