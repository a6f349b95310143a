//! Putting the responses to a chunked fetch back together.
//!
//! A list of requests goes out in chunks, and each chunk comes back with an
//! outcome of its own: the items it fetched, or a fault. The outcomes join into
//! one list only if every chunk was answered in full.
use vstd::prelude::*;
use crate::chunking::chunk_lens;
use crate::fault::{Fault, FaultView};
use crate::types::views;

verus! {

/// The outcome of one chunk, as the contracts see it.
pub open spec fn outcome_view<T: View>(outcome: Result<Vec<T>, Fault>) -> Result<Seq<T::V>, FaultView> {
    match outcome {
        Ok(items) => Ok(views(items@)),
        Err(fault) => Err(fault@),
    }
}

/// The outcomes of all chunks, as the contracts see them.
pub open spec fn outcomes_view<T: View>(outcomes: Seq<Result<Vec<T>, Fault>>) -> Seq<
    Result<Seq<T::V>, FaultView>,
> {
    Seq::new(outcomes.len(), |k: int| outcome_view(outcomes[k]))
}

/// The view of a list with one more outcome is the view of the list with one more view.
pub proof fn lemma_outcomes_view_push<T: View>(
    outcomes: Seq<Result<Vec<T>, Fault>>,
    outcome: Result<Vec<T>, Fault>,
)
    ensures
        outcomes_view(outcomes.push(outcome)) == outcomes_view(outcomes).push(outcome_view(outcome)),
{
    assert(outcomes_view(outcomes.push(outcome)) =~= outcomes_view(outcomes).push(
        outcome_view(outcome),
    ));
}

/// What chunk `k` adds to the joined list: its items, if it has as many as were asked for.
pub open spec fn chunk_result<V>(k: int, expected: nat, outcome: Result<Seq<V>, FaultView>) -> Result<
    Seq<V>,
    FaultView,
> {
    match outcome {
        Err(fault) => Err(fault),
        Ok(items) => if items.len() == expected {
            Ok(items)
        } else {
            Err(FaultView::Correlation { chunk: k as nat, expected, received: items.len() })
        },
    }
}

/// The items of the first `n` chunks, one chunk after the other, or the fault
/// of the first chunk among them that has one.
pub open spec fn joined_upto<V>(
    expected: Seq<nat>,
    outcomes: Seq<Result<Seq<V>, FaultView>>,
    n: nat,
) -> Result<Seq<V>, FaultView>
    decreases n,
{
    if n == 0 {
        Ok(Seq::empty())
    } else {
        match joined_upto(expected, outcomes, (n - 1) as nat) {
            Err(fault) => Err(fault),
            Ok(before) => match chunk_result(n - 1, expected[n - 1], outcomes[n - 1]) {
                Err(fault) => Err(fault),
                Ok(items) => Ok(before + items),
            },
        }
    }
}

/// The result of a fetch of `total` items in chunks of `size`: all the items in
/// the order they were asked for, if there is one outcome for each chunk and
/// each holds as many items as its chunk; else the first fault, where a wrong
/// number of outcomes comes before every other.
pub open spec fn settled<V>(total: nat, size: nat, outcomes: Seq<Result<Seq<V>, FaultView>>) -> Result<
    Seq<V>,
    FaultView,
> {
    let expected = chunk_lens(total, size);
    if outcomes.len() != expected.len() {
        Err(FaultView::ChunkCount { expected: expected.len(), received: outcomes.len() })
    } else {
        joined_upto(expected, outcomes, outcomes.len())
    }
}

/// The first `n` chunks join into a list exactly if each of them was answered
/// in full, and the list then holds their items chunk after chunk.
pub proof fn lemma_joined_ok<V>(expected: Seq<nat>, outcomes: Seq<Result<Seq<V>, FaultView>>, n: nat)
    requires
        n <= outcomes.len(),
    ensures
        joined_upto(expected, outcomes, n) is Ok <==> forall|k: int|
            0 <= k < n ==> (#[trigger] chunk_result(k, expected[k], outcomes[k])) is Ok,
        joined_upto(expected, outcomes, n) is Ok ==> joined_upto(expected, outcomes, n)->Ok_0
            == outcomes.take(n as int).map_values(|o: Result<Seq<V>, FaultView>| o->Ok_0).flatten(),
    decreases n,
{
    let items_of = |o: Result<Seq<V>, FaultView>| o->Ok_0;
    if n > 0 {
        let m = (n - 1) as nat;
        lemma_joined_ok(expected, outcomes, m);
        if joined_upto(expected, outcomes, n) is Ok {
            let before = outcomes.take(m as int).map_values(items_of);
            assert(outcomes.take(n as int).map_values(items_of) =~= before.push(
                items_of(outcomes[m as int]),
            ));
            before.lemma_flatten_push(items_of(outcomes[m as int]));
        }
    }
}

/// A fault of the first `n` chunks is the fault of the first of them that was
/// not answered in full.
pub proof fn lemma_joined_err<V>(expected: Seq<nat>, outcomes: Seq<Result<Seq<V>, FaultView>>, n: nat)
    requires
        n <= outcomes.len(),
        joined_upto(expected, outcomes, n) is Err,
    ensures
        exists|k: int|
            0 <= k < n && #[trigger] chunk_result(k, expected[k], outcomes[k]) == Err::<
                Seq<V>,
                FaultView,
            >(joined_upto(expected, outcomes, n)->Err_0) && joined_upto(expected, outcomes, k as nat) is Ok,
    decreases n,
{
    if n > 0 {
        let m = (n - 1) as nat;
        if joined_upto(expected, outcomes, m) is Err {
            lemma_joined_err(expected, outcomes, m);
        } else {
            assert(chunk_result(m as int, expected[m as int], outcomes[m as int]) == Err::<
                Seq<V>,
                FaultView,
            >(joined_upto(expected, outcomes, n)->Err_0));
        }
    }
}

/// The sum of the first `n` numbers of a list.
pub open spec fn sum_upto(lens: Seq<nat>, n: nat) -> nat
    decreases n,
{
    if n == 0 {
        0
    } else {
        sum_upto(lens, (n - 1) as nat) + lens[n - 1]
    }
}

proof fn lemma_sum_shift(head: nat, tail: Seq<nat>, n: nat)
    requires
        n <= tail.len(),
    ensures
        sum_upto(seq![head] + tail, n + 1) == head + sum_upto(tail, n),
    decreases n,
{
    let all = seq![head] + tail;
    if n == 0 {
        assert(sum_upto(all, 0) == 0);
    } else {
        lemma_sum_shift(head, tail, (n - 1) as nat);
    }
}

/// The chunks of a list hold as many items as the list.
pub proof fn lemma_chunk_lens_sum(total: nat, size: nat)
    requires
        size > 0,
    ensures
        sum_upto(chunk_lens(total, size), chunk_lens(total, size).len()) == total,
    decreases total,
{
    if total == 0 {
    } else if total <= size {
        assert(sum_upto(seq![total], 0) == 0);
    } else {
        let rest = chunk_lens((total - size) as nat, size);
        lemma_chunk_lens_sum((total - size) as nat, size);
        lemma_sum_shift(size, rest, rest.len());
    }
}

/// A joined list is as long as its chunks were expected to be together.
pub proof fn lemma_joined_len<V>(expected: Seq<nat>, outcomes: Seq<Result<Seq<V>, FaultView>>, n: nat)
    requires
        joined_upto(expected, outcomes, n) is Ok,
    ensures
        joined_upto(expected, outcomes, n)->Ok_0.len() == sum_upto(expected, n),
    decreases n,
{
    if n > 0 {
        lemma_joined_len(expected, outcomes, (n - 1) as nat);
    }
}

/// A fetch that settles hands back as many items as were asked for.
pub proof fn lemma_settled_len<V>(total: nat, size: nat, outcomes: Seq<Result<Seq<V>, FaultView>>)
    requires
        size > 0,
        settled(total, size, outcomes) is Ok,
    ensures
        settled(total, size, outcomes)->Ok_0.len() == total,
{
    lemma_chunk_lens_sum(total, size);
    lemma_joined_len(chunk_lens(total, size), outcomes, outcomes.len());
}

/// A list of lengths, as numbers without a bound.
pub open spec fn lens(lengths: Seq<usize>) -> Seq<nat> {
    Seq::new(lengths.len(), |k: int| lengths[k] as nat)
}

/// The lengths of the chunks of a list of `total` items.
pub fn chunk_lengths(total: usize, size: usize) -> (lengths: Vec<usize>)
    requires
        size > 0,
    ensures
        lens(lengths@) == chunk_lens(total as nat, size as nat),
{
    let mut lengths: Vec<usize> = Vec::new();
    let mut left: usize = total;
    assert(lens(lengths@) + chunk_lens(left as nat, size as nat) =~= chunk_lens(
        total as nat,
        size as nat,
    ));
    while left > 0
        invariant
            size > 0,
            lens(lengths@) + chunk_lens(left as nat, size as nat) == chunk_lens(
                total as nat,
                size as nat,
            ),
        decreases left,
    {
        let next: usize = if left <= size {
            left
        } else {
            size
        };
        proof {
            let ghost done = lens(lengths@);
            assert(done.push(next as nat) + chunk_lens((left - next) as nat, size as nat) =~= done
                + chunk_lens(left as nat, size as nat));
        }
        lengths.push(next);
        left = left - next;
    }
    lengths
}

/// Joins the outcomes of a fetch of `total` items in chunks of `size`.
pub fn settle<T: View>(total: usize, size: usize, outcomes: Vec<Result<Vec<T>, Fault>>) -> (r: Result<
    Vec<T>,
    Fault,
>)
    requires
        size > 0,
    ensures
        outcome_view(r) == settled(total as nat, size as nat, outcomes_view(outcomes@)),
{
    let expected = chunk_lengths(total, size);
    let ghost wanted = chunk_lens(total as nat, size as nat);
    let ghost given = outcomes_view(outcomes@);
    if outcomes.len() != expected.len() {
        return Err(Fault::ChunkCount { expected: expected.len(), received: outcomes.len() });
    }
    let mut all: Vec<T> = Vec::new();
    let mut k: usize = 0;
    assert(views(all@) =~= Seq::<T::V>::empty());
    for outcome in it: outcomes
        invariant
            it.seq() == outcomes@,
            k == it.index(),
            expected.len() == outcomes.len(),
            lens(expected@) == wanted,
            given == outcomes_view(outcomes@),
            wanted == chunk_lens(total as nat, size as nat),
            joined_upto(wanted, given, k as nat) == Ok::<Seq<T::V>, FaultView>(views(all@)),
    {
        match outcome {
            Err(fault) => {
                proof {
                    assert(chunk_result(k as int, wanted[k as int], given[k as int]) == Err::<
                        Seq<T::V>,
                        FaultView,
                    >(fault@));
                    lemma_fault_stays(wanted, given, (k + 1) as nat, given.len());
                }
                return Err(fault);
            },
            Ok(items) => {
                let mut items = items;
                if items.len() != expected[k] {
                    let fault = Fault::Correlation {
                        chunk: k,
                        expected: expected[k],
                        received: items.len(),
                    };
                    proof {
                        assert(chunk_result(k as int, wanted[k as int], given[k as int]) == Err::<
                            Seq<T::V>,
                            FaultView,
                        >(fault@));
                        lemma_fault_stays(wanted, given, (k + 1) as nat, given.len());
                    }
                    return Err(fault);
                }
                assert(views(all@ + items@) =~= views(all@) + views(items@));
                all.append(&mut items);
            },
        }
        k += 1;
    }
    Ok(all)
}

/// Once a chunk has a fault, more chunks do not change it.
proof fn lemma_fault_stays<V>(
    expected: Seq<nat>,
    outcomes: Seq<Result<Seq<V>, FaultView>>,
    n: nat,
    m: nat,
)
    requires
        n <= m,
        joined_upto(expected, outcomes, n) is Err,
    ensures
        joined_upto(expected, outcomes, m) == joined_upto(expected, outcomes, n),
    decreases m,
{
    if n < m {
        lemma_fault_stays(expected, outcomes, n, (m - 1) as nat);
    }
}

} // verus!
