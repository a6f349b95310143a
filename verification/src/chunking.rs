//! Cutting a list of requests into chunks of bounded size.
use vstd::prelude::*;
use crate::types::views;

verus! {

/// The chunks of `items`: consecutive runs of `size` items, the last one holding
/// what is left. An empty list has no chunk; with a size of zero there is none either.
pub open spec fn chunks<T>(items: Seq<T>, size: nat) -> Seq<Seq<T>>
    decreases items.len(),
{
    if size == 0 || items.len() == 0 {
        Seq::empty()
    } else if items.len() <= size {
        seq![items]
    } else {
        seq![items.take(size as int)] + chunks(items.skip(size as int), size)
    }
}

/// The lengths of the chunks of a list of `total` items.
pub open spec fn chunk_lens(total: nat, size: nat) -> Seq<nat>
    decreases total,
{
    if size == 0 || total == 0 {
        Seq::empty()
    } else if total <= size {
        seq![total]
    } else {
        seq![size] + chunk_lens((total - size) as nat, size)
    }
}

/// `chunk_lens` gives the length of each chunk.
pub proof fn lemma_chunk_lens<T>(items: Seq<T>, size: nat)
    ensures
        chunk_lens(items.len(), size).len() == chunks(items, size).len(),
        forall|k: int|
            0 <= k < chunks(items, size).len() ==> #[trigger] chunks(items, size)[k].len()
                == chunk_lens(items.len(), size)[k],
    decreases items.len(),
{
    if size > 0 && items.len() > size {
        lemma_chunk_lens(items.skip(size as int), size);
    }
}

/// The chunks, one after the other, are the list.
pub proof fn lemma_chunks_flatten<T>(items: Seq<T>, size: nat)
    requires
        size > 0,
    ensures
        chunks(items, size).flatten() == items,
    decreases items.len(),
{
    if 0 < items.len() <= size {
        seq![items].lemma_flatten_one_element();
    } else if items.len() > size {
        let head = items.take(size as int);
        let tail = items.skip(size as int);
        lemma_chunks_flatten(tail, size);
        seq![head].lemma_flatten_one_element();
        vstd::seq_lib::lemma_flatten_concat(seq![head], chunks(tail, size));
    }
}

/// No chunk is empty and none is longer than `size`; every chunk but the last is full.
pub proof fn lemma_chunks_sizes<T>(items: Seq<T>, size: nat)
    requires
        size > 0,
    ensures
        forall|k: int|
            0 <= k < chunks(items, size).len() ==> 0 < #[trigger] chunks(items, size)[k].len()
                <= size,
        forall|k: int|
            0 <= k < chunks(items, size).len() - 1 ==> #[trigger] chunks(items, size)[k].len()
                == size,
    decreases items.len(),
{
    if items.len() > size {
        let tail = items.skip(size as int);
        let cs = chunks(items, size);
        lemma_chunks_sizes(tail, size);
        assert forall|k: int| 0 <= k < cs.len() implies 0 < #[trigger] cs[k].len() <= size by {
            if k > 0 {
                assert(cs[k] == chunks(tail, size)[k - 1]);
            }
        }
        assert forall|k: int| 0 <= k < cs.len() - 1 implies #[trigger] cs[k].len() == size by {
            if k > 0 {
                assert(cs[k] == chunks(tail, size)[k - 1]);
            }
        }
    }
}

/// There are as many chunks as `size` goes into the length, rounded up.
pub proof fn lemma_chunks_count<T>(items: Seq<T>, size: nat)
    requires
        size > 0,
    ensures
        chunks(items, size).len() == (items.len() + size - 1) / (size as int),
    decreases items.len(),
{
    let n = items.len() as int;
    let d = size as int;
    if n == 0 {
        vstd::arithmetic::div_mod::lemma_basic_div(d - 1, d);
    } else if n <= d {
        vstd::arithmetic::div_mod::lemma_fundamental_div_mod_converse(n + d - 1, d, 1, n - 1);
    } else {
        lemma_chunks_count(items.skip(d), size);
        vstd::arithmetic::div_mod::lemma_div_plus_one(n - 1, d);
    }
}

/// Cuts `items` into chunks of `size` items, in order; the last chunk holds what is left.
pub fn split_chunks<T: Copy>(items: &Vec<T>, size: usize) -> (out: Vec<Vec<T>>)
    requires
        size > 0,
    ensures
        views(out@) == chunks(items@, size as nat),
{
    let n = items.len();
    let mut out: Vec<Vec<T>> = Vec::new();
    let mut i: usize = 0;
    assert(items@.skip(0) =~= items@);
    while i < n
        invariant
            size > 0,
            n == items.len(),
            i <= n,
            views(out@) + chunks(items@.skip(i as int), size as nat) == chunks(
                items@,
                size as nat,
            ),
        decreases n - i,
    {
        let end: usize = if n - i <= size {
            n
        } else {
            i + size
        };
        let mut chunk: Vec<T> = Vec::new();
        let mut j: usize = i;
        while j < end
            invariant
                i <= j <= end <= n,
                n == items.len(),
                chunk@ == items@.subrange(i as int, j as int),
            decreases end - j,
        {
            chunk.push(items[j]);
            j += 1;
        }
        proof {
            let rest = items@.skip(i as int);
            let ghost done = views(out@);
            if n - i > size {
                assert(chunk@ =~= rest.take(size as int));
                assert(rest.skip(size as int) =~= items@.skip(end as int));
                assert(done.push(chunk@) + chunks(items@.skip(end as int), size as nat) =~= done
                    + (seq![rest.take(size as int)] + chunks(rest.skip(size as int), size as nat)));
            }
        }
        out.push(chunk);
        i = end;
    }
    out
}

} // verus!
