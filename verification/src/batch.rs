//! Cutting a list into batches of bounded size, in order.

use vstd::prelude::*;

verus! {

/// The smaller of two numbers.
pub open spec fn least(a: int, b: int) -> int {
    if a <= b {
        a
    } else {
        b
    }
}

/// The batch of index `i` of `items` cut into batches of `size`: the items
/// from position `i * size` up to, and without, position `(i + 1) * size`,
/// as far as there are any.
pub open spec fn chunk<T>(items: Seq<T>, size: int, i: int) -> Seq<T> {
    items.subrange(least(i * size, items.len() as int), least((i + 1) * size, items.len() as int))
}

/// Whether `count` is the number of batches of `size` that hold `n` items,
/// none of them empty: the smallest number of batches that has room for
/// them.
pub open spec fn is_chunk_count(n: int, size: int, count: int) -> bool {
    0 <= count && n <= count * size && (count == 0 || (count - 1) * size < n)
}

/// Whether `batches` is `items` cut into batches of `size`: every batch but
/// the last holds `size` items, the last holds what is left and is not
/// empty, and the items keep their order.
pub open spec fn is_chunked<T>(items: Seq<T>, size: int, batches: Seq<Seq<T>>) -> bool {
    is_chunk_count(items.len() as int, size, batches.len() as int) && forall|i: int|
        0 <= i < batches.len() ==> #[trigger] batches[i] == chunk(items, size, i)
}

/// The items of a list of batches, one batch after the other.
pub open spec fn joined<T>(batches: Seq<Seq<T>>) -> Seq<T>
    decreases batches.len(),
{
    if batches.len() == 0 {
        Seq::empty()
    } else {
        joined(batches.drop_last()) + batches.last()
    }
}

/// The lists that a list of vectors holds.
pub open spec fn batch_views<T>(batches: Seq<Vec<T>>) -> Seq<Seq<T>> {
    batches.map_values(|b: Vec<T>| b@)
}

/// The next multiple of `size` after `k * size`.
proof fn lemma_next_multiple(k: int, size: int)
    ensures
        (k + 1) * size == k * size + size,
{
    assert((k + 1) * size == k * size + size) by (nonlinear_arith);
}

/// Multiples of `size` grow with what they multiply.
proof fn lemma_multiples_grow(i: int, k: int, size: int)
    requires
        0 <= i <= k,
        0 < size,
    ensures
        i * size <= k * size,
{
    assert(i * size <= k * size) by (nonlinear_arith)
        requires
            0 <= i <= k,
            0 < size,
    ;
}

/// Cuts `items` into batches of `size`, in order.
pub fn chunks<T>(items: Vec<T>, size: usize) -> (batches: Vec<Vec<T>>)
    requires
        size > 0,
    ensures
        is_chunked(items@, size as int, batch_views(batches@)),
{
    let ghost all = items@;
    let ghost n = items@.len() as int;
    let mut batches: Vec<Vec<T>> = Vec::new();
    let mut current: Vec<T> = Vec::new();
    proof {
        assert(0 * (size as int) == 0) by (nonlinear_arith);
    }
    for item in it: items
        invariant
            size > 0,
            it.seq() == all,
            n == all.len(),
            current@.len() < size,
            batches@.len() * size + current@.len() == it.index(),
            current@ == all.subrange(batches@.len() * size, it.index() as int),
            forall|i: int|
                0 <= i < batches@.len() ==> #[trigger] batches@[i]@ == chunk(all, size as int, i),
    {
        let ghost k = batches@.len() as int;
        let ghost at = it.index() as int;
        current.push(item);
        assert(current@ =~= all.subrange(k * size, at + 1));
        if current.len() == size {
            proof {
                lemma_next_multiple(k, size as int);
                assert(current@ == chunk(all, size as int, k));
            }
            let ghost before = batches@;
            batches.push(current);
            current = Vec::new();
            proof {
                assert forall|i: int| 0 <= i < batches@.len() implies #[trigger] batches@[i]@
                    == chunk(all, size as int, i) by {
                    if i < k {
                        assert(batches@[i] == before[i]);
                    }
                }
                assert(current@ =~= all.subrange(batches@.len() * size, at + 1));
            }
        }
    }
    let ghost k = batches@.len() as int;
    if current.len() > 0 {
        proof {
            lemma_next_multiple(k, size as int);
            assert(current@ == chunk(all, size as int, k));
        }
        let ghost before = batches@;
        batches.push(current);
        proof {
            assert forall|i: int| 0 <= i < batches@.len() implies #[trigger] batches@[i]@
                == chunk(all, size as int, i) by {
                if i < k {
                    assert(batches@[i] == before[i]);
                }
            }
            lemma_next_multiple(k, size as int);
        }
    } else {
        proof {
            if k > 0 {
                lemma_next_multiple(k - 1, size as int);
            }
        }
    }
    assert(batch_views(batches@).len() == batches@.len());
    assert forall|i: int| 0 <= i < batches@.len() implies #[trigger] batch_views(batches@)[i]
        == chunk(all, size as int, i) by {
        assert(batch_views(batches@)[i] == batches@[i]@);
    }
    batches
}

/// The batches of a list hold its items, all of them and in their order;
/// no batch is empty and none holds more than `size` items.
pub proof fn lemma_chunks_keep_order<T>(items: Seq<T>, size: int, batches: Seq<Seq<T>>)
    requires
        size > 0,
        is_chunked(items, size, batches),
    ensures
        joined(batches) == items,
        forall|i: int| 0 <= i < batches.len() ==> 0 < (#[trigger] batches[i]).len() <= size,
        forall|i: int| 0 <= i < batches.len() - 1 ==> (#[trigger] batches[i]).len() == size,
{
    let n = items.len() as int;
    let count = batches.len() as int;
    assert forall|i: int| 0 <= i < count implies 0 < (#[trigger] batches[i]).len() <= size && (i
        < count - 1 ==> batches[i].len() == size) by {
        lemma_next_multiple(i, size);
        lemma_multiples_grow(i, count - 1, size);
        if i < count - 1 {
            lemma_multiples_grow(i + 1, count - 1, size);
        }
        assert(batches[i] == chunk(items, size, i));
    }
    lemma_joined_prefix(items, size, batches, count);
    assert(batches.take(count) =~= batches);
    if count > 0 {
        lemma_next_multiple(count - 1, size);
    } else {
        assert(0 * size == 0) by (nonlinear_arith);
    }
    assert(items.take(least(count * size, n)) =~= items);
}

/// The first `m` batches of a list hold its first `m * size` items, as far
/// as there are any.
proof fn lemma_joined_prefix<T>(items: Seq<T>, size: int, batches: Seq<Seq<T>>, m: int)
    requires
        size > 0,
        is_chunked(items, size, batches),
        0 <= m <= batches.len(),
    ensures
        joined(batches.take(m)) == items.take(least(m * size, items.len() as int)),
    decreases m,
{
    let n = items.len() as int;
    if m == 0 {
        assert(0 * size == 0) by (nonlinear_arith);
        assert(batches.take(0) =~= Seq::<Seq<T>>::empty());
        assert(items.take(0) =~= Seq::<T>::empty());
    } else {
        lemma_joined_prefix(items, size, batches, m - 1);
        lemma_next_multiple(m - 1, size);
        lemma_multiples_grow(m - 1, batches.len() - 1, size);
        assert(batches.take(m).drop_last() =~= batches.take(m - 1));
        assert(batches.take(m).last() == chunk(items, size, m - 1));
        assert(items.take(least((m - 1) * size, n)) + chunk(items, size, m - 1) =~= items.take(
            least(m * size, n),
        ));
    }
}

} // verus!
