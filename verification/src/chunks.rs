//! Splitting a round's transactions into batches for the sending threads.
use vstd::prelude::*;

verus! {

/// The number of transactions in a full batch: an even share per thread.
pub open spec fn batch_size(len: int, threads: int) -> int {
    len / threads
}

/// The end of batch `k`: a full batch later than its start, or the end of the
/// transactions for the last one.
pub open spec fn batch_end(k: int, size: int, len: int) -> int {
    if (k + 1) * size < len {
        (k + 1) * size
    } else {
        len
    }
}

/// The index ranges `[start, end)` of the batches of `len` transactions shared
/// among `threads` threads: consecutive batches of `len / threads` transactions
/// each, the last possibly shorter, that together hold every transaction once
/// and in order.
pub fn batch_bounds(len: usize, threads: usize) -> (r: Vec<(usize, usize)>)
    requires
        threads > 0,
        batch_size(len as int, threads as int) > 0,
    ensures
        ({
            let size = batch_size(len as int, threads as int);
            &&& (r@.len() - 1) * size < len <= r@.len() * size
            &&& forall|k: int|
                0 <= k < r@.len() ==> #[trigger] r@[k].0 == k * size && r@[k].1 == batch_end(
                    k,
                    size,
                    len as int,
                )
        }),
        r@.len() > 0,
        r@[0].0 == 0,
        r@[r@.len() - 1].1 == len,
        forall|k: int| 0 <= k < r@.len() - 1 ==> #[trigger] r@[k].1 == r@[k + 1].0,
        forall|k: int|
            0 <= k < r@.len() - 1 ==> #[trigger] r@[k].1 - r@[k].0 == len as int / threads as int,
        0 < r@[r@.len() - 1].1 - r@[r@.len() - 1].0 <= len as int / threads as int,
{
    let size = len / threads;
    let mut r: Vec<(usize, usize)> = Vec::new();
    let mut start: usize = 0;
    assert(r@.len() * size == 0) by (nonlinear_arith)
        requires
            r@.len() == 0,
    ;
    while start < len
        invariant
            size == batch_size(len as int, threads as int),
            size > 0,
            start <= len,
            start < len ==> start == r@.len() * size,
            start == len ==> (r@.len() - 1) * size < len <= r@.len() * size,
            forall|k: int|
                0 <= k < r@.len() ==> #[trigger] r@[k].0 == k * size && r@[k].1 == batch_end(
                    k,
                    size as int,
                    len as int,
                ),
        decreases len - start,
    {
        let ghost k = r@.len() as int;
        assert((k + 1) * size == k * size + size) by (nonlinear_arith);
        let end = if len - start > size {
            start + size
        } else {
            len
        };
        let ghost prev = r@;
        r.push((start, end));
        assert(r@[k] == (start, end));
        assert(end == batch_end(k, size as int, len as int));
        assert forall|j: int| 0 <= j < r@.len() implies #[trigger] r@[j].0 == j * size && r@[j].1
            == batch_end(j, size as int, len as int) by {
            if j < k {
                assert(r@[j] == prev[j]);
            }
        }
        start = end;
    }
    proof {
        if r@.len() == 0 {
            assert(len == 0);
            assert(len / threads == 0);
        }
        let count = r@.len() as int;
        lemma_batches_tile(len as int, size as int, count);
        assert(r@[count - 1].0 == (count - 1) * size);
        assert(r@[0].0 == 0 * size);
        assert(0 * size == 0) by (nonlinear_arith);
        assert forall|k: int| 0 <= k < count - 1 implies #[trigger] r@[k].1 == r@[k + 1].0 && r@[k].1
            - r@[k].0 == size by {
            assert(r@[k].0 == k * size);
            assert(r@[k + 1].0 == (k + 1) * size);
            assert((k + 1) * size == k * size + size) by (nonlinear_arith);
        }
    }
    r
}

/// Batches laid out by `batch_end` tile the transactions: the first starts
/// at 0, each ends where the next starts, the last ends at `len`, all but
/// the last are full and the last is non-empty.
proof fn lemma_batches_tile(len: int, size: int, count: int)
    requires
        size > 0,
        count > 0,
        (count - 1) * size < len <= count * size,
    ensures
        forall|k: int|
            0 <= k < count - 1 ==> batch_end(k, size, len) == (k + 1) * size && (k + 1) * size < len,
        batch_end(count - 1, size, len) == len,
        0 < len - (count - 1) * size <= size,
{
    assert forall|k: int| 0 <= k < count - 1 implies batch_end(k, size, len) == (k + 1) * size && (k
        + 1) * size < len by {
        assert((k + 1) * size <= (count - 1) * size) by (nonlinear_arith)
            requires
                k + 1 <= count - 1,
                size > 0,
        ;
    }
    assert(count * size == (count - 1) * size + size) by (nonlinear_arith);
}

/// A batch ends a full batch after its start, or at the end of the
/// transactions, whichever comes first.
pub proof fn lemma_batch_end(k: int, size: int, len: int)
    ensures
        batch_end(k, size, len) <= len,
        batch_end(k, size, len) <= (k + 1) * size,
        batch_end(k, size, len) == len || batch_end(k, size, len) == (k + 1) * size,
{
}

/// However the transactions divide, there are at least as many batches as
/// threads and fewer than twice as many.
pub proof fn lemma_batch_count(len: int, threads: int, count: int)
    requires
        threads > 0,
        batch_size(len, threads) > 0,
        (count - 1) * batch_size(len, threads) < len <= count * batch_size(len, threads),
    ensures
        threads <= count < 2 * threads,
{
    let size = len / threads;
    vstd::arithmetic::div_mod::lemma_fundamental_div_mod(len, threads);
    assert(len == threads * size + len % threads);
    assert(0 <= len % threads < threads);
    assert(threads * size <= len);
    assert(threads <= count) by (nonlinear_arith)
        requires
            threads * size <= len,
            len <= count * size,
            size > 0,
    ;
    assert(count < 2 * threads) by (nonlinear_arith)
        requires
            (count - 1) * size < len,
            len < threads * size + threads,
            size >= 1,
            threads > 0,
    ;
}

} // verus!
