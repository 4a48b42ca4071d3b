//! Planning an even split of `[0, len)` into contiguous chunks, one per worker.
use vstd::arithmetic::div_mod::lemma_fundamental_div_mod;
use vstd::prelude::*;

verus! {

/// Where chunk `i` of `worker_count` starts in `[0, len)`. Every chunk holds
/// `len / worker_count` elements, and each of the first `len % worker_count`
/// chunks holds one more.
pub open spec fn chunk_start(len: int, worker_count: int, i: int) -> int {
    let q = len / worker_count;
    let rem = len % worker_count;
    i * q + if i < rem {
        i
    } else {
        rem
    }
}

/// The number of elements in chunk `i` of `worker_count`.
pub open spec fn chunk_size(len: int, worker_count: int, i: int) -> int {
    len / worker_count + if i < len % worker_count {
        1int
    } else {
        0
    }
}

/// Chunk starts step by the chunk sizes, and never pass `len`.
proof fn lemma_chunk_step(len: int, worker_count: int, i: int)
    requires
        len >= 0,
        worker_count > 0,
        0 <= i < worker_count,
    ensures
        chunk_start(len, worker_count, i + 1) == chunk_start(len, worker_count, i) + chunk_size(
            len,
            worker_count,
            i,
        ),
        chunk_start(len, worker_count, i + 1) <= len,
{
    let q = len / worker_count;
    let rem = len % worker_count;
    assert((i + 1) * q == i * q + q) by (nonlinear_arith);
    lemma_fundamental_div_mod(len, worker_count);
    assert((i + 1) * q <= worker_count * q) by (nonlinear_arith)
        requires
            i + 1 <= worker_count,
            q >= 0,
    ;
}

/// The ranges `(start, end)` that split `[0, len)` among `worker_count`
/// workers: contiguous, in ascending order, their sizes differing by at most
/// one, earlier chunks taking the remainder. No workers give no chunks; an
/// empty sequence gives `worker_count` empty chunks.
pub fn plan(len: usize, worker_count: usize) -> (r: Vec<(usize, usize)>)
    ensures
        r@.len() == worker_count,
        forall|i: int|
            0 <= i < worker_count ==> {
                &&& r@[i].0 == chunk_start(len as int, worker_count as int, i)
                &&& r@[i].1 == chunk_start(len as int, worker_count as int, i + 1)
            },
{
    let mut out: Vec<(usize, usize)> = Vec::new();
    if worker_count == 0 {
        return out;
    }
    let q: usize = len / worker_count;
    let rem: usize = len % worker_count;
    let mut start: usize = 0;
    let mut i: usize = 0;
    while i < worker_count
        invariant
            worker_count > 0,
            q == len / worker_count,
            rem == len % worker_count,
            i <= worker_count,
            out@.len() == i,
            start == chunk_start(len as int, worker_count as int, i as int),
            forall|j: int|
                0 <= j < i ==> {
                    &&& out@[j].0 == chunk_start(len as int, worker_count as int, j)
                    &&& out@[j].1 == chunk_start(len as int, worker_count as int, j + 1)
                },
        decreases worker_count - i,
    {
        proof {
            lemma_chunk_step(len as int, worker_count as int, i as int);
        }
        let end: usize = if i < rem {
            start + q + 1
        } else {
            start + q
        };
        out.push((start, end));
        start = end;
        i = i + 1;
    }
    out
}

/// The chunks of a plan tile `[0, len)`: the first starts at `0`, the last
/// ends at `len`, each ends where the next starts, and any two differ in size
/// by at most one.
pub proof fn lemma_plan_partitions(len: nat, worker_count: nat)
    requires
        worker_count > 0,
    ensures
        chunk_start(len as int, worker_count as int, 0) == 0,
        chunk_start(len as int, worker_count as int, worker_count as int) == len,
        forall|i: int|
            0 <= i < worker_count ==> chunk_start(len as int, worker_count as int, i + 1)
                == chunk_start(len as int, worker_count as int, i) + chunk_size(
                len as int,
                worker_count as int,
                i,
            ),
        forall|i: int, j: int|
            0 <= i < worker_count && 0 <= j < worker_count ==> -1 <= #[trigger] chunk_size(
                len as int,
                worker_count as int,
                i,
            ) - #[trigger] chunk_size(len as int, worker_count as int, j) <= 1,
{
    let w = worker_count as int;
    lemma_fundamental_div_mod(len as int, w);
    assert(w * (len as int / w) == (len as int / w) * w) by (nonlinear_arith);
    assert forall|i: int| 0 <= i < worker_count implies chunk_start(len as int, w, i + 1)
        == chunk_start(len as int, w, i) + chunk_size(len as int, w, i) by {
        lemma_chunk_step(len as int, w, i);
    }
}

/// The sum of a sequence of integers.
pub open spec fn seq_sum(s: Seq<int>) -> int
    decreases s.len(),
{
    if s.len() == 0 {
        0
    } else {
        seq_sum(s.drop_last()) + s.last()
    }
}

/// The total of the sums of the first `k` chunks of `s`, split among
/// `worker_count` workers.
pub open spec fn chunk_sums(s: Seq<int>, worker_count: int, k: nat) -> int
    decreases k,
{
    if k == 0 {
        0
    } else {
        let len = s.len() as int;
        chunk_sums(s, worker_count, (k - 1) as nat) + seq_sum(
            s.subrange(chunk_start(len, worker_count, k - 1), chunk_start(len, worker_count, k as int)),
        )
    }
}

proof fn lemma_sum_concat(a: Seq<int>, b: Seq<int>)
    ensures
        seq_sum(a + b) == seq_sum(a) + seq_sum(b),
    decreases b.len(),
{
    if b.len() == 0 {
        assert(a + b =~= a);
    } else {
        lemma_sum_concat(a, b.drop_last());
        assert((a + b).drop_last() =~= a + b.drop_last());
    }
}

proof fn lemma_chunk_sums_prefix(s: Seq<int>, worker_count: nat, k: nat)
    requires
        worker_count > 0,
        k <= worker_count,
    ensures
        chunk_sums(s, worker_count as int, k) == seq_sum(
            s.subrange(0, chunk_start(s.len() as int, worker_count as int, k as int)),
        ),
    decreases k,
{
    let len = s.len() as int;
    let w = worker_count as int;
    if k == 0 {
        assert(s.subrange(0, 0) =~= Seq::<int>::empty());
    } else {
        lemma_chunk_sums_prefix(s, worker_count, (k - 1) as nat);
        lemma_chunk_step(len, w, k - 1);
        lemma_plan_partitions(s.len(), worker_count);
        let a = chunk_start(len, w, k - 1);
        let b = chunk_start(len, w, k as int);
        assert(s.subrange(0, b) =~= s.subrange(0, a) + s.subrange(a, b));
        lemma_sum_concat(s.subrange(0, a), s.subrange(a, b));
    }
}

/// Summing each chunk of a plan and adding up the results gives the sum of
/// the whole sequence, whatever the number of workers.
pub proof fn lemma_chunk_sums_total(s: Seq<int>, worker_count: nat)
    requires
        worker_count > 0,
    ensures
        chunk_sums(s, worker_count as int, worker_count) == seq_sum(s),
{
    lemma_chunk_sums_prefix(s, worker_count, worker_count);
    lemma_plan_partitions(s.len(), worker_count);
    assert(s.subrange(0, s.len() as int) =~= s);
}

} // verus!
