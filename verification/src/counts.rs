use vstd::prelude::*;

verus! {

/// The number of free observations — counts that read one — in a sequence
/// of observed reference counts.
pub open spec fn spec_count_free(counts: Seq<usize>) -> int
    decreases counts.len(),
{
    if counts.len() == 0 {
        0
    } else {
        spec_count_free(counts.drop_last()) + if counts.last() == 1 {
            1int
        } else {
            0int
        }
    }
}

/// The first-available scan of [`RcPool`](crate::RcPool) and
/// [`ArcPool`](crate::ArcPool): the position of the first slot whose
/// observed strong reference count reads one — only the pool owns it, so
/// it is free — if any does.  Nothing exactly when no count reads one,
/// that is, when the observations say the pool is exhausted.
pub fn first_free_of(counts: &Vec<usize>) -> (r: Option<usize>)
    ensures
        match r {
            Some(i) => {
                &&& i < counts@.len()
                &&& counts@[i as int] == 1
                &&& forall|j: int| 0 <= j < i ==> (#[trigger] counts@[j]) != 1
            },
            None => forall|j: int| 0 <= j < counts@.len() ==> (#[trigger] counts@[j]) != 1,
        },
        r is None <==> spec_count_free(counts@) == 0,
{
    let n = counts.len();
    let mut idx: usize = 0;
    while idx < n
        invariant
            idx <= n,
            n == counts@.len(),
            forall|j: int| 0 <= j < idx ==> (#[trigger] counts@[j]) != 1,
        decreases n - idx,
    {
        if counts[idx] == 1 {
            proof {
                lemma_count_free_positive(counts@, idx as int);
            }
            return Some(idx);
        }
        idx += 1;
    }
    proof {
        lemma_count_free_zero(counts@);
    }
    None
}

/// How many slots the observations say are free: the number of counts
/// that read one.
pub fn count_free_of(counts: &Vec<usize>) -> (r: usize)
    ensures
        r == spec_count_free(counts@),
        r <= counts@.len(),
{
    let n = counts.len();
    let mut idx: usize = 0;
    let mut count: usize = 0;
    while idx < n
        invariant
            idx <= n,
            n == counts@.len(),
            count <= idx,
            count == spec_count_free(counts@.take(idx as int)),
        decreases n - idx,
    {
        if counts[idx] == 1 {
            count += 1;
        }
        proof {
            assert(counts@.take(idx + 1).drop_last() =~= counts@.take(idx as int));
            assert(counts@.take(idx + 1).last() == counts@[idx as int]);
        }
        idx += 1;
    }
    proof {
        assert(counts@.take(n as int) =~= counts@);
    }
    count
}

/// The release protocol's one decision: a handle about to be dropped
/// recycles its slot exactly when the observed strong reference count is
/// two — the releasing handle itself plus the pool's own — so that the
/// payload is reinitialized precisely when the last external holder lets
/// go.
pub fn should_recycle(count: usize) -> (r: bool)
    ensures
        r <==> count == 2,
{
    count == 2
}

/// A count of one makes the free count positive.
proof fn lemma_count_free_positive(counts: Seq<usize>, i: int)
    requires
        0 <= i < counts.len(),
        counts[i] == 1,
    ensures
        spec_count_free(counts) >= 1,
    decreases counts.len(),
{
    if i == counts.len() - 1 {
        lemma_count_free_bounds(counts.drop_last());
    } else {
        lemma_count_free_positive(counts.drop_last(), i);
    }
}

/// The free count is zero exactly when no count reads one.
proof fn lemma_count_free_zero(counts: Seq<usize>)
    requires
        forall|j: int| 0 <= j < counts.len() ==> (#[trigger] counts[j]) != 1,
    ensures
        spec_count_free(counts) == 0,
    decreases counts.len(),
{
    if counts.len() > 0 {
        lemma_count_free_zero(counts.drop_last());
    }
}

/// The free count lies between zero and the number of observations.
proof fn lemma_count_free_bounds(counts: Seq<usize>)
    ensures
        0 <= spec_count_free(counts) <= counts.len(),
    decreases counts.len(),
{
    if counts.len() > 0 {
        lemma_count_free_bounds(counts.drop_last());
    }
}

} // verus!
