//! Vectors of dimensions: slicing, joining and the arithmetic of window
//! counts, with every overflow that would stop the computation accounted for.
use vstd::prelude::*;

verus! {

/// The first `n` dimensions of `v`.
pub fn dims_take(v: &Vec<usize>, n: usize) -> (r: Vec<usize>)
    requires
        n <= v@.len(),
    ensures
        r@ == v@.take(n as int),
{
    let mut r: Vec<usize> = Vec::new();
    let mut i: usize = 0;
    while i < n
        invariant
            i <= n,
            n <= v@.len(),
            r@ =~= v@.take(i as int),
        decreases n - i,
    {
        r.push(v[i]);
        i = i + 1;
    }
    r
}

/// The dimensions of `v` from position `n` on.
pub fn dims_skip(v: &Vec<usize>, n: usize) -> (r: Vec<usize>)
    requires
        n <= v@.len(),
    ensures
        r@ == v@.skip(n as int),
{
    let mut r: Vec<usize> = Vec::new();
    let mut i: usize = n;
    while i < v.len()
        invariant
            n <= i <= v@.len(),
            r@ =~= v@.subrange(n as int, i as int),
        decreases v.len() - i,
    {
        r.push(v[i]);
        i = i + 1;
    }
    r
}

/// The dimensions of `a` followed by those of `b`.
pub fn dims_concat(a: &Vec<usize>, b: &Vec<usize>) -> (r: Vec<usize>)
    ensures
        r@ == a@ + b@,
{
    let mut r: Vec<usize> = Vec::new();
    let mut i: usize = 0;
    while i < a.len()
        invariant
            i <= a@.len(),
            r@ =~= a@.take(i as int),
        decreases a.len() - i,
    {
        r.push(a[i]);
        i = i + 1;
    }
    let mut j: usize = 0;
    while j < b.len()
        invariant
            j <= b@.len(),
            r@ =~= a@ + b@.take(j as int),
        decreases b.len() - j,
    {
        r.push(b[j]);
        j = j + 1;
    }
    assert(b@.take(b@.len() as int) =~= b@);
    r
}

/// The product of `s`, multiplied from the left as `Iterator::product` does,
/// or `None` where a partial product leaves `usize`.
pub open spec fn checked_product(s: Seq<usize>) -> Option<usize>
    decreases s.len(),
{
    if s.len() == 0 {
        Some(1)
    } else {
        match checked_product(s.drop_last()) {
            Some(p) => if p * s.last() <= usize::MAX {
                Some((p * s.last()) as usize)
            } else {
                None
            },
            None => None,
        }
    }
}

/// The product of `v`, or `None` where a partial product overflows.
pub fn product(v: &Vec<usize>) -> (r: Option<usize>)
    ensures
        r == checked_product(v@),
{
    let mut p: usize = 1;
    let mut i: usize = 0;
    assert(v@.take(0) =~= Seq::<usize>::empty());
    while i < v.len()
        invariant
            i <= v@.len(),
            checked_product(v@.take(i as int)) == Some(p),
        decreases v.len() - i,
    {
        assert(v@.take(i + 1).drop_last() =~= v@.take(i as int));
        let x = v[i];
        if x != 0 && p > usize::MAX / x {
            proof {
                assert(p * x > usize::MAX) by (nonlinear_arith)
                    requires
                        x != 0,
                        p > usize::MAX / x,
                ;
                lemma_product_stays_none(v@, i as int + 1);
                assert(v@.take(v@.len() as int) =~= v@);
            }
            return None;
        }
        assert(p * x <= usize::MAX) by (nonlinear_arith)
            requires
                x == 0 || p <= usize::MAX / x,
        ;
        p = p * x;
        i = i + 1;
    }
    assert(v@.take(v@.len() as int) =~= v@);
    Some(p)
}

proof fn lemma_product_stays_none(s: Seq<usize>, i: int)
    requires
        0 < i <= s.len(),
        checked_product(s.take(i)) is None,
    ensures
        checked_product(s) is None,
    decreases s.len() - i,
{
    if i < s.len() {
        assert(s.take(i + 1).drop_last() =~= s.take(i));
        lemma_product_stays_none(s, i + 1);
    } else {
        assert(s.take(i) =~= s);
    }
}

/// The number of window positions along a dimension of length `len`, for a
/// window of length `k` moved by `stride`: `(len - (k - 1) + stride - 1) / stride`,
/// or `None` where that computation underflows, overflows or divides by zero.
pub open spec fn window_count(len: int, k: int, stride: int) -> Option<usize> {
    if k >= 1 && len + 1 >= k && len - (k - 1) + stride <= usize::MAX && stride >= 1
        && len <= usize::MAX {
        Some(((len - (k - 1) + stride - 1) / stride) as usize)
    } else {
        None
    }
}

/// Computes `(len - (k - 1) + stride - 1) / stride` with every step checked.
pub fn window_count_exec(len: usize, k: usize, stride: usize) -> (r: Option<usize>)
    ensures
        r == window_count(len as int, k as int, stride as int),
{
    if k < 1 || len < k - 1 || stride < 1 {
        return None;
    }
    let spots = len - (k - 1);
    if spots > usize::MAX - stride {
        return None;
    }
    Some((spots + stride - 1) / stride)
}

/// Pool output length along a padded dimension: the dimension plus the
/// padding before and after it, then `window_count`; `None` where the sums overflow.
pub open spec fn pooled_length(before: usize, len: usize, after: usize, k: usize, stride: usize) -> Option<
    usize,
> {
    if before + len + after <= usize::MAX {
        window_count(before + len + after, k as int, stride as int)
    } else {
        None
    }
}

/// Computes `pooled_length` with every step checked.
pub fn pooled_length_exec(before: usize, len: usize, after: usize, k: usize, stride: usize) -> (r:
    Option<usize>)
    ensures
        r == pooled_length(before, len, after, k, stride),
{
    if before > usize::MAX - len {
        return None;
    }
    let s1 = before + len;
    if s1 > usize::MAX - after {
        return None;
    }
    window_count_exec(s1 + after, k, stride)
}

} // verus!
