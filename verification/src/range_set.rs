//! Sets of half-open index ranges that follow the elements they cover when
//! elements are inserted or removed: the zero-region bookkeeping of access
//! patterns.
use vstd::prelude::*;

verus! {

/// `n` copies of `false`.
pub open spec fn falses(n: nat) -> Seq<bool> {
    Seq::new(n, |i: int| false)
}

/// `s`, extended with `false` up to length `len` where it is shorter.
pub open spec fn pad_to(s: Seq<bool>, len: int) -> Seq<bool> {
    if len > s.len() {
        s + falses((len - s.len()) as nat)
    } else {
        s
    }
}

/// A set of ranges kept as one flag per element: element `i` is covered
/// when flag `i` is set. Elements past the end are not covered.
pub type BoolVecRangeSet = Vec<bool>;

/// Ranges over elements `0..n`, updated as elements are inserted and removed.
pub trait RangeSet2: Sized {
    type Index;

    /// Where `remove_elements` may be called.
    spec fn can_remove(&self, index: Self::Index, num_elements_removed: usize) -> bool;

    /// Where `covered` may be called.
    spec fn can_check(&self, range: (Self::Index, Self::Index)) -> bool;

    /// Inserts elements, shifting existing ranges as needed.
    fn insert_elements(&mut self, index: Self::Index, num_elements_inserted: usize);

    /// Updates ranges as if `num_elements_removed` elements were removed at
    /// `index`.
    fn remove_elements(&mut self, index: Self::Index, num_elements_removed: usize)
        requires
            old(self).can_remove(index, num_elements_removed),
    ;

    /// Checks whether `range` is covered by the ranges in this set.
    fn covered(&self, range: (Self::Index, Self::Index)) -> bool
        requires
            self.can_check(range),
    ;

    /// Adds range. Ranges are half-open.
    fn add_range(&mut self, range: (Self::Index, Self::Index));
}

/// The flags after inserting `n` unset flags at `index`; a set shorter than
/// `index` is first extended to reach it.
pub open spec fn bools_inserted(s: Seq<bool>, index: int, n: nat) -> Seq<bool> {
    let t = pad_to(s, index);
    t.take(index) + falses(n) + t.skip(index)
}

/// The flags after removing `n` flags at `index`.
pub open spec fn bools_removed(s: Seq<bool>, index: int, n: int) -> Seq<bool> {
    s.take(index) + s.skip(index + n)
}

/// Whether the flags cover the half-open range `lo..hi`: all of it lies
/// inside the flags and every flag in it is set.
pub open spec fn bools_cover(s: Seq<bool>, lo: int, hi: int) -> bool {
    hi <= s.len() && forall|i: int| lo <= i < hi ==> #[trigger] s[i]
}

/// The flags after adding the range `lo..hi`, extended up to `hi` if shorter.
pub open spec fn bools_added(s: Seq<bool>, lo: int, hi: int) -> Seq<bool> {
    let t = pad_to(s, hi);
    Seq::new(t.len(), |i: int| t[i] || (lo <= i && i < hi))
}

impl RangeSet2 for Vec<bool> {
    type Index = usize;

    open spec fn can_remove(&self, index: usize, num_elements_removed: usize) -> bool {
        index + num_elements_removed <= self@.len()
    }

    open spec fn can_check(&self, range: (usize, usize)) -> bool {
        range.1 <= self@.len() ==> range.0 <= range.1
    }

    fn insert_elements(&mut self, index: usize, num_elements_inserted: usize)
        ensures
            final(self)@ == bools_inserted(old(self)@, index as int, num_elements_inserted as nat),
    {
        let ghost t = pad_to(old(self)@, index as int);
        let mut padded: Vec<bool> = Vec::new();
        let mut i: usize = 0;
        while i < self.len()
            invariant
                i <= self.len(),
                padded@ =~= self@.take(i as int),
            decreases self.len() - i,
        {
            padded.push(self[i]);
            i = i + 1;
        }
        while padded.len() < index
            invariant
                t == pad_to(old(self)@, index as int),
                padded@.len() <= index || padded@.len() == old(self)@.len(),
                padded@ =~= t.take(padded@.len() as int),
                old(self)@.len() <= padded@.len(),
                *self == *old(self),
            decreases index - padded.len(),
        {
            assert(t[padded@.len() as int] == false);
            padded.push(false);
        }
        assert(padded@ =~= t);
        let mut result: Vec<bool> = Vec::new();
        let mut k: usize = 0;
        while k < index
            invariant
                k <= index,
                index <= padded@.len(),
                padded@ =~= t,
                result@ =~= t.take(k as int),
            decreases index - k,
        {
            result.push(padded[k]);
            k = k + 1;
        }
        let mut j: usize = 0;
        while j < num_elements_inserted
            invariant
                j <= num_elements_inserted,
                result@ =~= t.take(index as int) + falses(j as nat),
            decreases num_elements_inserted - j,
        {
            result.push(false);
            j = j + 1;
        }
        let mut m: usize = index;
        while m < padded.len()
            invariant
                index <= m <= padded@.len(),
                padded@ =~= t,
                result@ =~= t.take(index as int) + falses(num_elements_inserted as nat)
                    + t.subrange(index as int, m as int),
            decreases padded.len() - m,
        {
            result.push(padded[m]);
            m = m + 1;
        }
        *self = result;
    }

    fn remove_elements(&mut self, index: usize, num_elements_removed: usize)
        ensures
            final(self)@ == bools_removed(
                old(self)@,
                index as int,
                num_elements_removed as int,
            ),
    {
        assert(index + num_elements_removed <= self@.len());
        let mut result: Vec<bool> = Vec::new();
        let mut k: usize = 0;
        while k < index
            invariant
                k <= index,
                index + num_elements_removed <= self@.len(),
                result@ =~= self@.take(k as int),
            decreases index - k,
        {
            result.push(self[k]);
            k = k + 1;
        }
        let total = self.len();
        assert(index + num_elements_removed <= total);
        let mut m: usize = index + num_elements_removed;
        while m < self.len()
            invariant
                index + num_elements_removed <= m <= self@.len(),
                result@ =~= self@.take(index as int) + self@.subrange(
                    index + num_elements_removed,
                    m as int,
                ),
            decreases self.len() - m,
        {
            result.push(self[m]);
            m = m + 1;
        }
        *self = result;
    }

    fn covered(&self, range: (usize, usize)) -> (r: bool)
        ensures
            r == bools_cover(self@, range.0 as int, range.1 as int),
    {
        if range.1 > self.len() {
            return false;
        }
        let mut i = range.0;
        while i < range.1
            invariant
                range.0 <= i <= range.1,
                range.1 <= self@.len(),
                forall|j: int| range.0 <= j < i ==> #[trigger] self@[j],
            decreases range.1 - i,
        {
            if !self[i] {
                return false;
            }
            i = i + 1;
        }
        true
    }

    fn add_range(&mut self, range: (usize, usize))
        ensures
            final(self)@ == bools_added(old(self)@, range.0 as int, range.1 as int),
    {
        let ghost t = pad_to(old(self)@, range.1 as int);
        let mut result: Vec<bool> = Vec::new();
        let mut i: usize = 0;
        while i < self.len()
            invariant
                i <= self.len(),
                result@.len() == i,
                forall|j: int|
                    0 <= j < i ==> #[trigger] result@[j] == (self@[j] || (range.0 <= j && j
                        < range.1)),
            decreases self.len() - i,
        {
            result.push(self[i] || (range.0 <= i && i < range.1));
            i = i + 1;
        }
        while result.len() < range.1
            invariant
                t == pad_to(old(self)@, range.1 as int),
                old(self)@.len() <= result@.len(),
                result@.len() <= range.1 || result@.len() == old(self)@.len(),
                *self == *old(self),
                forall|j: int|
                    0 <= j < result@.len() ==> #[trigger] result@[j] == (t[j] || (range.0 <= j
                        && j < range.1)),
            decreases range.1 - result.len(),
        {
            let n = result.len();
            assert(t[n as int] == false);
            result.push(range.0 <= n);
        }
        assert(result@ =~= bools_added(old(self)@, range.0 as int, range.1 as int));
        *self = result;
    }
}

/// How ranges react when elements are inserted inside them.
#[derive(Debug, Clone, Copy, PartialEq, Eq, Structural)]
pub enum RangeInsertStrategy {
    /// If elements are inserted in the middle of a range, the range gets split
    /// in two.
    BreakRanges,
    /// If elements are inserted in the middle of a range, they get folded into
    /// the range.
    PreserveRanges,
}

/// Ranges over elements `0..n`, updated as elements are inserted and removed,
/// with a choice of how ranges react to insertions inside them.
pub trait RangeSet: Sized {
    type Index;

    /// Where `insert_elements` may be called.
    spec fn can_insert(
        &self,
        strategy: RangeInsertStrategy,
        index: Self::Index,
        num_elements_inserted: usize,
    ) -> bool;

    /// Updates ranges as if `num_elements_inserted` elements were inserted at
    /// `index`, according to `strategy`.
    fn insert_elements(
        &mut self,
        strategy: RangeInsertStrategy,
        index: Self::Index,
        num_elements_inserted: usize,
    )
        requires
            old(self).can_insert(strategy, index, num_elements_inserted),
    ;

    /// Updates ranges as if `num_elements_removed` elements were removed at
    /// `index`.
    fn remove_elements(&mut self, index: Self::Index, num_elements_removed: usize);

    /// Checks whether `range` is covered by the ranges in this set.
    fn covered(&self, range: (Self::Index, Self::Index)) -> bool;

    /// Adds range. Ranges are half-open.
    fn add_range(&mut self, range: (Self::Index, Self::Index));
}

/// Whether inserting at `index` moves the end of range `q` under `strategy`.
pub open spec fn shifts_end(
    strategy: RangeInsertStrategy,
    q: (usize, usize),
    index: usize,
) -> bool {
    match strategy {
        RangeInsertStrategy::PreserveRanges => index <= q.1,
        RangeInsertStrategy::BreakRanges => index <= q.0 || index < q.1,
    }
}

/// Range `q` after `n` elements are inserted at `index`, keeping ranges whole.
pub open spec fn preserved(q: (usize, usize), index: usize, n: usize) -> (usize, usize) {
    if index < q.0 {
        ((q.0 + n) as usize, (q.1 + n) as usize)
    } else if index <= q.1 {
        (q.0, (q.1 + n) as usize)
    } else {
        q
    }
}

/// Range `q` after `n` elements are inserted at `index`, breaking ranges:
/// the part that starts at `q.0`.
pub open spec fn broken_first(q: (usize, usize), index: usize, n: usize) -> (usize, usize) {
    if index <= q.0 {
        ((q.0 + n) as usize, (q.1 + n) as usize)
    } else if index < q.1 {
        (q.0, index)
    } else {
        q
    }
}

/// Whether inserting at `index` splits range `q` in two.
pub open spec fn splits(q: (usize, usize), index: usize) -> bool {
    q.0 < index && index < q.1
}

/// The part of a split range that lies after the inserted elements.
pub open spec fn broken_second(q: (usize, usize), index: usize, n: usize) -> (usize, usize) {
    ((index + n) as usize, (q.1 + n) as usize)
}

/// The ranges after `n` elements are inserted at `index`, according to `strategy`.
pub open spec fn ranges_inserted(
    s: Set<(usize, usize)>,
    strategy: RangeInsertStrategy,
    index: usize,
    n: usize,
) -> Set<(usize, usize)> {
    match strategy {
        RangeInsertStrategy::PreserveRanges => s.map(|q: (usize, usize)| preserved(q, index, n)),
        RangeInsertStrategy::BreakRanges => s.map(|q: (usize, usize)| broken_first(q, index, n))
            + s.filter(|q: (usize, usize)| splits(q, index)).map(
            |q: (usize, usize)| broken_second(q, index, n),
        ),
    }
}

/// Range `q` after `n` elements are removed at `index`.
pub open spec fn shrunk(q: (usize, usize), index: usize, n: usize) -> (usize, usize) {
    let lo = if q.0 <= index {
        q.0 as int
    } else {
        q.0 - vstd::math::min(n as int, q.0 - index)
    };
    let hi = if index >= q.1 {
        q.1 as int
    } else {
        q.1 - vstd::math::min(n as int, q.1 - index)
    };
    (lo as usize, hi as usize)
}

/// The ranges after `n` elements are removed at `index`; ranges left empty go.
pub open spec fn ranges_removed(s: Set<(usize, usize)>, index: usize, n: usize) -> Set<
    (usize, usize),
> {
    s.map(|q: (usize, usize)| shrunk(q, index, n)).filter(|q: (usize, usize)| q.0 < q.1)
}

/// Whether element `k` lies in some range of `s`.
pub open spec fn in_some_range(s: Set<(usize, usize)>, k: int) -> bool {
    exists|q: (usize, usize)| #[trigger] s.contains(q) && q.0 <= k < q.1
}

/// Whether every element of `lo..hi` lies in some range of `s`.
pub open spec fn ranges_cover(s: Set<(usize, usize)>, lo: int, hi: int) -> bool {
    forall|k: int| lo <= k < hi ==> #[trigger] in_some_range(s, k)
}

/// A set of half-open ranges, held as distinct pairs.
pub struct RangeHashSet {
    ranges: Vec<(usize, usize)>,
}

impl View for RangeHashSet {
    type V = Set<(usize, usize)>;

    closed spec fn view(&self) -> Set<(usize, usize)> {
        self.ranges@.to_set()
    }
}

impl RangeHashSet {
    #[verifier::type_invariant]
    spec fn distinct(self) -> bool {
        self.ranges@.no_duplicates()
    }

    /// An empty set of ranges.
    pub fn new() -> (r: RangeHashSet)
        ensures
            r@ == Set::<(usize, usize)>::empty(),
            r@.finite(),
    {
        let r = RangeHashSet { ranges: Vec::new() };
        assert(r.ranges@.to_set() =~= Set::<(usize, usize)>::empty());
        r
    }

    /// The number of ranges.
    pub fn len(&self) -> (n: usize)
        ensures
            n == self@.len(),
            self@.finite(),
    {
        proof {
            use_type_invariant(self);
            vstd::seq_lib::seq_to_set_is_finite(self.ranges@);
            self.ranges@.unique_seq_to_set();
        }
        self.ranges.len()
    }

    /// Whether `range` is one of the ranges.
    pub fn contains(&self, range: &(usize, usize)) -> (b: bool)
        ensures
            b == self@.contains(*range),
    {
        let mut i: usize = 0;
        while i < self.ranges.len()
            invariant
                i <= self.ranges@.len(),
                forall|j: int| 0 <= j < i ==> self.ranges@[j] != *range,
            decreases self.ranges.len() - i,
        {
            let q = self.ranges[i];
            if q.0 == range.0 && q.1 == range.1 {
                assert(self.ranges@.contains(*range));
                return true;
            }
            i = i + 1;
        }
        false
    }
}

impl RangeHashSet {
    /// A set of ranges holds finitely many ranges.
    pub proof fn lemma_finite(&self)
        ensures
            self@.finite(),
    {
        vstd::seq_lib::seq_to_set_is_finite(self.ranges@);
    }
}

/// Removing elements never adds ranges: every range left comes from one
/// that was there.
pub proof fn lemma_removal_does_not_grow(s: Set<(usize, usize)>, index: usize, n: usize)
    requires
        s.finite(),
    ensures
        ranges_removed(s, index, n).finite(),
        ranges_removed(s, index, n).len() <= s.len(),
{
    let f = |q: (usize, usize)| shrunk(q, index, n);
    let m = s.map(f);
    vstd::set_lib::lemma_map_size_bound(s, m, f);
    m.lemma_len_filter(|q: (usize, usize)| q.0 < q.1);
}

impl Default for RangeHashSet {
    fn default() -> (r: RangeHashSet)
        ensures
            r@ == Set::<(usize, usize)>::empty(),
    {
        RangeHashSet::new()
    }
}

/// Appends `r` unless `v` holds it already.
fn push_distinct(v: &mut Vec<(usize, usize)>, r: (usize, usize))
    requires
        old(v)@.no_duplicates(),
    ensures
        final(v)@.no_duplicates(),
        final(v)@.to_set() == old(v)@.to_set().insert(r),
{
    let mut i: usize = 0;
    while i < v.len()
        invariant
            i <= v@.len(),
            v@ == old(v)@,
            old(v)@.no_duplicates(),
            forall|j: int| 0 <= j < i ==> v@[j] != r,
        decreases v.len() - i,
    {
        let q = v[i];
        if q.0 == r.0 && q.1 == r.1 {
            assert(v@.to_set().insert(r) =~= v@.to_set());
            return ;
        }
        i = i + 1;
    }
    proof {
        v@.lemma_push_to_set_commute(r);
    }
    v.push(r);
}

proof fn lemma_map_insert<A, B>(s: Set<A>, x: A, f: spec_fn(A) -> B)
    ensures
        s.insert(x).map(f) =~= s.map(f).insert(f(x)),
{
    assert forall|y: B| #[trigger] s.insert(x).map(f).contains(y) <==> s.map(f).insert(
        f(x),
    ).contains(y) by {
        if s.insert(x).map(f).contains(y) {
            let z = choose|z: A| s.insert(x).contains(z) && f(z) == y;
            if z != x {
                assert(s.contains(z));
                assert(s.map(f).contains(y));
            }
        }
        if s.map(f).contains(y) {
            let z = choose|z: A| s.contains(z) && f(z) == y;
            assert(s.insert(x).contains(z));
        }
        if y == f(x) {
            assert(s.insert(x).contains(x));
        }
    }
}

proof fn lemma_filter_insert<A>(s: Set<A>, x: A, p: spec_fn(A) -> bool)
    ensures
        p(x) ==> s.insert(x).filter(p) =~= s.filter(p).insert(x),
        !p(x) ==> s.insert(x).filter(p) =~= s.filter(p),
{
}

proof fn lemma_take_to_set(s: Seq<(usize, usize)>, i: int)
    requires
        0 <= i < s.len(),
    ensures
        s.take(i + 1).to_set() == s.take(i).to_set().insert(s[i]),
{
    assert(s.take(i + 1) =~= s.take(i).push(s[i]));
    s.take(i).lemma_push_to_set_commute(s[i]);
}

impl RangeSet for RangeHashSet {
    type Index = usize;

    open spec fn can_insert(
        &self,
        strategy: RangeInsertStrategy,
        index: usize,
        num_elements_inserted: usize,
    ) -> bool {
        forall|q: (usize, usize)|
            #[trigger] self@.contains(q) ==> q.0 <= q.1 && (shifts_end(strategy, q, index) ==> q.1
                + num_elements_inserted <= usize::MAX)
    }

    fn insert_elements(
        &mut self,
        strategy: RangeInsertStrategy,
        index: usize,
        num_elements_inserted: usize,
    )
        ensures
            final(self)@ == ranges_inserted(old(self)@, strategy, index, num_elements_inserted),
            final(self)@.finite(),
    {
        broadcast use vstd::seq_lib::seq_to_set_is_finite;

        proof {
            use_type_invariant(&*self);
        }
        let n = num_elements_inserted;
        let ghost old_set = self@;
        let mut out: Vec<(usize, usize)> = Vec::new();
        let mut i: usize = 0;
        assert(self.ranges@.take(0).to_set() =~= Set::<(usize, usize)>::empty());
        assert(out@.to_set() =~= Set::<(usize, usize)>::empty());
        while i < self.ranges.len()
            invariant
                i <= self.ranges@.len(),
                old_set == self.ranges@.to_set(),
                forall|q: (usize, usize)|
                    #[trigger] old_set.contains(q) ==> q.0 <= q.1 && (shifts_end(strategy, q, index)
                        ==> q.1 + n <= usize::MAX),
                out@.no_duplicates(),
                out@.to_set() == ranges_inserted(
                    self.ranges@.take(i as int).to_set(),
                    strategy,
                    index,
                    n,
                ),
            decreases self.ranges.len() - i,
        {
            let q = self.ranges[i];
            let ghost before = self.ranges@.take(i as int).to_set();
            proof {
                lemma_take_to_set(self.ranges@, i as int);
                assert(old_set.contains(q));
            }
            let low = q.0;
            let high = q.1;
            match strategy {
                RangeInsertStrategy::PreserveRanges => {
                    let r = if index < low {
                        (low + n, high + n)
                    } else if index <= high {
                        (low, high + n)
                    } else {
                        (low, high)
                    };
                    push_distinct(&mut out, r);
                    proof {
                        lemma_map_insert(before, q, |q: (usize, usize)| preserved(q, index, n));
                    }
                    assert(ranges_inserted(before.insert(q), strategy, index, n) =~= ranges_inserted(
                        before,
                        strategy,
                        index,
                        n,
                    ).insert(r));
                },
                RangeInsertStrategy::BreakRanges => {
                    let r1 = if index <= low {
                        (low + n, high + n)
                    } else if index < high {
                        (low, index)
                    } else {
                        (low, high)
                    };
                    push_distinct(&mut out, r1);
                    proof {
                        lemma_map_insert(before, q, |q: (usize, usize)| broken_first(q, index, n));
                        lemma_filter_insert(before, q, |q: (usize, usize)| splits(q, index));
                        lemma_map_insert(
                            before.filter(|q: (usize, usize)| splits(q, index)),
                            q,
                            |q: (usize, usize)| broken_second(q, index, n),
                        );
                    }
                    if low < index && index < high {
                        let r2 = (index + n, high + n);
                        push_distinct(&mut out, r2);
                        assert(ranges_inserted(before.insert(q), strategy, index, n) =~= ranges_inserted(
                            before,
                            strategy,
                            index,
                            n,
                        ).insert(r1).insert(r2));
                    } else {
                        assert(ranges_inserted(before.insert(q), strategy, index, n) =~= ranges_inserted(
                            before,
                            strategy,
                            index,
                            n,
                        ).insert(r1));
                    }
                },
            }
            i = i + 1;
        }
        assert(self.ranges@.take(self.ranges@.len() as int) =~= self.ranges@);
        self.ranges = out;
    }

    fn remove_elements(&mut self, index: usize, num_elements_removed: usize)
        ensures
            final(self)@ == ranges_removed(old(self)@, index, num_elements_removed),
            final(self)@.finite(),
            final(self)@.len() <= old(self)@.len(),
    {
        broadcast use vstd::seq_lib::seq_to_set_is_finite;

        proof {
            lemma_removal_does_not_grow(self@, index, num_elements_removed);
        }
        proof {
            use_type_invariant(&*self);
        }
        let n = num_elements_removed;
        let mut out: Vec<(usize, usize)> = Vec::new();
        let mut i: usize = 0;
        assert(self.ranges@.take(0).to_set() =~= Set::<(usize, usize)>::empty());
        assert(out@.to_set() =~= Set::<(usize, usize)>::empty());
        assert(ranges_removed(Set::<(usize, usize)>::empty(), index, n) =~= Set::<
            (usize, usize),
        >::empty());
        while i < self.ranges.len()
            invariant
                i <= self.ranges@.len(),
                out@.no_duplicates(),
                out@.to_set() == ranges_removed(self.ranges@.take(i as int).to_set(), index, n),
            decreases self.ranges.len() - i,
        {
            let q = self.ranges[i];
            let ghost before = self.ranges@.take(i as int).to_set();
            proof {
                lemma_take_to_set(self.ranges@, i as int);
            }
            let low = q.0;
            let high = q.1;
            let new_low = if low <= index {
                low
            } else {
                low - if n < low - index {
                    n
                } else {
                    low - index
                }
            };
            let new_high = if index >= high {
                high
            } else {
                high - if n < high - index {
                    n
                } else {
                    high - index
                }
            };
            assert((new_low, new_high) == shrunk(q, index, n));
            proof {
                lemma_map_insert(before, q, |q: (usize, usize)| shrunk(q, index, n));
                lemma_filter_insert(
                    before.map(|q: (usize, usize)| shrunk(q, index, n)),
                    shrunk(q, index, n),
                    |q: (usize, usize)| q.0 < q.1,
                );
            }
            if new_low < new_high {
                push_distinct(&mut out, (new_low, new_high));
                assert(ranges_removed(before.insert(q), index, n) =~= ranges_removed(
                    before,
                    index,
                    n,
                ).insert((new_low, new_high)));
            } else {
                assert(ranges_removed(before.insert(q), index, n) =~= ranges_removed(
                    before,
                    index,
                    n,
                ));
            }
            i = i + 1;
        }
        assert(self.ranges@.take(self.ranges@.len() as int) =~= self.ranges@);
        self.ranges = out;
    }

    fn covered(&self, range: (usize, usize)) -> (r: bool)
        ensures
            r == ranges_cover(self@, range.0 as int, range.1 as int),
    {
        let mut k = range.0;
        while k < range.1
            invariant
                range.0 <= k,
                k <= range.1 || range.1 < range.0,
                forall|x: int| range.0 <= x < k ==> #[trigger] in_some_range(self@, x),
            decreases range.1 - k,
        {
            let mut found = false;
            let mut i: usize = 0;
            while i < self.ranges.len()
                invariant
                    i <= self.ranges@.len(),
                    found ==> in_some_range(self@, k as int),
                    !found ==> forall|j: int|
                        0 <= j < i ==> !(self.ranges@[j].0 <= k && k < self.ranges@[j].1),
                decreases self.ranges.len() - i,
            {
                let q = self.ranges[i];
                if q.0 <= k && k < q.1 {
                    assert(self.ranges@.contains(q));
                    assert(self@.contains(q));
                    found = true;
                }
                i = i + 1;
            }
            if !found {
                assert forall|q: (usize, usize)| self@.contains(q) implies !(q.0 <= k && k < q.1) by {
                    let j = choose|j: int| 0 <= j < self.ranges@.len() && self.ranges@[j] == q;
                }
                assert(!in_some_range(self@, k as int));
                return false;
            }
            k = k + 1;
        }
        true
    }

    fn add_range(&mut self, range: (usize, usize))
        ensures
            final(self)@ == old(self)@.insert(range),
            final(self)@.finite(),
    {
        broadcast use vstd::seq_lib::seq_to_set_is_finite;

        proof {
            use_type_invariant(&*self);
        }
        let mut v = Vec::new();
        std::mem::swap(&mut v, &mut self.ranges);
        push_distinct(&mut v, range);
        self.ranges = v;
    }
}

} // verus!
