//! Tensor shapes: ordered dimension sizes, rank and element counts.

use vstd::prelude::*;

verus! {

/// Product of a sequence of dimension sizes, as a mathematical integer.
pub open spec fn numel_of(dims: Seq<usize>) -> int
    decreases dims.len(),
{
    if dims.len() == 0 {
        1
    } else {
        dims[0] * numel_of(dims.drop_first())
    }
}

/// Every factor is non-negative, so the product is non-negative.
pub proof fn lemma_numel_nonneg(dims: Seq<usize>)
    ensures
        numel_of(dims) >= 0,
    decreases dims.len(),
{
    if dims.len() > 0 {
        lemma_numel_nonneg(dims.drop_first());
        vstd::arithmetic::mul::lemma_mul_nonnegative(dims[0] as int, numel_of(dims.drop_first()));
    }
}

/// With every dimension at least 1 the product is at least 1.
pub proof fn lemma_numel_pos(dims: Seq<usize>)
    requires
        forall|i: int| 0 <= i < dims.len() ==> dims[i] >= 1,
    ensures
        numel_of(dims) >= 1,
    decreases dims.len(),
{
    if dims.len() > 0 {
        lemma_numel_pos(dims.drop_first());
        vstd::arithmetic::mul::lemma_mul_inequality(1, dims[0] as int, numel_of(dims.drop_first()));
    }
}

/// A zero dimension makes the whole product zero.
pub proof fn lemma_numel_zero(dims: Seq<usize>, j: int)
    requires
        0 <= j < dims.len(),
        dims[j] == 0,
    ensures
        numel_of(dims) == 0,
    decreases dims.len(),
{
    if j == 0 {
    } else {
        lemma_numel_zero(dims.drop_first(), j - 1);
    }
}

/// Appending one dimension multiplies the element count by it.
pub proof fn lemma_numel_push(dims: Seq<usize>, d: usize)
    ensures
        numel_of(dims.push(d)) == numel_of(dims) * d,
    decreases dims.len(),
{
    reveal_with_fuel(numel_of, 3);
    if dims.len() == 0 {
        assert(dims.push(d).drop_first() =~= Seq::<usize>::empty());
        assert(dims.push(d)[0] == d);
    } else {
        assert(dims.push(d).drop_first() =~= dims.drop_first().push(d));
        assert(dims.push(d)[0] == dims[0]);
        lemma_numel_push(dims.drop_first(), d);
        assert(numel_of(dims.push(d)) == dims[0] * (numel_of(dims.drop_first()) * d));
        vstd::arithmetic::mul::lemma_mul_is_associative(
            dims[0] as int,
            numel_of(dims.drop_first()),
            d as int,
        );
    }
}

/// The product splits at any cut point: prefix times suffix.
pub proof fn lemma_numel_split(dims: Seq<usize>, n: int)
    requires
        0 <= n <= dims.len(),
    ensures
        numel_of(dims) == numel_of(dims.take(n)) * numel_of(dims.skip(n)),
    decreases n,
{
    if n == 0 {
        assert(dims.take(0) =~= Seq::<usize>::empty());
        assert(dims.skip(0) =~= dims);
    } else {
        lemma_numel_split(dims, n - 1);
        assert(dims.take(n - 1).push(dims[n - 1]) =~= dims.take(n));
        lemma_numel_push(dims.take(n - 1), dims[n - 1]);
        assert(dims.skip(n - 1).drop_first() =~= dims.skip(n));
        assert(numel_of(dims.skip(n - 1)) == dims[n - 1] * numel_of(dims.skip(n)));
        vstd::arithmetic::mul::lemma_mul_is_associative(
            numel_of(dims.take(n - 1)),
            dims[n - 1] as int,
            numel_of(dims.skip(n)),
        );
        vstd::arithmetic::mul::lemma_mul_is_commutative(
            numel_of(dims.take(n - 1)),
            dims[n - 1] as int,
        );
    }
}

/// An ordered sequence of non-negative dimension sizes.
pub struct Shape {
    pub dims: Vec<usize>,
}

impl Shape {
    pub open spec fn view(self) -> Seq<usize> {
        self.dims@
    }

    pub fn new(dims: Vec<usize>) -> (r: Shape)
        ensures
            r@ == dims@,
    {
        Shape { dims }
    }

    /// Number of dimensions.
    pub fn rank(&self) -> (r: usize)
        ensures
            r == self@.len(),
    {
        self.dims.len()
    }

    /// Dimension size at position `i`.
    pub fn dim(&self, i: usize) -> (r: usize)
        requires
            i < self@.len(),
        ensures
            r == self@[i as int],
    {
        self.dims[i]
    }

    /// Total number of elements: the product of all dimensions.
    pub fn numel(&self) -> (r: usize)
        requires
            numel_of(self@) <= usize::MAX,
        ensures
            r == numel_of(self@),
    {
        let n = self.dims.len();
        proof {
            assert(self@.subrange(0, n as int) =~= self@);
        }
        self.numel_range(0, n)
    }

    /// Product of the dimensions in `[lo, hi)`; used for flattening the
    /// leading (batch) dimensions of a shape.
    pub fn numel_range(&self, lo: usize, hi: usize) -> (r: usize)
        requires
            lo <= hi <= self@.len(),
            numel_of(self@.subrange(lo as int, hi as int)) <= usize::MAX,
        ensures
            r == numel_of(self@.subrange(lo as int, hi as int)),
    {
        let ghost whole = self@.subrange(lo as int, hi as int);
        let mut i: usize = lo;
        while i < hi
            invariant
                lo <= i <= hi <= self@.len(),
                whole == self@.subrange(lo as int, hi as int),
                forall|j: int| 0 <= j < i - lo ==> whole[j] >= 1,
            decreases hi - i,
        {
            if self.dims[i] == 0 {
                proof {
                    lemma_numel_zero(whole, i - lo);
                }
                return 0;
            }
            i = i + 1;
        }
        let mut acc: usize = 1;
        i = lo;
        proof {
            assert(whole.take(0) =~= Seq::<usize>::empty());
        }
        while i < hi
            invariant
                lo <= i <= hi <= self@.len(),
                numel_of(whole) <= usize::MAX,
                whole == self@.subrange(lo as int, hi as int),
                forall|j: int| 0 <= j < whole.len() ==> whole[j] >= 1,
                acc == numel_of(whole.take(i - lo)),
            decreases hi - i,
        {
            proof {
                assert(whole.take(i - lo).push(self@[i as int]) =~= whole.take(i + 1 - lo));
                lemma_numel_push(whole.take(i - lo), self@[i as int]);
                lemma_numel_split(whole, i + 1 - lo);
                assert(forall|j: int|
                    0 <= j < whole.skip(i + 1 - lo).len() ==> #[trigger] whole.skip(
                        i + 1 - lo,
                    )[j] >= 1);
                lemma_numel_pos(whole.skip(i + 1 - lo));
                lemma_numel_nonneg(whole.take(i + 1 - lo));
                vstd::arithmetic::mul::lemma_mul_inequality(
                    1,
                    numel_of(whole.skip(i + 1 - lo)),
                    numel_of(whole.take(i + 1 - lo)),
                );
            }
            acc = acc * self.dims[i];
            i = i + 1;
        }
        proof {
            assert(whole.take(hi - lo) =~= whole);
        }
        acc
    }
}

impl Clone for Shape {
    fn clone(&self) -> (r: Self)
        ensures
            r@ == self@,
    {
        Shape { dims: self.dims.clone() }
    }
}

} // verus!
