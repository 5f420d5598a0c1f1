//! Generalized cosine windows (Hann, Hamming, Blackman, Nuttall).
//!
//! A window is described by four coefficients `a`, `b`, `c`, `d` and a length
//! `size`; its `k`-th weight is the fourth-order generalized cosine formula
//! evaluated at position `k`. This crate verifies the generator itself: which
//! positions a traversal visits, in which order, how many weights it yields,
//! and when a requested window is rejected. The numeric evaluation of one
//! weight is supplied by the caller, so the generator is generic over the
//! weight type.

use vstd::prelude::*;

verus! {

/// Why a requested window (or a single evaluation point) is rejected.
#[derive(Clone, Copy, Debug, PartialEq, Eq, Structural)]
pub enum WindowError {
    /// The requested window length was `0` or `1`: the formula divides by
    /// `size - 1`, so a window is only defined for `size > 1`.
    InvalidSize,
    /// A single weight was requested at a position past the end of the window.
    IndexOutOfRange,
}

/// Holds the window coefficients and the cursor of one traversal.
///
/// The cursor starts at `0` and advances one position per weight yielded;
/// the traversal is over once `index == size`. The coefficients never change
/// after construction, so a fresh value built from the same coefficients and
/// size always walks the same positions again.
pub struct CosineWindowIter<T> {
    pub a: T,
    pub b: T,
    pub c: T,
    pub d: T,
    pub index: usize,
    pub size: usize,
}

impl<T> CosineWindowIter<T> {
    /// A window length is meaningful only when it is at least two.
    pub open spec fn valid_size(size: usize) -> bool {
        size > 1
    }

    /// The cursor never leaves `[0, size]`, and the window itself is valid.
    pub open spec fn wf(self) -> bool {
        Self::valid_size(self.size) && self.index <= self.size
    }

    /// `other` is the same configured window: equal coefficients and size
    /// (the cursors may differ).
    pub open spec fn same_window(self, other: Self) -> bool {
        self.a == other.a && self.b == other.b && self.c == other.c && self.d == other.d
            && self.size == other.size
    }

    /// Like [`cosine_iter`], but rejects a degenerate length instead of
    /// demanding `size > 1` from the caller: construction fails fast with
    /// [`WindowError::InvalidSize`] exactly when `size <= 1`.
    pub fn try_new(a: T, b: T, c: T, d: T, size: usize) -> (r: Result<Self, WindowError>)
        ensures
            r is Ok <==> Self::valid_size(size),
            r matches Ok(it) ==> it.a == a && it.b == b && it.c == c && it.d == d
                && it.index == 0 && it.size == size,
            r matches Err(e) ==> e == WindowError::InvalidSize,
    {
        if size <= 1 {
            Err(WindowError::InvalidSize)
        } else {
            Ok(CosineWindowIter { a, b, c, d, index: 0, size })
        }
    }

    /// Advances the cursor by one position and returns the position it was
    /// at, or `None` once every position of the window has been visited. The
    /// coefficients and the size never change.
    pub fn next_index(&mut self) -> (r: Option<usize>)
        ensures
            old(self).same_window(*final(self)),
            old(self).wf() ==> final(self).wf(),
            old(self).index < old(self).size ==> r == Some(old(self).index)
                && final(self).index == old(self).index + 1,
            old(self).index >= old(self).size ==> r is None
                && final(self).index == old(self).index,
    {
        if self.index >= self.size {
            return None;
        }
        let index = self.index;
        self.index = index + 1;
        Some(index)
    }

    /// Runs the traversal to its end and collects one weight per remaining
    /// position, in position order: starting from a fresh generator, the
    /// result holds exactly `size` weights, the `j`-th evaluated at position
    /// `j`. The weight at one position is computed by `at`, so the caller
    /// chooses the numeric type and the formula's precision.
    pub fn collect_with<F: Fn(usize) -> T>(&mut self, at: F) -> (r: Vec<T>)
        requires
            old(self).index <= old(self).size,
            forall|k: usize| old(self).index <= k < old(self).size ==> call_requires(at, (k,)),
        ensures
            old(self).same_window(*final(self)),
            old(self).wf() ==> final(self).wf(),
            final(self).index == old(self).size,
            r.len() == old(self).size - old(self).index,
            forall|j: int| 0 <= j < r.len()
                ==> call_ensures(at, ((old(self).index + j) as usize,), #[trigger] r[j]),
    {
        let ghost start: usize = self.index;
        let ghost w0 = *self;
        let mut out: Vec<T> = Vec::new();
        while self.index < self.size
            invariant
                self.same_window(w0),
                start <= self.index <= self.size,
                out.len() == self.index - start,
                forall|k: usize| start <= k < w0.size ==> call_requires(at, (k,)),
                forall|j: int| 0 <= j < out.len()
                    ==> call_ensures(at, ((start + j) as usize,), #[trigger] out[j]),
            decreases self.size - self.index,
        {
            if let Some(k) = self.next_index() {
                let value = at(k);
                out.push(value);
            }
        }
        out
    }
}

/// A traversal is reproducible: when the evaluator can yield at most one
/// weight for each position, any two complete traversals of a window of the
/// same size carry the same weights. Two generators built independently from
/// the same coefficients and size therefore collect equal sequences.
pub proof fn lemma_window_reproducible<T, F: Fn(usize) -> T>(at: F, size: usize, r1: Seq<T>, r2: Seq<T>)
    requires
        r1.len() == size,
        r2.len() == size,
        forall|j: int| 0 <= j < size ==> call_ensures(at, (j as usize,), #[trigger] r1[j]),
        forall|j: int| 0 <= j < size ==> call_ensures(at, (j as usize,), #[trigger] r2[j]),
        forall|k: usize, y1: T, y2: T|
            call_ensures(at, (k,), y1) && call_ensures(at, (k,), y2) ==> y1 == y2,
    ensures
        r1 == r2,
{
    assert forall|j: int| 0 <= j < size implies r1[j] == r2[j] by {
        let k: usize = j as usize;
        assert(call_ensures(at, (k,), r1[j]));
        assert(call_ensures(at, (k,), r2[j]));
    }
    assert(r1 =~= r2);
}

/// Decides whether the single-weight formula may be evaluated: the window
/// must have a valid size, and the position must lie inside it. Reports
/// [`WindowError::InvalidSize`] when `size <= 1`, and otherwise
/// [`WindowError::IndexOutOfRange`] when `index >= size`.
pub fn check_window_index(size: usize, index: usize) -> (r: Result<(), WindowError>)
    ensures
        r is Ok <==> size > 1 && index < size,
        size <= 1 ==> (r matches Err(e) && e == WindowError::InvalidSize),
        size > 1 && index >= size ==> (r matches Err(e) && e == WindowError::IndexOutOfRange),
{
    if size <= 1 {
        Err(WindowError::InvalidSize)
    } else if index >= size {
        Err(WindowError::IndexOutOfRange)
    } else {
        Ok(())
    }
}

/// Returns a generator for the cosine window of `size` with the coefficients
/// `a`, `b`, `c` and `d`, its cursor at the first position.
pub fn cosine_iter<T>(a: T, b: T, c: T, d: T, size: usize) -> (it: CosineWindowIter<T>)
    requires
        CosineWindowIter::<T>::valid_size(size),
    ensures
        it.a == a,
        it.b == b,
        it.c == c,
        it.d == d,
        it.index == 0,
        it.size == size,
        it.wf(),
{
    CosineWindowIter { a, b, c, d, index: 0, size }
}

} // verus!
