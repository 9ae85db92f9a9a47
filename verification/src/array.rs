//! One- and two-dimensional arrays of bit patterns, stored by `ndarray`.
//!
//! The arrays themselves are `ndarray`'s. What Verus knows of them is what the
//! few private functions marked `external_body` below say of the `ndarray`
//! calls they make; everything else in this module is proved from that.
use crate::ieee;
use vstd::prelude::*;

verus! {

/// Whether an array of `n` eight-byte elements can be addressed: its size in
/// bytes is at most `isize::MAX`.
pub open spec fn fits(n: nat) -> bool {
    n * 8 <= isize::MAX
}

/// `ndarray::ShapeError`: what `ndarray` reports when shapes disagree. Nothing
/// is read from it.
#[verifier::external_type_specification]
#[verifier::external_body]
pub struct ExShapeError(ndarray::ShapeError);

/// A one-dimensional array: an `ndarray::Array1` of bit patterns.
#[verifier::external_body]
#[derive(Debug)]
pub struct Profile {
    inner: ndarray::Array1<u64>,
}

/// The elements of a profile, in index order.
pub uninterp spec fn profile_items(profile: &Profile) -> Seq<u64>;

impl View for Profile {
    type V = Seq<u64>;

    open spec fn view(&self) -> Seq<u64> {
        profile_items(self)
    }
}

impl Profile {
    /// `ndarray::Array1::from_elem`: the array of `n` copies of `item`. The
    /// call panics when the array would be too large to address, which the
    /// precondition excludes.
    #[verifier::external_body]
    pub(crate) fn from_elem(n: usize, item: u64) -> (profile: Profile)
        requires
            fits(n as nat),
        ensures
            profile_items(&profile) == Seq::new(n as nat, |i: int| item),
    {
        Profile { inner: ndarray::Array1::from_elem(n, item) }
    }

    /// `ndarray::Array1::from_vec`: the array that holds the elements of the
    /// vector, in the same order.
    #[verifier::external_body]
    pub(crate) fn wrap_vec(values: Vec<u64>) -> (profile: Profile)
        ensures
            profile_items(&profile) == values@,
    {
        Profile { inner: ndarray::Array1::from_vec(values) }
    }

    /// `ndarray::ArrayBase::len`: the number of elements.
    #[verifier::external_body]
    pub(crate) fn count(&self) -> (n: usize)
        ensures
            n == profile_items(self).len(),
    {
        self.inner.len()
    }

    /// Indexing an `ndarray::Array1` by a `usize`: the element at that index.
    /// It panics when the index is out of bounds, which the precondition
    /// excludes.
    #[verifier::external_body]
    pub(crate) fn at(&self, i: usize) -> (item: u64)
        requires
            i < profile_items(self).len(),
        ensures
            item == profile_items(self)[i as int],
    {
        self.inner[i]
    }

    /// Assigning through the index of an `ndarray::Array1`: only the element at
    /// that index changes. It panics when the index is out of bounds, which the
    /// precondition excludes.
    #[verifier::external_body]
    pub(crate) fn set(&mut self, i: usize, item: u64)
        requires
            i < profile_items(old(self)).len(),
        ensures
            profile_items(final(self)) == profile_items(old(self)).update(i as int, item),
    {
        self.inner[i] = item;
    }

    /// `ndarray::ArrayBase::last`: the last element, or `None` for an empty
    /// array.
    #[verifier::external_body]
    pub(crate) fn final_item(&self) -> (item: Option<u64>)
        ensures
            item == (if profile_items(self).len() == 0 {
                None
            } else {
                Some(profile_items(self).last())
            }),
    {
        self.inner.last().copied()
    }

    /// `ndarray::ArrayBase::append` along axis 0: the elements of `tail` follow
    /// those already there. The call reports a shape error when the two arrays
    /// disagree in an axis other than the one that grows, of which
    /// one-dimensional arrays have none, or when the longer array could not be
    /// addressed, which the precondition excludes: so it succeeds.
    #[verifier::external_body]
    pub(crate) fn append(&mut self, tail: &Profile) -> (done: Result<(), ndarray::ShapeError>)
        requires
            fits(profile_items(old(self)).len() + profile_items(tail).len()),
        ensures
            done is Ok,
            profile_items(final(self)) == profile_items(old(self)) + profile_items(tail),
    {
        self.inner.append(ndarray::Axis(0), tail.inner.view())
    }

    /// The profile that holds the given values, in the same order.
    pub fn from_vec(values: Vec<u64>) -> (profile: Profile)
        ensures
            profile@ == values@,
    {
        Profile::wrap_vec(values)
    }

    /// The number of elements.
    pub fn len(&self) -> (n: usize)
        ensures
            n == self@.len(),
    {
        self.count()
    }

    /// The element at index `i`, if there is one.
    pub fn get(&self, i: usize) -> (item: Option<u64>)
        ensures
            item == (if i < self@.len() {
                Some(self@[i as int])
            } else {
                None
            }),
    {
        if i < self.count() {
            Some(self.at(i))
        } else {
            None
        }
    }

    /// The last element, if there is one.
    pub fn last(&self) -> (item: Option<u64>)
        ensures
            item == (if self@.len() == 0 {
                None
            } else {
                Some(self@.last())
            }),
    {
        self.final_item()
    }

    /// The elements, in index order.
    pub fn to_vec(&self) -> (values: Vec<u64>)
        ensures
            values@ == self@,
    {
        let n: usize = self.count();
        let mut values: Vec<u64> = Vec::new();
        let mut i: usize = 0;
        while i < n
            invariant
                i <= n,
                n == self@.len(),
                values@ == self@.take(i as int),
            decreases n - i,
        {
            values.push(self.at(i));
            i += 1;
        }
        values
    }

    /// Whether the numbers are in ascending order: each is less than or equal
    /// to the one that follows it. A profile that holds a not-a-number beside
    /// another element is not in order.
    pub fn is_sorted(&self) -> (ordered: bool)
        ensures
            ordered == ieee::sorted(self@),
    {
        let n: usize = self.count();
        let mut i: usize = 1;
        while i < n
            invariant
                1 <= i,
                n == self@.len(),
                forall|k: int| 0 <= k < i - 1 ==> ieee::le(#[trigger] self@[k], self@[k + 1]),
            decreases n - i,
        {
            if !ieee::less_or_equal(self.at(i - 1), self.at(i)) {
                assert(!ieee::le(self@[i - 1], self@[i - 1 + 1]));
                return false;
            }
            i += 1;
        }
        true
    }

    /// The profile with `element` put in front of it: one element longer, the
    /// given elements unchanged and in their order behind the new one.
    pub fn prepend(&self, element: u64) -> (padded: Profile)
        requires
            fits(self@.len() + 1),
        ensures
            padded@ == seq![element] + self@,
            padded@.len() == self@.len() + 1,
            padded@[0] == element,
            forall|i: int| 0 <= i < self@.len() ==> padded@[i + 1] == self@[i],
    {
        let mut first: Vec<u64> = Vec::new();
        first.push(element);
        let mut padded = Profile::wrap_vec(first);
        assert(padded@ == seq![element]);
        // Both arrays have one axis, so their shapes cannot disagree.
        match padded.append(self) {
            Ok(_) => padded,
            Err(_) => unreached(),
        }
    }
}

/// A two-dimensional array: an `ndarray::Array2` of bit patterns.
#[verifier::external_body]
#[derive(Debug)]
pub struct Field {
    inner: ndarray::Array2<u64>,
}

/// The rows of a field, first to last, each with its elements in column
/// order.
pub uninterp spec fn field_rows(field: &Field) -> Seq<Seq<u64>>;

impl View for Field {
    type V = Seq<Seq<u64>>;

    open spec fn view(&self) -> Seq<Seq<u64>> {
        field_rows(self)
    }
}

/// Whether `rows` holds `n` rows of `m` elements each.
pub open spec fn has_shape(rows: Seq<Seq<u64>>, n: int, m: int) -> bool {
    &&& rows.len() == n
    &&& forall|i: int| 0 <= i < rows.len() ==> (#[trigger] rows[i]).len() == m
}

impl Field {
    /// `ndarray::Array2::from_elem`: `rows` rows of `cols` copies of `item`.
    /// The call panics when an axis or the whole array would be too large to
    /// address, which the precondition excludes.
    #[verifier::external_body]
    pub(crate) fn from_elem(rows: usize, cols: usize, item: u64) -> (field: Field)
        requires
            rows <= isize::MAX,
            cols <= isize::MAX,
            fits((rows * cols) as nat),
        ensures
            field_rows(&field) == Seq::new(rows as nat, |i: int| Seq::new(cols as nat, |j: int| item)),
    {
        Field { inner: ndarray::Array2::from_elem((rows, cols), item) }
    }

    /// `ndarray::ArrayBase::nrows`: the number of rows.
    #[verifier::external_body]
    pub(crate) fn nrows(&self) -> (n: usize)
        ensures
            n == field_rows(self).len(),
    {
        self.inner.nrows()
    }

    /// `ndarray::ArrayBase::ncols`: the number of columns, which is the length
    /// of every row.
    #[verifier::external_body]
    pub(crate) fn ncols(&self) -> (m: usize)
        ensures
            forall|i: int| 0 <= i < field_rows(self).len() ==> (#[trigger] field_rows(self)[i]).len() == m,
    {
        self.inner.ncols()
    }

    /// Indexing an `ndarray::Array2` by `[i, j]`: the element of row `i` in
    /// column `j`. It panics when an index is out of bounds, which the
    /// precondition excludes.
    #[verifier::external_body]
    pub(crate) fn at(&self, i: usize, j: usize) -> (item: u64)
        requires
            i < field_rows(self).len(),
            j < field_rows(self)[i as int].len(),
        ensures
            item == field_rows(self)[i as int][j as int],
    {
        self.inner[[i, j]]
    }

    /// Assigning through the index `[i, j]` of an `ndarray::Array2`: only the
    /// element of row `i` in column `j` changes. It panics when an index is out
    /// of bounds, which the precondition excludes.
    #[verifier::external_body]
    pub(crate) fn set(&mut self, i: usize, j: usize, item: u64)
        requires
            i < field_rows(old(self)).len(),
            j < field_rows(old(self))[i as int].len(),
        ensures
            field_rows(final(self)) == field_rows(old(self)).update(i as int, field_rows(old(self))[i as int].update(j as int, item)),
    {
        self.inner[[i, j]] = item;
    }

    /// The number of rows and the number of columns.
    pub fn shape(&self) -> (shape: (usize, usize))
        ensures
            has_shape(self@, shape.0 as int, shape.1 as int),
    {
        (self.nrows(), self.ncols())
    }

    /// The element of row `i` in column `j`, if there is one.
    pub fn get(&self, i: usize, j: usize) -> (item: Option<u64>)
        ensures
            item == (if i < self@.len() && j < self@[i as int].len() {
                Some(self@[i as int][j as int])
            } else {
                None
            }),
    {
        if i < self.nrows() && j < self.ncols() {
            Some(self.at(i, j))
        } else {
            None
        }
    }
}

} // verus!
