//! The arrays that observations are made of.
//!
//! The buffers are arrays of the `ndarray` crate. Verus cannot look inside
//! them, so each kind of array is a struct whose contents are known to the
//! verifier only by name, and every call into `ndarray` stands in one small
//! function whose contract is taken on trust. Everything else in the crate is
//! proved against those contracts.

use ndarray::{Array1, Array3};
use vstd::prelude::*;

verus! {

/// A one-dimensional array of `i32`, held as an `ndarray::Array1<i32>`.
#[verifier::external_body]
pub struct IntArray1 {
    inner: Array1<i32>,
}

/// A three-dimensional array of `i32`, held as an `ndarray::Array3<i32>`.
#[verifier::external_body]
pub struct IntArray3 {
    inner: Array3<i32>,
}

/// A one-dimensional array of `bool`, held as an `ndarray::Array1<bool>`.
#[verifier::external_body]
pub struct BoolArray1 {
    inner: Array1<bool>,
}

/// A one-dimensional array of `u8`, held as an `ndarray::Array1<u8>`.
#[verifier::external_body]
pub struct ByteArray1 {
    inner: Array1<u8>,
}

/// The elements of an `IntArray1`, in index order.
pub uninterp spec fn int_array1_cells(a: IntArray1) -> Seq<i32>;

/// The elements of an `IntArray3`, keyed by their three indices.
pub uninterp spec fn int_array3_cells(a: IntArray3) -> Map<(int, int, int), i32>;

/// The three axis lengths of an `IntArray3`.
pub uninterp spec fn int_array3_dim(a: IntArray3) -> (nat, nat, nat);

/// The elements of a `BoolArray1`, in index order.
pub uninterp spec fn bool_array1_cells(a: BoolArray1) -> Seq<bool>;

/// The elements of a `ByteArray1`, in index order.
pub uninterp spec fn byte_array1_cells(a: ByteArray1) -> Seq<u8>;

/// An axis length, with 1 in place of 0.
pub open spec fn nonzero_axis(len: int) -> int {
    if len == 0 {
        1
    } else {
        len
    }
}

/// Whether a three-dimensional array of `i32` with these axis lengths can be
/// made: the product of the lengths that are not zero fits in `isize`, and so
/// does the number of bytes.
pub open spec fn shape_fits(width: int, height: int, depth: int) -> bool {
    &&& nonzero_axis(width) * nonzero_axis(height) * nonzero_axis(depth) <= isize::MAX
    &&& width * height * depth * 4 <= isize::MAX
}

/// Whether `(x, y, z)` indexes an array with axis lengths `dim`.
pub open spec fn index_in_dim(dim: (nat, nat, nat), x: int, y: int, z: int) -> bool {
    0 <= x < dim.0 && 0 <= y < dim.1 && 0 <= z < dim.2
}

/// Calls `Array1::<i32>::zeros`. Trusted: the array has `len` elements and
/// each of them is 0. The call panics where the allocation would exceed
/// `isize::MAX` bytes, which `requires` leaves out.
#[verifier::external_body]
pub(crate) fn int_array1_zeros(len: usize) -> (a: IntArray1)
    requires
        len * 4 <= isize::MAX,
    ensures
        int_array1_cells(a).len() == len,
        forall|i: int| 0 <= i < len ==> int_array1_cells(a)[i] == 0,
{
    IntArray1 { inner: Array1::<i32>::zeros(len) }
}

/// Assigns through `IndexMut<usize>` of an `Array1<i32>`. Trusted: the element
/// at `i` becomes `v` and no other changes. The index panics out of bounds,
/// which `requires` leaves out.
#[verifier::external_body]
pub(crate) fn int_array1_put(a: &mut IntArray1, i: usize, v: i32)
    requires
        i < int_array1_cells(*old(a)).len(),
    ensures
        int_array1_cells(*final(a)) == int_array1_cells(*old(a)).update(i as int, v),
{
    a.inner[i] = v;
}

/// Calls `to_vec` of an `Array1<i32>`. Trusted: the vector holds the
/// elements in index order.
#[verifier::external_body]
pub(crate) fn int_array1_to_vec(a: &IntArray1) -> (v: Vec<i32>)
    ensures
        v@ == int_array1_cells(*a),
{
    a.inner.to_vec()
}

/// Calls `Array3::<i32>::zeros`. Trusted: the array has the three axis
/// lengths asked for and holds 0 at every index. The call panics where the
/// shape does not fit, which `requires` leaves out.
#[verifier::external_body]
pub(crate) fn int_array3_zeros(width: usize, height: usize, depth: usize) -> (a: IntArray3)
    requires
        shape_fits(width as int, height as int, depth as int),
    ensures
        int_array3_dim(a) == (width as nat, height as nat, depth as nat),
        forall|x: int, y: int, z: int|
            index_in_dim(int_array3_dim(a), x, y, z) ==> #[trigger] int_array3_cells(a)[(x, y, z)]
                == 0,
{
    IntArray3 { inner: Array3::<i32>::zeros((width, height, depth)) }
}

/// Assigns through `IndexMut<(usize, usize, usize)>` of an `Array3<i32>`.
/// Trusted: the element at `(x, y, z)` becomes `v`, no other changes, and the
/// axis lengths stay. The index panics out of bounds, which `requires` leaves
/// out.
#[verifier::external_body]
pub(crate) fn int_array3_put(a: &mut IntArray3, x: usize, y: usize, z: usize, v: i32)
    requires
        index_in_dim(int_array3_dim(*old(a)), x as int, y as int, z as int),
    ensures
        int_array3_dim(*final(a)) == int_array3_dim(*old(a)),
        int_array3_cells(*final(a)) == int_array3_cells(*old(a)).insert(
            (x as int, y as int, z as int),
            v,
        ),
{
    a.inner[(x, y, z)] = v;
}

/// Reads through `Index<(usize, usize, usize)>` of an `Array3<i32>`. Trusted:
/// the result is the element at `(x, y, z)`. The index panics out of bounds,
/// which `requires` leaves out.
#[verifier::external_body]
pub(crate) fn int_array3_at(a: &IntArray3, x: usize, y: usize, z: usize) -> (v: i32)
    requires
        index_in_dim(int_array3_dim(*a), x as int, y as int, z as int),
    ensures
        v == int_array3_cells(*a)[(x as int, y as int, z as int)],
{
    a.inner[(x, y, z)]
}

/// Calls `dim` of an `Array3<i32>`. Trusted: the result is the three axis
/// lengths.
#[verifier::external_body]
pub(crate) fn int_array3_axes(a: &IntArray3) -> (dim: (usize, usize, usize))
    ensures
        (dim.0 as nat, dim.1 as nat, dim.2 as nat) == int_array3_dim(*a),
{
    a.inner.dim()
}

/// Calls `clone` of an `Array3<i32>`. Trusted: the copy has the same axis
/// lengths and the same element at every index.
#[verifier::external_body]
pub(crate) fn int_array3_clone(a: &IntArray3) -> (copy: IntArray3)
    ensures
        int_array3_dim(copy) == int_array3_dim(*a),
        int_array3_cells(copy) == int_array3_cells(*a),
{
    IntArray3 { inner: a.inner.clone() }
}

/// Calls `Array1::from_vec`. Trusted: the array holds the vector's elements
/// in order.
#[verifier::external_body]
pub(crate) fn bool_array1_from_vec(v: Vec<bool>) -> (a: BoolArray1)
    ensures
        bool_array1_cells(a) == v@,
{
    BoolArray1 { inner: Array1::from_vec(v) }
}

/// Calls `to_vec` of an `Array1<bool>`. Trusted: the vector holds the
/// elements in index order.
#[verifier::external_body]
pub(crate) fn bool_array1_to_vec(a: &BoolArray1) -> (v: Vec<bool>)
    ensures
        v@ == bool_array1_cells(*a),
{
    a.inner.to_vec()
}

/// Calls `Array1::<u8>::zeros`. Trusted: the array has `len` elements and each
/// of them is 0. The call panics where `len` exceeds `isize::MAX`, which
/// `requires` leaves out.
#[verifier::external_body]
pub(crate) fn byte_array1_zeros(len: usize) -> (a: ByteArray1)
    requires
        len <= isize::MAX,
    ensures
        byte_array1_cells(a).len() == len,
        forall|i: int| 0 <= i < len ==> byte_array1_cells(a)[i] == 0,
{
    ByteArray1 { inner: Array1::<u8>::zeros(len) }
}

/// Assigns through `IndexMut<usize>` of an `Array1<u8>`. Trusted: the element
/// at `i` becomes `v` and no other changes. The index panics out of bounds,
/// which `requires` leaves out.
#[verifier::external_body]
pub(crate) fn byte_array1_put(a: &mut ByteArray1, i: usize, v: u8)
    requires
        i < byte_array1_cells(*old(a)).len(),
    ensures
        byte_array1_cells(*final(a)) == byte_array1_cells(*old(a)).update(i as int, v),
{
    a.inner[i] = v;
}

/// Calls `to_vec` of an `Array1<u8>`. Trusted: the vector holds the elements
/// in index order.
#[verifier::external_body]
pub(crate) fn byte_array1_to_vec(a: &ByteArray1) -> (v: Vec<u8>)
    ensures
        v@ == byte_array1_cells(*a),
{
    a.inner.to_vec()
}

/// Whether `shape_fits` holds of the three lengths.
pub fn shape_fits_in_memory(width: usize, height: usize, depth: usize) -> (ok: bool)
    ensures
        ok == shape_fits(width as int, height as int, depth as int),
{
    let w: usize = if width == 0 { 1 } else { width };
    let h: usize = if height == 0 { 1 } else { height };
    let d: usize = if depth == 0 { 1 } else { depth };
    let limit: usize = isize::MAX as usize;
    assert(w * h * d >= w * h && w * h >= 1) by (nonlinear_arith)
        requires
            w >= 1,
            h >= 1,
            d >= 1,
    ;
    match w.checked_mul(h) {
        None => false,
        Some(wh) => match wh.checked_mul(d) {
            None => false,
            Some(whd) => {
                if whd > limit {
                    false
                } else if width == 0 || height == 0 || depth == 0 {
                    true
                } else {
                    whd <= limit / 4
                }
            },
        },
    }
}

impl IntArray1 {
    /// An array of `len` zeros, or `None` where `len` elements of four bytes
    /// exceed `isize::MAX` bytes.
    pub fn new(len: usize) -> (made: Option<IntArray1>)
        ensures
            made is Some <==> len * 4 <= isize::MAX,
            made matches Some(a) ==> int_array1_cells(a) == Seq::new(len as nat, |i: int| 0i32),
    {
        if len <= (isize::MAX as usize) / 4 {
            let a = int_array1_zeros(len);
            Some(a)
        } else {
            None
        }
    }

    /// The elements, in index order.
    pub fn to_vec(&self) -> (v: Vec<i32>)
        ensures
            v@ == int_array1_cells(*self),
    {
        int_array1_to_vec(self)
    }
}

impl IntArray3 {
    /// An array of zeros with the three axis lengths, or `None` where the
    /// shape does not fit.
    pub fn new(width: usize, height: usize, depth: usize) -> (made: Option<IntArray3>)
        ensures
            made is Some <==> shape_fits(width as int, height as int, depth as int),
            made matches Some(a) ==> {
                &&& int_array3_dim(a) == (width as nat, height as nat, depth as nat)
                &&& forall|x: int, y: int, z: int|
                    index_in_dim(int_array3_dim(a), x, y, z) ==> #[trigger] int_array3_cells(
                        a,
                    )[(x, y, z)] == 0
            },
    {
        if shape_fits_in_memory(width, height, depth) {
            Some(int_array3_zeros(width, height, depth))
        } else {
            None
        }
    }

    /// The three axis lengths.
    pub fn shape(&self) -> (dim: (usize, usize, usize))
        ensures
            (dim.0 as nat, dim.1 as nat, dim.2 as nat) == int_array3_dim(*self),
    {
        int_array3_axes(self)
    }

    /// The element at `(x, y, z)`, or `None` where the index lies outside the
    /// array.
    pub fn get(&self, x: usize, y: usize, z: usize) -> (cell: Option<i32>)
        ensures
            cell is Some <==> index_in_dim(int_array3_dim(*self), x as int, y as int, z as int),
            cell matches Some(v) ==> v == int_array3_cells(*self)[(x as int, y as int, z as int)],
    {
        let dim = int_array3_axes(self);
        if x < dim.0 && y < dim.1 && z < dim.2 {
            Some(int_array3_at(self, x, y, z))
        } else {
            None
        }
    }
}

impl BoolArray1 {
    /// The array that holds the elements of `v`.
    pub fn from_vec(v: Vec<bool>) -> (a: BoolArray1)
        ensures
            bool_array1_cells(a) == v@,
    {
        bool_array1_from_vec(v)
    }

    /// The elements, in index order.
    pub fn to_vec(&self) -> (v: Vec<bool>)
        ensures
            v@ == bool_array1_cells(*self),
    {
        bool_array1_to_vec(self)
    }
}

impl ByteArray1 {
    /// The elements, in index order.
    pub fn to_vec(&self) -> (v: Vec<u8>)
        ensures
            v@ == byte_array1_cells(*self),
    {
        byte_array1_to_vec(self)
    }
}

} // verus!
