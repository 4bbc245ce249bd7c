use vstd::prelude::*;
use vstd::slice::slice_to_vec;

verus! {

/// The number of elements of an array whose axes have the extents `dims`:
/// their product, and one for a scalar.
pub open spec fn shape_size(dims: Seq<usize>) -> nat
    decreases dims.len(),
{
    if dims.len() == 0 {
        1
    } else {
        shape_size(dims.drop_last()) * (dims.last() as nat)
    }
}

/// A zero extent on any axis leaves no element.
proof fn lemma_size_zero(dims: Seq<usize>, i: int)
    requires
        0 <= i < dims.len(),
        dims[i] == 0,
    ensures
        shape_size(dims) == 0,
    decreases dims.len(),
{
    if i < dims.len() - 1 {
        lemma_size_zero(dims.drop_last(), i);
    }
    assert(shape_size(dims) == shape_size(dims.drop_last()) * (dims.last() as nat));
}

/// With no zero extent, the axes up to `i` hold no more elements than the
/// whole array.
proof fn lemma_size_prefix_le(dims: Seq<usize>, i: int)
    requires
        0 <= i <= dims.len(),
        forall|j: int| 0 <= j < dims.len() ==> dims[j] > 0,
    ensures
        shape_size(dims.subrange(0, i)) <= shape_size(dims),
    decreases dims.len(),
{
    if i == dims.len() {
        assert(dims.subrange(0, i) =~= dims);
    } else {
        let init = dims.drop_last();
        lemma_size_prefix_le(init, i);
        assert(init.subrange(0, i) =~= dims.subrange(0, i));
        let a = shape_size(init);
        let b = dims.last() as nat;
        assert(a <= a * b) by (nonlinear_arith)
            requires
                b >= 1,
        ;
    }
}

/// The number of elements of an array of shape `dims`, or `None` where it
/// exceeds `usize::MAX`.
pub fn checked_size(dims: &Vec<usize>) -> (r: Option<usize>)
    ensures
        r is None <==> shape_size(dims@) > usize::MAX,
        r matches Some(k) ==> k == shape_size(dims@),
{
    let mut i: usize = 0;
    while i < dims.len()
        invariant
            0 <= i <= dims.len(),
            forall|j: int| 0 <= j < i ==> dims@[j] > 0,
        decreases dims.len() - i,
    {
        if dims[i] == 0 {
            proof {
                lemma_size_zero(dims@, i as int);
            }
            return Some(0);
        }
        i = i + 1;
    }
    let mut acc: usize = 1;
    let mut k: usize = 0;
    while k < dims.len()
        invariant
            0 <= k <= dims.len(),
            forall|j: int| 0 <= j < dims.len() ==> dims@[j] > 0,
            acc == shape_size(dims@.subrange(0, k as int)),
        decreases dims.len() - k,
    {
        assert(dims@.subrange(0, k + 1).drop_last() =~= dims@.subrange(0, k as int));
        match acc.checked_mul(dims[k]) {
            Some(x) => {
                acc = x;
            },
            None => {
                proof {
                    lemma_size_prefix_le(dims@, k + 1);
                }
                return None;
            },
        }
        k = k + 1;
    }
    assert(dims@.subrange(0, dims.len() as int) =~= dims@);
    Some(acc)
}

/// A multi-dimensional array: the extents of its axes and its elements in
/// row-major order.
#[derive(Debug, Clone)]
pub struct NdArray<T> {
    shape: Vec<usize>,
    data: Vec<T>,
}

impl<T> NdArray<T> {
    /// The extents of the axes.
    pub closed spec fn spec_shape(&self) -> Seq<usize> {
        self.shape@
    }

    /// The elements, in row-major order.
    pub closed spec fn spec_data(&self) -> Seq<T> {
        self.data@
    }

    /// The number of elements agrees with the shape.
    pub open spec fn wf(&self) -> bool {
        self.spec_data().len() == shape_size(self.spec_shape())
    }

    /// The array of shape `shape` holding `data`, or `None` where the number
    /// of elements does not agree with the shape.
    pub fn new(shape: Vec<usize>, data: Vec<T>) -> (r: Option<Self>)
        ensures
            r is Some <==> data@.len() == shape_size(shape@),
            r matches Some(a) ==> a.wf() && a.spec_shape() == shape@ && a.spec_data() == data@,
    {
        let len = data.len();
        match checked_size(&shape) {
            Some(k) => {
                if k == len {
                    Some(NdArray { shape, data })
                } else {
                    None
                }
            },
            None => None,
        }
    }

    /// The one-dimensional array holding `data`.
    pub fn from_vec(data: Vec<T>) -> (r: Self)
        ensures
            r.wf(),
            r.spec_shape() == seq![data@.len() as usize],
            r.spec_data() == data@,
    {
        let n = data.len();
        let shape = vec![n];
        assert(shape@ =~= seq![n]);
        assert(shape@.drop_last() =~= Seq::<usize>::empty());
        assert(shape_size(Seq::<usize>::empty()) == 1);
        assert(shape_size(shape@) == shape_size(shape@.drop_last()) * (n as nat));
        NdArray { shape, data }
    }

    /// The extents of the axes.
    pub fn shape(&self) -> (r: &Vec<usize>)
        ensures
            r@ == self.spec_shape(),
    {
        &self.shape
    }

    /// The elements, in row-major order.
    pub fn as_vec(&self) -> (r: &Vec<T>)
        ensures
            r@ == self.spec_data(),
    {
        &self.data
    }

    /// The number of elements.
    pub fn len(&self) -> (r: usize)
        ensures
            r == self.spec_data().len(),
    {
        self.data.len()
    }

    /// Whether the axes have the extents `dims`.
    pub fn has_shape(&self, dims: &Vec<usize>) -> (r: bool)
        ensures
            r == (self.spec_shape() == dims@),
    {
        same_dims(&self.shape, dims)
    }

    /// Takes the elements out of the array.
    pub fn into_vec(self) -> (r: Vec<T>)
        ensures
            r@ == self.spec_data(),
    {
        self.data
    }

    /// An array from parts that already agree.
    pub(crate) fn from_parts(shape: Vec<usize>, data: Vec<T>) -> (r: Self)
        requires
            data@.len() == shape_size(shape@),
        ensures
            r.wf(),
            r.spec_shape() == shape@,
            r.spec_data() == data@,
    {
        NdArray { shape, data }
    }
}

impl<T: Copy> NdArray<T> {
    /// A copy of the array.
    pub fn copy(&self) -> (r: Self)
        ensures
            r.spec_shape() == self.spec_shape(),
            r.spec_data() == self.spec_data(),
    {
        NdArray { shape: copy_dims(&self.shape), data: slice_to_vec(self.data.as_slice()) }
    }
}

/// Whether two lists of extents are equal.
pub(crate) fn same_dims(a: &Vec<usize>, b: &Vec<usize>) -> (r: bool)
    ensures
        r == (a@ == b@),
{
    if a.len() != b.len() {
        return false;
    }
    let mut i: usize = 0;
    while i < a.len()
        invariant
            a@.len() == b@.len(),
            0 <= i <= a.len(),
            forall|j: int| 0 <= j < i ==> a@[j] == b@[j],
        decreases a.len() - i,
    {
        if a[i] != b[i] {
            return false;
        }
        i = i + 1;
    }
    assert(a@ =~= b@);
    true
}

/// A copy of a list of extents.
pub(crate) fn copy_dims(dims: &Vec<usize>) -> (r: Vec<usize>)
    ensures
        r@ == dims@,
{
    slice_to_vec(dims.as_slice())
}

} // verus!
