use vstd::prelude::*;

verus! {

/// A named memory layout, handed to the native library in place of explicit
/// strides.
#[derive(Clone, Copy, Debug, PartialEq, Eq, Structural)]
pub enum TensorFormat {
    /// Packed, row-major: batch, feature maps, rows, columns.
    Nchw,
    /// Packed with the feature maps innermost: batch, rows, columns, feature maps.
    Nhwc,
    /// Feature maps grouped into short vectors that are stored together.
    NchwVectC,
}

/// The native layout constant of a format.
pub open spec fn raw_format(format: TensorFormat) -> i32 {
    match format {
        TensorFormat::Nchw => 0,
        TensorFormat::Nhwc => 1,
        TensorFormat::NchwVectC => 2,
    }
}

impl TensorFormat {
    /// The native constant for this layout.
    pub fn into_raw(self) -> (r: i32)
        ensures
            r == raw_format(self),
    {
        match self {
            TensorFormat::Nchw => 0,
            TensorFormat::Nhwc => 1,
            TensorFormat::NchwVectC => 2,
        }
    }
}

/// The product of the extents from axis `i` to the last one.
pub open spec fn suffix_product(shape: Seq<i32>, i: int) -> int
    decreases shape.len() - i,
{
    if i < 0 || i >= shape.len() {
        1
    } else {
        shape[i] as int * suffix_product(shape, i + 1)
    }
}

/// The strides of a packed row-major tensor: each axis steps over the whole
/// of the axes after it.
pub open spec fn row_major_strides(shape: Seq<i32>) -> Seq<int> {
    Seq::new(shape.len(), |j: int| suffix_product(shape, j + 1))
}

pub open spec fn fits_i64(x: int) -> bool {
    i64::MIN <= x <= i64::MAX
}

/// Whether every entry of `s` fits in an `i64`.
pub open spec fn all_fit_i64(s: Seq<int>) -> bool {
    forall|j: int| 0 <= j < s.len() ==> fits_i64(#[trigger] s[j])
}

/// The packed row-major strides of `shape`, or `None` where one of them does
/// not fit in an `i64`.
pub fn row_major(shape: &[i32]) -> (r: Option<Vec<i64>>)
    ensures
        r is Some <==> all_fit_i64(row_major_strides(shape@)),
        r is Some ==> r->Some_0@.len() == shape@.len() && forall|j: int|
            0 <= j < shape@.len() ==> r->Some_0@[j] as int == row_major_strides(shape@)[j],
{
    let n = shape.len();
    let mut out: Vec<i64> = Vec::new();
    let mut k: usize = 0;
    while k < n
        invariant
            k <= n,
            out@.len() == k,
        decreases n - k,
    {
        out.push(0);
        k = k + 1;
    }
    let mut acc: i64 = 1;
    let mut i: usize = n;
    while i > 0
        invariant
            i <= n,
            n == shape@.len(),
            out@.len() == n,
            i == 0 || acc as int == suffix_product(shape@, i as int),
            forall|j: int| i <= j < n ==> out@[j] as int == #[trigger] row_major_strides(shape@)[j],
        decreases i,
    {
        i = i - 1;
        out.set(i, acc);
        if i > 0 {
            assert(suffix_product(shape@, i as int) == shape@[i as int] as int * suffix_product(
                shape@,
                i + 1,
            ));
            match (shape[i] as i64).checked_mul(acc) {
                Some(v) => {
                    acc = v;
                },
                None => {
                    assert(!fits_i64(row_major_strides(shape@)[i - 1]));
                    return None;
                },
            }
        }
    }
    assert(all_fit_i64(row_major_strides(shape@)));
    Some(out)
}

/// The strides of a packed tensor with the feature maps innermost: axis 1
/// (feature maps) steps by one, every other axis over the feature maps and the
/// spatial axes after it, and axis 0 over the whole image. With fewer than two
/// axes there is no feature-map axis and the tensor is packed row-major.
pub open spec fn channels_last_strides(shape: Seq<i32>) -> Seq<int> {
    if shape.len() < 2 {
        row_major_strides(shape)
    } else {
        Seq::new(
            shape.len(),
            |j: int|
                if j == 1 {
                    1
                } else if j == 0 {
                    shape[1] as int * suffix_product(shape, 2)
                } else {
                    shape[1] as int * suffix_product(shape, j + 1)
                },
        )
    }
}

/// The packed channels-last strides of `shape`, or `None` where one of them
/// does not fit in an `i64`.
pub fn channels_last(shape: &[i32]) -> (r: Option<Vec<i64>>)
    ensures
        r is Some <==> all_fit_i64(channels_last_strides(shape@)),
        r is Some ==> r->Some_0@.len() == shape@.len() && forall|j: int|
            0 <= j < shape@.len() ==> r->Some_0@[j] as int == channels_last_strides(shape@)[j],
{
    let n = shape.len();
    if n < 2 {
        return row_major(shape);
    }
    let mut out: Vec<i64> = Vec::new();
    let mut k: usize = 0;
    while k < n
        invariant
            k <= n,
            out@.len() == k,
        decreases n - k,
    {
        out.push(0);
        k = k + 1;
    }
    let c: i64 = shape[1] as i64;
    let mut acc: i64 = c;
    let mut i: usize = n;
    while i > 2
        invariant
            2 <= i <= n,
            n == shape@.len(),
            out@.len() == n,
            c == shape@[1],
            acc as int == c * suffix_product(shape@, i as int),
            forall|j: int| i <= j < n ==> out@[j] as int == #[trigger] channels_last_strides(shape@)[j],
        decreases i,
    {
        i = i - 1;
        out.set(i, acc);
        let e: i64 = shape[i] as i64;
        let ghost tail = suffix_product(shape@, i + 1);
        assert(suffix_product(shape@, i as int) == e * tail);
        assert(e * (c * tail) == c * (e * tail)) by (nonlinear_arith);
        match e.checked_mul(acc) {
            Some(v) => {
                acc = v;
            },
            None => {
                if i == 2 {
                    assert(!fits_i64(channels_last_strides(shape@)[0]));
                } else {
                    assert(!fits_i64(channels_last_strides(shape@)[i - 1]));
                }
                return None;
            },
        }
    }
    out.set(0, acc);
    out.set(1, 1);
    assert(all_fit_i64(channels_last_strides(shape@)));
    Some(out)
}

} // verus!
