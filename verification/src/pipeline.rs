//! The image transformation pipeline.
//!
//! A pipeline threads one intermediate representation (IR) value through an
//! ordered list of transform steps.  The IR is a closed union of three
//! shapes of data: a pixel image (a dense grid of 8-bit RGB samples), a
//! four-dimensional numeric array, and the inference engine's tensor.
//!
//! The numeric array holds exact rationals: every element is an integer
//! numerator over a positive per-channel denominator.  Pixel casting,
//! normalization and axis transposition are all exact integer work on the
//! numerators and denominators, so each step's effect is stated and proved
//! element by element; floating point enters only when the array is rendered
//! into the engine's tensor, behind one trusted division.

use vstd::prelude::*;
use vstd::arithmetic::div_mod::{
    lemma_fundamental_div_mod_converse_div, lemma_fundamental_div_mod_converse_mod,
};

verus! {

// ---------------------------------------------------------------------------
// Spatial size
// ---------------------------------------------------------------------------

/// Target spatial resolution of a resize: positive width and height.
pub struct ImageSize {
    pub width: usize,
    pub height: usize,
}

impl ImageSize {
    pub open spec fn wf(&self) -> bool {
        self.width > 0 && self.height > 0
    }
}

/// The resampling filter a resize uses.  The two choices produce materially
/// different pixels and a recipe fixes one of them explicitly.
#[derive(PartialEq, Eq, Structural, Clone, Copy)]
pub enum ResizeFilter {
    /// Nearest-neighbor: no interpolation.
    Nearest,
    /// Triangle (linear) filter: smooth, area-weighted.
    Triangle,
}

// ---------------------------------------------------------------------------
// IR payload: pixel image
// ---------------------------------------------------------------------------

/// A dense `width` x `height` grid of 3-channel 8-bit pixels, row-major,
/// channels interleaved: the sample of channel `c` at column `x` of row `y`
/// sits at `(y * width + x) * 3 + c`.
pub struct PixelImage {
    pub width: usize,
    pub height: usize,
    pub data: Vec<u8>,
}

pub struct PixelsView {
    pub width: usize,
    pub height: usize,
    pub data: Seq<u8>,
}

impl PixelsView {
    pub open spec fn wf(&self) -> bool {
        &&& self.data.len() == 3 * self.width * self.height
        &&& self.width as int <= u32::MAX as int
        &&& self.height as int <= u32::MAX as int
    }

    /// The sample of channel `c` at column `x` of row `y`.
    pub open spec fn sample(&self, x: int, y: int, c: int) -> u8 {
        self.data[(y * self.width + x) * 3 + c]
    }
}

impl View for PixelImage {
    type V = PixelsView;

    open spec fn view(&self) -> PixelsView {
        PixelsView { width: self.width, height: self.height, data: self.data@ }
    }
}

// ---------------------------------------------------------------------------
// Four-dimensional index arithmetic
// ---------------------------------------------------------------------------

/// Number of elements of a four-dimensional shape.
pub open spec fn size4(shape: Seq<usize>) -> int {
    shape[0] * shape[1] * shape[2] * shape[3]
}

/// Row-major flat position of coordinates `(j0, j1, j2, j3)` under `shape`.
pub open spec fn flatten4(shape: Seq<usize>, j0: int, j1: int, j2: int, j3: int) -> int {
    ((j0 * shape[1] + j1) * shape[2] + j2) * shape[3] + j3
}

/// The `k`-th coordinate of the element at flat position `d` under `shape`.
pub open spec fn coord4(shape: Seq<usize>, d: int, k: int) -> int {
    if k == 3 {
        d % (shape[3] as int)
    } else if k == 2 {
        (d / (shape[3] as int)) % (shape[2] as int)
    } else if k == 1 {
        (d / (shape[3] as int * shape[2] as int)) % (shape[1] as int)
    } else {
        d / (shape[3] as int * shape[2] as int * shape[1] as int)
    }
}

/// Flattening coordinates and reading them back by division and remainder
/// agree, and the flat position lies inside the array.  The prefix bounds
/// also show that the flat position can be computed without overflow.
pub proof fn lemma_flatten4_coord4(shape: Seq<usize>, j0: int, j1: int, j2: int, j3: int)
    requires
        shape.len() == 4,
        0 <= j0 < shape[0],
        0 <= j1 < shape[1],
        0 <= j2 < shape[2],
        0 <= j3 < shape[3],
    ensures
        0 <= j0 * shape[1] + j1 < shape[0] * shape[1],
        0 <= (j0 * shape[1] + j1) * shape[2] + j2 < shape[0] * shape[1] * shape[2],
        0 <= flatten4(shape, j0, j1, j2, j3) < size4(shape),
        coord4(shape, flatten4(shape, j0, j1, j2, j3), 0) == j0,
        coord4(shape, flatten4(shape, j0, j1, j2, j3), 1) == j1,
        coord4(shape, flatten4(shape, j0, j1, j2, j3), 2) == j2,
        coord4(shape, flatten4(shape, j0, j1, j2, j3), 3) == j3,
{
    let s1 = shape[1] as int;
    let s2 = shape[2] as int;
    let s3 = shape[3] as int;
    let a = j0 * s1 + j1;
    let b = a * s2 + j2;
    let d = b * s3 + j3;
    assert(0 <= a < shape[0] * s1 && 0 <= b < shape[0] * s1 * s2 && 0 <= d < size4(shape))
        by (nonlinear_arith)
        requires
            0 <= j0 < shape[0],
            0 <= j1 < s1,
            0 <= j2 < s2,
            0 <= j3 < s3,
            a == j0 * s1 + j1,
            b == a * s2 + j2,
            d == b * s3 + j3,
            size4(shape) == shape[0] * s1 * s2 * s3,
    ;
    lemma_fundamental_div_mod_converse_div(d, s3, b, j3);
    lemma_fundamental_div_mod_converse_mod(d, s3, b, j3);
    assert(d % s3 == j3 && d / s3 == b);
    lemma_fundamental_div_mod_converse_div(b, s2, a, j2);
    lemma_fundamental_div_mod_converse_mod(b, s2, a, j2);
    assert(b % s2 == j2 && b / s2 == a);
    lemma_fundamental_div_mod_converse_div(a, s1, j0, j1);
    lemma_fundamental_div_mod_converse_mod(a, s1, j0, j1);
    assert(a % s1 == j1 && a / s1 == j0);
    assert(d / (s3 * s2) == a && d / (s3 * s2 * s1) == j0) by {
        assert(d == a * (s3 * s2) + (j2 * s3 + j3) && 0 <= j2 * s3 + j3 < s3 * s2 && d == j0 * (s3
            * s2 * s1) + ((j1 * s2 + j2) * s3 + j3) && 0 <= (j1 * s2 + j2) * s3 + j3 < s3 * s2 * s1)
            by (nonlinear_arith)
            requires
                0 <= j1 < s1,
                0 <= j2 < s2,
                0 <= j3 < s3,
                a == j0 * s1 + j1,
                b == a * s2 + j2,
                d == b * s3 + j3,
        ;
        lemma_fundamental_div_mod_converse_div(d, s3 * s2, a, j2 * s3 + j3);
        lemma_fundamental_div_mod_converse_div(d, s3 * s2 * s1, j0, (j1 * s2 + j2) * s3 + j3);
    }
}

/// Every flat position inside the array is the flattening of its own
/// coordinates, and those coordinates are in range.
pub proof fn lemma_coord4_flatten4(shape: Seq<usize>, d: int)
    requires
        shape.len() == 4,
        0 <= d < size4(shape),
    ensures
        0 <= coord4(shape, d, 0) < shape[0],
        0 <= coord4(shape, d, 1) < shape[1],
        0 <= coord4(shape, d, 2) < shape[2],
        0 <= coord4(shape, d, 3) < shape[3],
        flatten4(shape, coord4(shape, d, 0), coord4(shape, d, 1), coord4(shape, d, 2), coord4(shape, d, 3)) == d,
{
    let s0 = shape[0] as int;
    let s1 = shape[1] as int;
    let s2 = shape[2] as int;
    let s3 = shape[3] as int;
    assert(s0 > 0 && s1 > 0 && s2 > 0 && s3 > 0) by (nonlinear_arith)
        requires
            0 <= d < s0 * s1 * s2 * s3,
            s0 >= 0,
            s1 >= 0,
            s2 >= 0,
            s3 >= 0,
    ;
    let j3 = d % s3;
    let b = d / s3;
    let j2 = b % s2;
    let a = b / s2;
    let j1 = a % s1;
    let j0 = a / s1;
    vstd::arithmetic::div_mod::lemma_fundamental_div_mod(d, s3);
    vstd::arithmetic::div_mod::lemma_mod_bound(d, s3);
    vstd::arithmetic::div_mod::lemma_fundamental_div_mod(b, s2);
    vstd::arithmetic::div_mod::lemma_mod_bound(b, s2);
    vstd::arithmetic::div_mod::lemma_fundamental_div_mod(a, s1);
    vstd::arithmetic::div_mod::lemma_mod_bound(a, s1);
    assert(d == b * s3 + j3 && b == a * s2 + j2 && a == j0 * s1 + j1);
    assert(0 <= j0 < s0 && b < s0 * s1 * s2 && a < s0 * s1) by (nonlinear_arith)
        requires
            s0 > 0 && s1 > 0 && s2 > 0 && s3 > 0,
            0 <= d < s0 * s1 * s2 * s3,
            d == b * s3 + j3,
            b == a * s2 + j2,
            a == j0 * s1 + j1,
            0 <= j3 < s3,
            0 <= j2 < s2,
            0 <= j1 < s1,
            j0 == a / s1,
    ;
    lemma_flatten4_coord4(shape, j0, j1, j2, j3);
}

// ---------------------------------------------------------------------------
// Axis permutations
// ---------------------------------------------------------------------------

/// Axis `m` occurs somewhere in `axes`.
pub open spec fn perm_hits(axes: Seq<usize>, m: int) -> bool {
    exists|k: int| 0 <= k < 4 && #[trigger] axes[k] == m
}

/// `axes` is a bijection over the four axis numbers: every entry is an axis
/// and every axis occurs exactly once.
pub open spec fn valid_perm4(axes: Seq<usize>) -> bool {
    &&& axes.len() == 4
    &&& forall|k: int| 0 <= k < 4 ==> axes[k] < 4
    &&& forall|k1: int, k2: int| 0 <= k1 < k2 < 4 ==> axes[k1] != axes[k2]
    &&& forall|m: int| 0 <= m < 4 ==> #[trigger] perm_hits(axes, m)
}

/// The inverse permutation: `perm_inv(axes)[m]` is the position of axis `m`
/// in `axes`.
pub open spec fn perm_inv(axes: Seq<usize>) -> Seq<int> {
    Seq::new(4, |m: int| choose|k: int| 0 <= k < 4 && #[trigger] axes[k] == m)
}

pub proof fn lemma_perm_inv(axes: Seq<usize>, m: int)
    requires
        valid_perm4(axes),
        0 <= m < 4,
    ensures
        0 <= perm_inv(axes)[m] < 4,
        axes[perm_inv(axes)[m]] == m,
        forall|k: int| 0 <= k < 4 && axes[k] == m ==> perm_inv(axes)[m] == k,
{
    assert(perm_hits(axes, m));
    let k0 = choose|k: int| 0 <= k < 4 && #[trigger] axes[k] == m;
    assert(perm_inv(axes)[m] == k0);
}

/// The shape that an axis permutation produces: axis `k` of the result is
/// axis `axes[k]` of the input.
pub open spec fn permuted_shape(shape: Seq<usize>, axes: Seq<usize>) -> Seq<usize> {
    Seq::new(4, |k: int| shape[axes[k] as int])
}

/// The elements of a four-dimensional array after permuting its axes by
/// `axes`: the element of the result at coordinates `(j0,..,j3)` is the
/// element of the input whose coordinate along axis `axes[k]` is `j_k`.
pub open spec fn transpose_seq(nums: Seq<i64>, shape: Seq<usize>, axes: Seq<usize>) -> Seq<i64> {
    let t = permuted_shape(shape, axes);
    let inv = perm_inv(axes);
    Seq::new(
        size4(t) as nat,
        |d: int|
            nums[flatten4(
                shape,
                coord4(t, d, inv[0]),
                coord4(t, d, inv[1]),
                coord4(t, d, inv[2]),
                coord4(t, d, inv[3]),
            )],
    )
}

/// Checks that `axes` is a bijection over the four axis numbers.
pub fn check_perm4(axes: &[usize; 4]) -> (r: bool)
    ensures
        r == valid_perm4(axes@),
{
    let a0 = axes[0];
    let a1 = axes[1];
    let a2 = axes[2];
    let a3 = axes[3];
    let in_range = a0 < 4 && a1 < 4 && a2 < 4 && a3 < 4;
    let distinct = a0 != a1 && a0 != a2 && a0 != a3 && a1 != a2 && a1 != a3 && a2 != a3;
    let mut onto = true;
    let mut m: usize = 0;
    while m < 4
        invariant
            m <= 4,
            onto ==> forall|mm: int| 0 <= mm < m ==> #[trigger] perm_hits(axes@, mm),
            !onto ==> exists|mm: int| 0 <= mm < 4 && !(#[trigger] perm_hits(axes@, mm)),
        decreases 4 - m,
    {
        let hit = axes[0] == m || axes[1] == m || axes[2] == m || axes[3] == m;
        proof {
            if hit {
                assert(perm_hits(axes@, m as int));
            } else {
                assert(!perm_hits(axes@, m as int)) by {
                    assert(forall|k: int| 0 <= k < 4 ==> #[trigger] axes@[k] != m) by {
                        assert(axes@[0] != m && axes@[1] != m && axes@[2] != m && axes@[3] != m);
                    }
                }
            }
        }
        onto = onto && hit;
        m = m + 1;
    }
    in_range && distinct && onto
}

} // verus!

verus! {

// ---------------------------------------------------------------------------
// IR payload: numeric array of exact rationals
// ---------------------------------------------------------------------------

/// A four-dimensional numeric array.  Element values are exact rationals:
/// the element at flat position `d` has value `nums[d] / dens[c]`, where `c`
/// is the coordinate of `d` along the channel axis.  The engine receives the
/// division's result as a 32-bit float only when the array is rendered into
/// a tensor.
pub struct NumericArray {
    /// Extents of the four axes, row-major.
    pub shape: [usize; 4],
    /// Which axis carries the color channel; that axis has extent 3.
    pub chan_axis: usize,
    /// Integer numerators, one per element, in row-major order.
    pub nums: Vec<i64>,
    /// Positive per-channel denominators.
    pub dens: [i64; 3],
}

/// The mathematical content of a `NumericArray` or of a rendered tensor.
pub struct GridView {
    pub shape: Seq<usize>,
    pub chan_axis: usize,
    pub nums: Seq<i64>,
    pub dens: Seq<i64>,
}

impl GridView {
    pub open spec fn wf(&self) -> bool {
        &&& self.shape.len() == 4
        &&& self.chan_axis < 4
        &&& self.shape[self.chan_axis as int] == 3
        &&& self.nums.len() == size4(self.shape)
        &&& self.dens.len() == 3
        &&& forall|c: int| 0 <= c < 3 ==> self.dens[c] > 0
    }

    /// The channel of the element at flat position `d`.
    pub open spec fn chan_of(&self, d: int) -> int {
        coord4(self.shape, d, self.chan_axis as int)
    }
}

impl View for NumericArray {
    type V = GridView;

    open spec fn view(&self) -> GridView {
        GridView {
            shape: self.shape@,
            chan_axis: self.chan_axis,
            nums: self.nums@,
            dens: self.dens@,
        }
    }
}

// ---------------------------------------------------------------------------
// Errors and IR kinds
// ---------------------------------------------------------------------------

/// Which of the three IR variants a value is.
#[derive(PartialEq, Eq, Structural, Clone, Copy, Debug)]
pub enum IrKind {
    RgbImage,
    Array4,
    Tensor,
}

/// Which transform step reported a failure.
#[derive(PartialEq, Eq, Structural, Clone, Copy, Debug)]
pub enum StepKind {
    Resize,
    ToArray,
    Normalize,
    ToTensor,
    Transpose,
}

/// A transform step failed.  Transform failures are deterministic functions
/// of the input, so they are never retried, and the failing step is named.
#[derive(PartialEq, Eq, Structural, Clone, Copy, Debug)]
pub enum ConversionError {
    /// The step received an IR variant it does not handle.
    UnsupportedVariant { expected: IrKind, actual: IrKind, step: StepKind },
    /// A transpose was configured with axes that are not a bijection over
    /// the four axis numbers.
    InvalidPermutation,
    /// A normalization drove a numerator or denominator outside the 64-bit
    /// range in which element values are kept exact.
    ValueOverflow,
}

// ---------------------------------------------------------------------------
// Step configuration records
// ---------------------------------------------------------------------------

/// Resamples a pixel image to a fixed target size with a fixed filter.
pub struct ResizeRGBImage {
    pub image_size: ImageSize,
    pub filter: ResizeFilter,
}

impl ResizeRGBImage {
    pub open spec fn wf(&self) -> bool {
        &&& self.image_size.wf()
        &&& self.image_size.width <= u32::MAX
        &&& self.image_size.height <= u32::MAX
        &&& 3 * self.image_size.width * self.image_size.height <= usize::MAX
    }
}

/// Per-channel normalization of a numeric array.  Offsets and divisors are
/// given in thousandths, so the published recipes are represented exactly.
/// With `zeroone` set the element is first brought to the `[0, 1]` range:
/// the value becomes `(v/255 - sub/1000) / (div/1000)`; without it the
/// element keeps its magnitude: `(v - sub/1000) / (div/1000)`.
pub struct Normalization {
    pub sub_milli: [u32; 3],
    pub div_milli: [u32; 3],
    pub zeroone: bool,
}

impl Normalization {
    pub open spec fn wf(&self) -> bool {
        forall|c: int| 0 <= c < 3 ==> self.div_milli@[c] > 0
    }

    /// Numerator offset per unit denominator for channel `c`.
    pub open spec fn b_of(&self, c: int) -> int {
        if self.zeroone {
            255 * (self.sub_milli@[c] as int)
        } else {
            self.sub_milli@[c] as int
        }
    }

    /// Denominator growth factor for channel `c`.
    pub open spec fn d_of(&self, c: int) -> int {
        if self.zeroone {
            255 * (self.div_milli@[c] as int)
        } else {
            self.div_milli@[c] as int
        }
    }
}

/// The numerators a normalization produces: element `d` of channel `c`
/// becomes `1000 * num - b_of(c) * den(c)` over denominator
/// `d_of(c) * den(c)`.
pub open spec fn norm_nums_spec(g: GridView, n: Normalization) -> Seq<int> {
    Seq::new(g.nums.len(), |d: int| 1000 * g.nums[d] - n.b_of(g.chan_of(d)) * g.dens[g.chan_of(d)])
}

/// The denominators a normalization produces.
pub open spec fn norm_dens_spec(g: GridView, n: Normalization) -> Seq<int> {
    Seq::new(3, |c: int| n.d_of(c) * g.dens[c])
}

/// Every numerator and denominator the normalization produces stays inside
/// the 64-bit range; only then can the result be represented.
pub open spec fn norm_fits(g: GridView, n: Normalization) -> bool {
    &&& forall|d: int|
        0 <= d < g.nums.len() ==> i64::MIN <= #[trigger] norm_nums_spec(g, n)[d] <= i64::MAX
    &&& forall|c: int| 0 <= c < 3 ==> #[trigger] norm_dens_spec(g, n)[c] <= i64::MAX
}

/// Permutes the four axes of a numeric array or of a tensor.
pub struct Transpose {
    pub axes: [usize; 4],
}

/// Coerces any IR variant into the engine's tensor.
pub struct ToTensor {}

/// Casts a pixel image into a numeric array, one float per sample, without
/// scaling.
pub struct ToArray {}

// ---------------------------------------------------------------------------
// Pixel image -> numeric array
// ---------------------------------------------------------------------------

/// The shape of the array a pixel image casts to: one batch, three
/// channels, then rows, then columns.
pub open spec fn chw_shape(width: usize, height: usize) -> Seq<usize> {
    seq![1usize, 3usize, height, width]
}

/// The numerators of the array a pixel image casts to: the element at
/// coordinates `(0, c, y, x)` is the sample of channel `c` at column `x` of
/// row `y`.
pub open spec fn pixels_to_nums(p: PixelsView) -> Seq<i64> {
    let shape = chw_shape(p.width, p.height);
    Seq::new(
        (3 * p.height * p.width) as nat,
        |d: int| p.sample(coord4(shape, d, 3), coord4(shape, d, 2), coord4(shape, d, 1)) as i64,
    )
}

/// The extent of each axis times the count of the remaining axes bounds the
/// sample index: a sample index built from in-range coordinates is itself in
/// range.
proof fn lemma_sample_index(w: int, h: int, x: int, y: int, c: int) by (nonlinear_arith)
    requires
        0 <= x < w,
        0 <= y < h,
        0 <= c < 3,
    ensures
        0 <= y * w + x < w * h,
        0 <= (y * w + x) * 3 + c < 3 * w * h,
{
}

/// Casts a pixel image to a numeric array: the same samples as exact
/// integers, batch and channel leading, denominators one.
pub fn pixels_to_array(p: &PixelImage) -> (r: NumericArray)
    requires
        p@.wf(),
    ensures
        r@.wf(),
        r@.shape == chw_shape(p.width, p.height),
        r@.chan_axis == 1,
        r@.nums == pixels_to_nums(p@),
        r@.dens == seq![1i64, 1i64, 1i64],
{
    let w = p.width;
    let h = p.height;
    let total = p.data.len();
    proof {
        assert(3 * (h as int) * (w as int) == 3 * (w as int) * (h as int)) by (nonlinear_arith);
    }
    let hw = total / 3;
    proof {
        assert(total as int == 3 * ((h as int) * (w as int)) && (h as int) * (w as int) >= 0)
            by (nonlinear_arith)
            requires
                total == 3 * (w as int) * (h as int),
        ;
        assert(hw as int == (h as int) * (w as int)) by {
            lemma_fundamental_div_mod_converse_div(
                total as int,
                3,
                (h as int) * (w as int),
                0,
            );
        }
    }
    let shape: [usize; 4] = [1, 3, h, w];
    let mut nums: Vec<i64> = Vec::new();
    let mut d: usize = 0;
    while d < total
        invariant
            p@.wf(),
            w == p.width,
            h == p.height,
            total == p.data.len(),
            total == 3 * (h as int) * (w as int),
            hw == (h as int) * (w as int),
            shape@ == chw_shape(w, h),
            d <= total,
            nums@.len() == d,
            forall|dd: int| 0 <= dd < d ==> nums@[dd] == pixels_to_nums(p@)[dd],
        decreases total - d,
    {
        proof {
            assert(size4(chw_shape(w, h)) == 3 * (h as int) * (w as int)) by (nonlinear_arith);
            lemma_coord4_flatten4(chw_shape(w, h), d as int);
            assert(h > 0 && w > 0);
            assert(hw > 0) by (nonlinear_arith)
                requires
                    hw as int == (h as int) * (w as int),
                    h > 0,
                    w > 0,
            ;
            assert(total as int == 3 * (hw as int)) by (nonlinear_arith)
                requires
                    total as int == 3 * (h as int) * (w as int),
                    hw as int == (h as int) * (w as int),
            ;
        }
        let x = d % w;
        let y = (d / w) % h;
        let c = d / hw;
        proof {
            assert(coord4(chw_shape(w, h), d as int, 3) == x as int);
            assert(coord4(chw_shape(w, h), d as int, 2) == y as int);
            assert((w as int) * (h as int) == hw as int) by (nonlinear_arith)
                requires
                    hw as int == (h as int) * (w as int),
            ;
            assert(coord4(chw_shape(w, h), d as int, 1) == (d as int) / (hw as int) % 3);
            assert(0 <= (d as int) / (hw as int) < 3) by {
                vstd::arithmetic::div_mod::lemma_fundamental_div_mod(d as int, hw as int);
                vstd::arithmetic::div_mod::lemma_mod_bound(d as int, hw as int);
                assert(0 <= (d as int) / (hw as int) < 3) by (nonlinear_arith)
                    requires
                        d as int == ((d as int) / (hw as int)) * (hw as int) + (d as int) % (
                        hw as int),
                        0 <= (d as int) % (hw as int) < hw as int,
                        0 <= (d as int) && (d as int) < 3 * (hw as int),
                        hw as int > 0,
                ;
            }
            vstd::arithmetic::div_mod::lemma_small_mod(((d as int) / (hw as int)) as nat, 3);
            lemma_sample_index(w as int, h as int, x as int, y as int, (d / hw) as int);
        }
        let cc = d / hw;
        let idx = (y * w + x) * 3 + cc;
        let v = p.data[idx];
        nums.push(v as i64);
        d = d + 1;
    }
    proof {
        assert(size4(chw_shape(w, h)) == 3 * (h as int) * (w as int)) by (nonlinear_arith);
        assert(nums@ =~= pixels_to_nums(p@));
    }
    NumericArray { shape, chan_axis: 1, nums, dens: [1, 1, 1] }
}

} // verus!

verus! {

// ---------------------------------------------------------------------------
// Normalization of a numeric array
// ---------------------------------------------------------------------------

/// Three bounded nonnegative factors stay far inside the 128-bit range.
proof fn lemma_mul3_bound(k: int, x: int, y: int) by (nonlinear_arith)
    requires
        0 <= k <= 255,
        0 <= x <= 0xffff_ffff,
        0 <= y <= 0x7fff_ffff_ffff_ffff,
    ensures
        0 <= k * x <= 255 * 0xffff_ffff,
        0 <= k * x * y <= 255 * 0xffff_ffff * 0x7fff_ffff_ffff_ffff,
{
}

/// The channel of the element at flat position `d` of an array with the
/// given shape and channel axis.
fn chan_coord(shape: &[usize; 4], chan_axis: usize, d: usize) -> (c: usize)
    requires
        chan_axis < 4,
        0 <= d < size4(shape@),
        size4(shape@) <= usize::MAX,
    ensures
        c as int == coord4(shape@, d as int, chan_axis as int),
        0 <= c < shape@[chan_axis as int],
{
    proof {
        lemma_coord4_flatten4(shape@, d as int);
        assert((shape@[3] as int) * (shape@[2] as int) <= size4(shape@) && (shape@[3] as int) * (
        shape@[2] as int) * (shape@[1] as int) <= size4(shape@) && (shape@[3] as int) * (
        shape@[2] as int) > 0 && (shape@[3] as int) * (shape@[2] as int) * (shape@[1] as int) > 0)
            by (nonlinear_arith)
            requires
                shape@.len() == 4,
                shape@[0] > 0,
                shape@[1] > 0,
                shape@[2] > 0,
                shape@[3] > 0,
                size4(shape@) == shape@[0] * shape@[1] * shape@[2] * shape@[3],
        ;
    }
    let s1 = shape[1];
    let s2 = shape[2];
    let s3 = shape[3];
    if chan_axis == 3 {
        d % s3
    } else if chan_axis == 2 {
        (d / s3) % s2
    } else if chan_axis == 1 {
        (d / (s3 * s2)) % s1
    } else {
        d / (s3 * s2 * s1)
    }
}

impl Normalization {
    /// Normalizes every element of the array, per channel, exactly: the
    /// element keeps the rational value the normalization formula gives it.
    /// Fails, changing nothing, exactly when some numerator or denominator
    /// leaves the 64-bit range.
    pub fn normalize_array(&self, a: &NumericArray) -> (r: Result<
        NumericArray,
        ConversionError,
    >)
        requires
            self.wf(),
            a@.wf(),
        ensures
            norm_fits(a@, *self) ==> (r matches Ok(out) && out@.wf() && out@.shape == a@.shape
                && out@.chan_axis == a@.chan_axis && out@.nums.len() == a@.nums.len() && (forall|
                d: int,
            |
                0 <= d < a@.nums.len() ==> (#[trigger] out@.nums[d]) as int == norm_nums_spec(
                    a@,
                    *self,
                )[d]) && (forall|c: int|
                0 <= c < 3 ==> (#[trigger] out@.dens[c]) as int == norm_dens_spec(a@, *self)[c])),
            !norm_fits(a@, *self) ==> r == Err::<NumericArray, ConversionError>(
                ConversionError::ValueOverflow,
            ),
    {
        let k: i128 = if self.zeroone {
            255
        } else {
            1
        };
        let mut dens: [i64; 3] = [0, 0, 0];
        let mut c: usize = 0;
        // Per-channel denominators first: they do not depend on the elements.
        proof {
            lemma_mul3_bound(k as int, self.div_milli@[0] as int, a@.dens[0] as int);
            lemma_mul3_bound(k as int, self.div_milli@[1] as int, a@.dens[1] as int);
            lemma_mul3_bound(k as int, self.div_milli@[2] as int, a@.dens[2] as int);
        }
        let d0 = k * (self.div_milli[0] as i128) * (a.dens[0] as i128);
        let d1 = k * (self.div_milli[1] as i128) * (a.dens[1] as i128);
        let d2 = k * (self.div_milli[2] as i128) * (a.dens[2] as i128);
        proof {
            assert(d0 == norm_dens_spec(a@, *self)[0] && d1 == norm_dens_spec(a@, *self)[1] && d2
                == norm_dens_spec(a@, *self)[2] && d0 > 0 && d1 > 0 && d2 > 0) by (nonlinear_arith)
                requires
                    d0 == (k as int) * (self.div_milli@[0] as int) * (a@.dens[0] as int),
                    d1 == (k as int) * (self.div_milli@[1] as int) * (a@.dens[1] as int),
                    d2 == (k as int) * (self.div_milli@[2] as int) * (a@.dens[2] as int),
                    norm_dens_spec(a@, *self)[0] == self.d_of(0) * a@.dens[0],
                    norm_dens_spec(a@, *self)[1] == self.d_of(1) * a@.dens[1],
                    norm_dens_spec(a@, *self)[2] == self.d_of(2) * a@.dens[2],
                    self.d_of(0) == (k as int) * (self.div_milli@[0] as int),
                    self.d_of(1) == (k as int) * (self.div_milli@[1] as int),
                    self.d_of(2) == (k as int) * (self.div_milli@[2] as int),
                    k == 255 || k == 1,
                    self.div_milli@[0] > 0,
                    self.div_milli@[1] > 0,
                    self.div_milli@[2] > 0,
                    a@.dens[0] > 0,
                    a@.dens[1] > 0,
                    a@.dens[2] > 0,
            ;
        }
        if d0 > i64::MAX as i128 || d1 > i64::MAX as i128 || d2 > i64::MAX as i128 {
            return Err(ConversionError::ValueOverflow);
        }
        let dens: [i64; 3] = [d0 as i64, d1 as i64, d2 as i64];
        let total = a.nums.len();
        let mut nums: Vec<i64> = Vec::new();
        let mut d: usize = 0;
        while d < total
            invariant
                self.wf(),
                a@.wf(),
                k as int == (if self.zeroone {
                    255int
                } else {
                    1int
                }),
                total == a@.nums.len(),
                d <= total,
                nums@.len() == d,
                forall|dd: int|
                    0 <= dd < d ==> (#[trigger] nums@[dd]) as int == norm_nums_spec(a@, *self)[dd],
                forall|dd: int|
                    0 <= dd < d ==> i64::MIN <= #[trigger] norm_nums_spec(a@, *self)[dd]
                        <= i64::MAX,
            decreases total - d,
        {
            let c = chan_coord(&a.shape, a.chan_axis, d);
            let num = a.nums[d];
            let den = a.dens[c];
            let sub = self.sub_milli[c];
            proof {
                lemma_mul3_bound(k as int, sub as int, den as int);
            }
            let b: i128 = k * (sub as i128);
            let v: i128 = 1000 * (num as i128) - b * (den as i128);
            proof {
                assert(v == norm_nums_spec(a@, *self)[d as int]);
            }
            if v < i64::MIN as i128 || v > i64::MAX as i128 {
                proof {
                    assert(!norm_fits(a@, *self));
                }
                return Err(ConversionError::ValueOverflow);
            }
            nums.push(v as i64);
            d = d + 1;
        }
        let out = NumericArray { shape: a.shape, chan_axis: a.chan_axis, nums, dens };
        proof {
            if norm_fits(a@, *self) {
                assert(out@.wf());
            }
            assert(forall|c: int| 0 <= c < 3 ==> (#[trigger] out@.dens[c]) as int == norm_dens_spec(
                a@,
                *self,
            )[c]);
        }
        Ok(out)
    }
}

} // verus!

verus! {

// ---------------------------------------------------------------------------
// Transposition of a numeric array
// ---------------------------------------------------------------------------

/// The position of axis `m` in a valid permutation.
fn find_axis(axes: &[usize; 4], m: usize) -> (r: usize)
    requires
        valid_perm4(axes@),
        m < 4,
    ensures
        r < 4,
        axes@[r as int] == m,
        perm_inv(axes@)[m as int] == r as int,
{
    proof {
        lemma_perm_inv(axes@, m as int);
    }
    if axes[0] == m {
        0
    } else if axes[1] == m {
        1
    } else if axes[2] == m {
        2
    } else {
        3
    }
}

/// Permuting the axes permutes the extents, so the element count does not
/// change.
pub proof fn lemma_size4_permuted(shape: Seq<usize>, axes: Seq<usize>)
    requires
        shape.len() == 4,
        valid_perm4(axes),
    ensures
        permuted_shape(shape, axes).len() == 4,
        size4(permuted_shape(shape, axes)) == size4(shape),
{
    let t = permuted_shape(shape, axes);
    let s0 = shape[0] as int;
    let s1 = shape[1] as int;
    let s2 = shape[2] as int;
    let s3 = shape[3] as int;
    let t0 = t[0] as int;
    let t1 = t[1] as int;
    let t2 = t[2] as int;
    let t3 = t[3] as int;
    let a0 = axes[0] as int;
    let a1 = axes[1] as int;
    let a2 = axes[2] as int;
    let a3 = axes[3] as int;
    if a0 == 0 && a1 == 1 && a2 == 2 && a3 == 3 {
        assert(t0 * t1 * t2 * t3 == s0 * s1 * s2 * s3) by (nonlinear_arith)
            requires
                t0 == s0,
                t1 == s1,
                t2 == s2,
                t3 == s3,
        ;
    } else if a0 == 0 && a1 == 1 && a2 == 3 && a3 == 2 {
        assert(t0 * t1 * t2 * t3 == s0 * s1 * s2 * s3) by (nonlinear_arith)
            requires
                t0 == s0,
                t1 == s1,
                t2 == s3,
                t3 == s2,
        ;
    } else if a0 == 0 && a1 == 2 && a2 == 1 && a3 == 3 {
        assert(t0 * t1 * t2 * t3 == s0 * s1 * s2 * s3) by (nonlinear_arith)
            requires
                t0 == s0,
                t1 == s2,
                t2 == s1,
                t3 == s3,
        ;
    } else if a0 == 0 && a1 == 2 && a2 == 3 && a3 == 1 {
        assert(t0 * t1 * t2 * t3 == s0 * s1 * s2 * s3) by (nonlinear_arith)
            requires
                t0 == s0,
                t1 == s2,
                t2 == s3,
                t3 == s1,
        ;
    } else if a0 == 0 && a1 == 3 && a2 == 1 && a3 == 2 {
        assert(t0 * t1 * t2 * t3 == s0 * s1 * s2 * s3) by (nonlinear_arith)
            requires
                t0 == s0,
                t1 == s3,
                t2 == s1,
                t3 == s2,
        ;
    } else if a0 == 0 && a1 == 3 && a2 == 2 && a3 == 1 {
        assert(t0 * t1 * t2 * t3 == s0 * s1 * s2 * s3) by (nonlinear_arith)
            requires
                t0 == s0,
                t1 == s3,
                t2 == s2,
                t3 == s1,
        ;
    } else if a0 == 1 && a1 == 0 && a2 == 2 && a3 == 3 {
        assert(t0 * t1 * t2 * t3 == s0 * s1 * s2 * s3) by (nonlinear_arith)
            requires
                t0 == s1,
                t1 == s0,
                t2 == s2,
                t3 == s3,
        ;
    } else if a0 == 1 && a1 == 0 && a2 == 3 && a3 == 2 {
        assert(t0 * t1 * t2 * t3 == s0 * s1 * s2 * s3) by (nonlinear_arith)
            requires
                t0 == s1,
                t1 == s0,
                t2 == s3,
                t3 == s2,
        ;
    } else if a0 == 1 && a1 == 2 && a2 == 0 && a3 == 3 {
        assert(t0 * t1 * t2 * t3 == s0 * s1 * s2 * s3) by (nonlinear_arith)
            requires
                t0 == s1,
                t1 == s2,
                t2 == s0,
                t3 == s3,
        ;
    } else if a0 == 1 && a1 == 2 && a2 == 3 && a3 == 0 {
        assert(t0 * t1 * t2 * t3 == s0 * s1 * s2 * s3) by (nonlinear_arith)
            requires
                t0 == s1,
                t1 == s2,
                t2 == s3,
                t3 == s0,
        ;
    } else if a0 == 1 && a1 == 3 && a2 == 0 && a3 == 2 {
        assert(t0 * t1 * t2 * t3 == s0 * s1 * s2 * s3) by (nonlinear_arith)
            requires
                t0 == s1,
                t1 == s3,
                t2 == s0,
                t3 == s2,
        ;
    } else if a0 == 1 && a1 == 3 && a2 == 2 && a3 == 0 {
        assert(t0 * t1 * t2 * t3 == s0 * s1 * s2 * s3) by (nonlinear_arith)
            requires
                t0 == s1,
                t1 == s3,
                t2 == s2,
                t3 == s0,
        ;
    } else if a0 == 2 && a1 == 0 && a2 == 1 && a3 == 3 {
        assert(t0 * t1 * t2 * t3 == s0 * s1 * s2 * s3) by (nonlinear_arith)
            requires
                t0 == s2,
                t1 == s0,
                t2 == s1,
                t3 == s3,
        ;
    } else if a0 == 2 && a1 == 0 && a2 == 3 && a3 == 1 {
        assert(t0 * t1 * t2 * t3 == s0 * s1 * s2 * s3) by (nonlinear_arith)
            requires
                t0 == s2,
                t1 == s0,
                t2 == s3,
                t3 == s1,
        ;
    } else if a0 == 2 && a1 == 1 && a2 == 0 && a3 == 3 {
        assert(t0 * t1 * t2 * t3 == s0 * s1 * s2 * s3) by (nonlinear_arith)
            requires
                t0 == s2,
                t1 == s1,
                t2 == s0,
                t3 == s3,
        ;
    } else if a0 == 2 && a1 == 1 && a2 == 3 && a3 == 0 {
        assert(t0 * t1 * t2 * t3 == s0 * s1 * s2 * s3) by (nonlinear_arith)
            requires
                t0 == s2,
                t1 == s1,
                t2 == s3,
                t3 == s0,
        ;
    } else if a0 == 2 && a1 == 3 && a2 == 0 && a3 == 1 {
        assert(t0 * t1 * t2 * t3 == s0 * s1 * s2 * s3) by (nonlinear_arith)
            requires
                t0 == s2,
                t1 == s3,
                t2 == s0,
                t3 == s1,
        ;
    } else if a0 == 2 && a1 == 3 && a2 == 1 && a3 == 0 {
        assert(t0 * t1 * t2 * t3 == s0 * s1 * s2 * s3) by (nonlinear_arith)
            requires
                t0 == s2,
                t1 == s3,
                t2 == s1,
                t3 == s0,
        ;
    } else if a0 == 3 && a1 == 0 && a2 == 1 && a3 == 2 {
        assert(t0 * t1 * t2 * t3 == s0 * s1 * s2 * s3) by (nonlinear_arith)
            requires
                t0 == s3,
                t1 == s0,
                t2 == s1,
                t3 == s2,
        ;
    } else if a0 == 3 && a1 == 0 && a2 == 2 && a3 == 1 {
        assert(t0 * t1 * t2 * t3 == s0 * s1 * s2 * s3) by (nonlinear_arith)
            requires
                t0 == s3,
                t1 == s0,
                t2 == s2,
                t3 == s1,
        ;
    } else if a0 == 3 && a1 == 1 && a2 == 0 && a3 == 2 {
        assert(t0 * t1 * t2 * t3 == s0 * s1 * s2 * s3) by (nonlinear_arith)
            requires
                t0 == s3,
                t1 == s1,
                t2 == s0,
                t3 == s2,
        ;
    } else if a0 == 3 && a1 == 1 && a2 == 2 && a3 == 0 {
        assert(t0 * t1 * t2 * t3 == s0 * s1 * s2 * s3) by (nonlinear_arith)
            requires
                t0 == s3,
                t1 == s1,
                t2 == s2,
                t3 == s0,
        ;
    } else if a0 == 3 && a1 == 2 && a2 == 0 && a3 == 1 {
        assert(t0 * t1 * t2 * t3 == s0 * s1 * s2 * s3) by (nonlinear_arith)
            requires
                t0 == s3,
                t1 == s2,
                t2 == s0,
                t3 == s1,
        ;
    } else if a0 == 3 && a1 == 2 && a2 == 1 && a3 == 0 {
        assert(t0 * t1 * t2 * t3 == s0 * s1 * s2 * s3) by (nonlinear_arith)
            requires
                t0 == s3,
                t1 == s2,
                t2 == s1,
                t3 == s0,
        ;
    } else {
        assert(false);
    }
}

/// Permutes the four axes of the array: axis `k` of the result is axis
/// `axes[k]` of the input, element by element, exactly.  The channel axis
/// moves with the permutation and the denominators are untouched.
pub fn transpose_array(axes: &[usize; 4], a: &NumericArray) -> (r: NumericArray)
    requires
        a@.wf(),
        valid_perm4(axes@),
    ensures
        r@.wf(),
        r@.shape == permuted_shape(a@.shape, axes@),
        r@.chan_axis as int == perm_inv(axes@)[a@.chan_axis as int],
        r@.nums == transpose_seq(a@.nums, a@.shape, axes@),
        r@.dens == a@.dens,
{
    let tshape: [usize; 4] = [a.shape[axes[0]], a.shape[axes[1]], a.shape[axes[2]], a.shape[axes[3]]];
    proof {
        assert(tshape@ =~= permuted_shape(a@.shape, axes@));
        lemma_size4_permuted(a@.shape, axes@);
    }
    let inv0 = find_axis(axes, 0);
    let inv1 = find_axis(axes, 1);
    let inv2 = find_axis(axes, 2);
    let inv3 = find_axis(axes, 3);
    let chan_axis = find_axis(axes, a.chan_axis);
    let total = a.nums.len();
    let mut nums: Vec<i64> = Vec::new();
    let mut d: usize = 0;
    while d < total
        invariant
            a@.wf(),
            valid_perm4(axes@),
            tshape@ == permuted_shape(a@.shape, axes@),
            size4(tshape@) == size4(a@.shape),
            total == a@.nums.len(),
            inv0 as int == perm_inv(axes@)[0] && axes@[inv0 as int] == 0,
            inv1 as int == perm_inv(axes@)[1] && axes@[inv1 as int] == 1,
            inv2 as int == perm_inv(axes@)[2] && axes@[inv2 as int] == 2,
            inv3 as int == perm_inv(axes@)[3] && axes@[inv3 as int] == 3,
            inv0 < 4 && inv1 < 4 && inv2 < 4 && inv3 < 4,
            d <= total,
            nums@.len() == d,
            forall|dd: int|
                0 <= dd < d ==> nums@[dd] == transpose_seq(a@.nums, a@.shape, axes@)[dd],
        decreases total - d,
    {
        let i0 = chan_coord(&tshape, inv0, d);
        let i1 = chan_coord(&tshape, inv1, d);
        let i2 = chan_coord(&tshape, inv2, d);
        let i3 = chan_coord(&tshape, inv3, d);
        proof {
            assert(tshape@[inv0 as int] == a@.shape[0]);
            assert(tshape@[inv1 as int] == a@.shape[1]);
            assert(tshape@[inv2 as int] == a@.shape[2]);
            assert(tshape@[inv3 as int] == a@.shape[3]);
            lemma_flatten4_coord4(a@.shape, i0 as int, i1 as int, i2 as int, i3 as int);
            assert((a@.shape[0] as int) * (a@.shape[1] as int) <= size4(a@.shape) && (
            a@.shape[0] as int) * (a@.shape[1] as int) * (a@.shape[2] as int) <= size4(a@.shape))
                by (nonlinear_arith)
                requires
                    a@.shape.len() == 4,
                    a@.shape[0] > 0,
                    a@.shape[1] > 0,
                    a@.shape[2] > 0,
                    a@.shape[3] > 0,
                    size4(a@.shape) == a@.shape[0] * a@.shape[1] * a@.shape[2] * a@.shape[3],
            ;
        }
        let s1 = a.shape[1];
        let s2 = a.shape[2];
        let s3 = a.shape[3];
        let src = ((i0 * s1 + i1) * s2 + i2) * s3 + i3;
        let v = a.nums[src];
        nums.push(v);
        proof {
            assert(transpose_seq(a@.nums, a@.shape, axes@)[d as int] == v);
        }
        d = d + 1;
    }
    let out = NumericArray { shape: tshape, chan_axis, nums, dens: a.dens };
    proof {
        assert(out@.nums =~= transpose_seq(a@.nums, a@.shape, axes@));
        assert(out@.shape[out@.chan_axis as int] == 3);
    }
    out
}

} // verus!

verus! {

// ---------------------------------------------------------------------------
// Laws of transposition
// ---------------------------------------------------------------------------

/// Transposing with the identity permutation changes neither the shape nor
/// any element of a four-dimensional array.
pub proof fn lemma_transpose_identity(nums: Seq<i64>, shape: Seq<usize>, axes: Seq<usize>)
    requires
        shape.len() == 4,
        nums.len() == size4(shape),
        axes.len() == 4,
        forall|k: int| 0 <= k < 4 ==> axes[k] == k,
    ensures
        permuted_shape(shape, axes) == shape,
        transpose_seq(nums, shape, axes) == nums,
{
    assert(valid_perm4(axes)) by {
        assert forall|m: int| 0 <= m < 4 implies #[trigger] perm_hits(axes, m) by {
            assert(axes[m] == m);
        }
    }
    assert forall|m: int| 0 <= m < 4 implies #[trigger] perm_inv(axes)[m] == m by {
        lemma_perm_inv(axes, m);
        assert(axes[m] == m);
    }
    let t = permuted_shape(shape, axes);
    assert(t =~= shape);
    assert forall|d: int| 0 <= d < size4(shape) implies #[trigger] transpose_seq(
        nums,
        shape,
        axes,
    )[d] == nums[d] by {
        lemma_coord4_flatten4(shape, d);
    }
    assert(transpose_seq(nums, shape, axes) =~= nums);
}

/// Transposing by a permutation and then by its inverse reproduces the
/// original shape and every element of the original array.
pub proof fn lemma_transpose_involution(
    nums: Seq<i64>,
    shape: Seq<usize>,
    axes: Seq<usize>,
    back: Seq<usize>,
)
    requires
        shape.len() == 4,
        nums.len() == size4(shape),
        valid_perm4(axes),
        valid_perm4(back),
        forall|m: int| 0 <= m < 4 ==> axes[#[trigger] back[m] as int] as int == m,
    ensures
        permuted_shape(permuted_shape(shape, axes), back) == shape,
        transpose_seq(transpose_seq(nums, shape, axes), permuted_shape(shape, axes), back)
            == nums,
{
    let t = permuted_shape(shape, axes);
    let u = permuted_shape(t, back);
    assert(u =~= shape);
    lemma_size4_permuted(shape, axes);
    // `back` is where each axis went, so it is the inverse permutation of
    // `axes`, and `axes` is in turn the inverse of `back`.
    assert forall|m: int| 0 <= m < 4 implies #[trigger] perm_inv(axes)[m] == back[m] by {
        lemma_perm_inv(axes, m);
    }
    assert forall|m: int| 0 <= m < 4 implies back[#[trigger] axes[m] as int] as int == m by {
        let mm = axes[m] as int;
        assert(0 <= mm < 4);
        assert(axes[back[mm] as int] as int == mm);
        if back[mm] as int != m {
            assert(false);
        }
    }
    assert forall|m: int| 0 <= m < 4 implies #[trigger] perm_inv(back)[m] == axes[m] by {
        lemma_perm_inv(back, m);
        assert(back[axes[m] as int] as int == m);
    }
    let first = transpose_seq(nums, shape, axes);
    let second = transpose_seq(first, t, back);
    assert(second.len() == nums.len()) by {
        lemma_size4_permuted(t, back);
        assert(size4(u) == size4(shape));
    }
    assert forall|e: int| 0 <= e < size4(shape) implies #[trigger] second[e] == nums[e] by {
        lemma_coord4_flatten4(shape, e);
        let j0 = coord4(shape, e, axes[0] as int);
        let j1 = coord4(shape, e, axes[1] as int);
        let j2 = coord4(shape, e, axes[2] as int);
        let j3 = coord4(shape, e, axes[3] as int);
        assert(t[0] == shape[axes[0] as int] && t[1] == shape[axes[1] as int]);
        assert(t[2] == shape[axes[2] as int] && t[3] == shape[axes[3] as int]);
        let f = flatten4(t, j0, j1, j2, j3);
        lemma_flatten4_coord4(t, j0, j1, j2, j3);
        assert(second[e] == first[f]) by {
            assert(coord4(u, e, perm_inv(back)[0]) == j0 && coord4(u, e, perm_inv(back)[1]) == j1
                && coord4(u, e, perm_inv(back)[2]) == j2 && coord4(u, e, perm_inv(back)[3]) == j3);
        }
        assert(first[f] == nums[e]) by {
            assert(coord4(t, f, perm_inv(axes)[0]) == coord4(shape, e, 0) && coord4(
                t,
                f,
                perm_inv(axes)[1],
            ) == coord4(shape, e, 1) && coord4(t, f, perm_inv(axes)[2]) == coord4(shape, e, 2)
                && coord4(t, f, perm_inv(axes)[3]) == coord4(shape, e, 3)) by {
                assert forall|m: int| 0 <= m < 4 implies coord4(t, f, #[trigger] perm_inv(axes)[m])
                    == coord4(shape, e, m) by {
                    assert(perm_inv(axes)[m] == back[m]);
                    assert(coord4(t, f, back[m] as int) == coord4(shape, e, axes[back[m] as int] as int));
                }
            }
            lemma_coord4_flatten4(shape, e);
        }
    }
    assert(second =~= nums);
}

} // verus!

use tract_onnx::prelude::{DatumType, Tensor};
use tract_onnx::tract_core::ops::binary::BinMiniOp;
use tract_onnx::tract_core::ops::math::Div;

verus! {

// ---------------------------------------------------------------------------
// IR payload: the engine's tensor
// ---------------------------------------------------------------------------

#[verifier::external_type_specification]
#[verifier::external_body]
pub struct ExTensor(Tensor);

/// The extents of an engine tensor's axes.
pub uninterp spec fn tensor_shape_of(t: Tensor) -> Seq<usize>;

/// Relies on tract's `Tensor::from_shape`, `Tensor::cast_to_dt` and the
/// broadcasting elementwise division `Div`: rendering builds an integer
/// tensor of the given shape from the numerators, an integer tensor of the
/// broadcast-compatible `den_shape` from the denominators, divides them as
/// 64-bit floats and casts the quotients to 32-bit floats, so the result
/// has exactly the requested shape and holds each numerator divided by its
/// channel's denominator.
#[verifier::external_body]
fn render_tensor(nums: &Vec<i64>, shape: &Vec<usize>, dens: &Vec<i64>, den_shape: &Vec<usize>) -> (r:
    Tensor)
    requires
        shape@.len() == 4,
        den_shape@.len() == 4,
        nums@.len() == size4(shape@),
        dens@.len() == size4(den_shape@),
        forall|k: int| 0 <= k < 4 ==> (den_shape@[k] == 1 || den_shape@[k] == shape@[k]),
    ensures
        tensor_shape_of(r) == shape@,
{
    let n = Tensor::from_shape(shape.as_slice(), nums.as_slice()).expect("shape matches data");
    let d = Tensor::from_shape(den_shape.as_slice(), dens.as_slice()).expect("shape matches data");
    let nf = n.cast_to_dt(DatumType::F64).expect("integer cast").into_owned();
    let df = d.cast_to_dt(DatumType::F64).expect("integer cast").into_owned();
    let q = Div.eval(nf.into(), df.into(), DatumType::F64).expect("broadcastable shapes");
    q.cast_to_dt(DatumType::F32).expect("float cast").into_owned()
}

/// Relies on tract's `Tensor::permute_axes`: axis `k` of the result is axis
/// `axes[k]` of the input, so the result's shape is the input's shape
/// permuted and the elements move with their coordinates.
#[verifier::external_body]
fn permute_tensor(t: Tensor, axes: &[usize; 4]) -> (r: Tensor)
    requires
        tensor_shape_of(t).len() == 4,
        valid_perm4(axes@),
    ensures
        tensor_shape_of(r) == permuted_shape(tensor_shape_of(t), axes@),
{
    t.permute_axes(&axes[..]).expect("a bijection over the axes applies")
}

/// The engine's tensor together with what the library knows of it: its
/// shape, which axis carries the channel, and the exact rationals its
/// floats were rendered from.
pub struct TensorData {
    /// Extents of the tensor's four axes.
    pub shape: Vec<usize>,
    /// Which axis carries the color channel.
    pub chan_axis: usize,
    /// The exact numerators the tensor's floats were rendered from.
    pub nums: Ghost<Seq<i64>>,
    /// The positive per-channel denominators under the numerators.
    pub dens: Ghost<Seq<i64>>,
    /// The engine's own buffer.
    pub data: Tensor,
}

impl View for TensorData {
    type V = GridView;

    open spec fn view(&self) -> GridView {
        GridView {
            shape: self.shape@,
            chan_axis: self.chan_axis,
            nums: self.nums@,
            dens: self.dens@,
        }
    }
}

impl TensorData {
    /// The bookkeeping is sound and the engine tensor really has the
    /// recorded shape.
    pub open spec fn wf(&self) -> bool {
        &&& self@.wf()
        &&& tensor_shape_of(self.data) == self.shape@
    }

    /// Hands the engine's tensor out, for the inference invocation.
    pub fn into_raw(self) -> (r: Tensor)
        ensures
            self.wf() ==> tensor_shape_of(r) == self.shape@,
    {
        self.data
    }
}

/// Renders a numeric array into the engine's tensor: same shape, and each
/// element's float is its numerator divided by its channel's denominator.
pub fn array_to_tensor(a: NumericArray) -> (t: TensorData)
    requires
        a@.wf(),
    ensures
        t.wf(),
        t@ == a@,
{
    let mut shape_v: Vec<usize> = Vec::new();
    shape_v.push(a.shape[0]);
    shape_v.push(a.shape[1]);
    shape_v.push(a.shape[2]);
    shape_v.push(a.shape[3]);
    let mut den_shape: Vec<usize> = Vec::new();
    let mut dens_v: Vec<i64> = Vec::new();
    let mut k: usize = 0;
    while k < 4
        invariant
            k <= 4,
            den_shape@.len() == k,
            a@.wf(),
            forall|kk: int|
                0 <= kk < k ==> #[trigger] den_shape@[kk] == (if kk == a.chan_axis as int {
                    3usize
                } else {
                    1usize
                }),
        decreases 4 - k,
    {
        if k == a.chan_axis {
            den_shape.push(3);
        } else {
            den_shape.push(1);
        }
        k = k + 1;
    }
    dens_v.push(a.dens[0]);
    dens_v.push(a.dens[1]);
    dens_v.push(a.dens[2]);
    proof {
        assert(shape_v@ =~= a@.shape);
        assert(size4(den_shape@) == 3) by {
            if a.chan_axis == 0 {
                assert(den_shape@[0] == 3 && den_shape@[1] == 1 && den_shape@[2] == 1
                    && den_shape@[3] == 1);
            } else if a.chan_axis == 1 {
                assert(den_shape@[0] == 1 && den_shape@[1] == 3 && den_shape@[2] == 1
                    && den_shape@[3] == 1);
            } else if a.chan_axis == 2 {
                assert(den_shape@[0] == 1 && den_shape@[1] == 1 && den_shape@[2] == 3
                    && den_shape@[3] == 1);
            } else {
                assert(den_shape@[0] == 1 && den_shape@[1] == 1 && den_shape@[2] == 1
                    && den_shape@[3] == 3);
            }
        }
        assert(forall|kk: int|
            0 <= kk < 4 ==> (den_shape@[kk] == 1 || den_shape@[kk] == shape_v@[kk]));
    }
    let data = render_tensor(&a.nums, &shape_v, &dens_v, &den_shape);
    let t = TensorData {
        shape: shape_v,
        chan_axis: a.chan_axis,
        nums: Ghost(a.nums@),
        dens: Ghost(a.dens@),
        data,
    };
    proof {
        assert(t@ =~= a@);
    }
    t
}

} // verus!

verus! {

// ---------------------------------------------------------------------------
// The intermediate representation
// ---------------------------------------------------------------------------

/// The value a pipeline threads from step to step: exactly one of the three
/// representations is active at a time.
pub enum ImageTransformResult {
    RgbImage(PixelImage),
    Array4(NumericArray),
    Tensor(TensorData),
}

/// The mathematical content of an IR value.
pub enum IrView {
    RgbImage(PixelsView),
    Array4(GridView),
    Tensor(GridView),
}

impl View for ImageTransformResult {
    type V = IrView;

    open spec fn view(&self) -> IrView {
        match self {
            ImageTransformResult::RgbImage(p) => IrView::RgbImage(p@),
            ImageTransformResult::Array4(a) => IrView::Array4(a@),
            ImageTransformResult::Tensor(t) => IrView::Tensor(t@),
        }
    }
}

impl ImageTransformResult {
    pub open spec fn wf(&self) -> bool {
        match self {
            ImageTransformResult::RgbImage(p) => p@.wf(),
            ImageTransformResult::Array4(a) => a@.wf(),
            ImageTransformResult::Tensor(t) => t.wf(),
        }
    }
}

/// Which variant an IR value is.
pub open spec fn ir_kind(v: IrView) -> IrKind {
    match v {
        IrView::RgbImage(_) => IrKind::RgbImage,
        IrView::Array4(_) => IrKind::Array4,
        IrView::Tensor(_) => IrKind::Tensor,
    }
}

impl From<PixelImage> for ImageTransformResult {
    fn from(rgb_image: PixelImage) -> (r: Self) {
        ImageTransformResult::RgbImage(rgb_image)
    }
}

impl vstd::std_specs::convert::FromSpecImpl<PixelImage> for ImageTransformResult {
    open spec fn obeys_from_spec() -> bool {
        true
    }

    open spec fn from_spec(p: PixelImage) -> Self {
        ImageTransformResult::RgbImage(p)
    }
}

impl From<TensorData> for ImageTransformResult {
    fn from(tensor: TensorData) -> (r: Self) {
        ImageTransformResult::Tensor(tensor)
    }
}

impl vstd::std_specs::convert::FromSpecImpl<TensorData> for ImageTransformResult {
    open spec fn obeys_from_spec() -> bool {
        true
    }

    open spec fn from_spec(t: TensorData) -> Self {
        ImageTransformResult::Tensor(t)
    }
}

// ---------------------------------------------------------------------------
// Resize
// ---------------------------------------------------------------------------

/// What `image::imageops::resize` produces from an RGB8 image of the given
/// dimensions at the given target dimensions; the result depends on these
/// arguments alone.
pub uninterp spec fn resized(
    pixels: Seq<u8>,
    w: int,
    h: int,
    tw: int,
    th: int,
    nearest: bool,
) -> Seq<u8>;

/// Relies on `image::imageops::resize` (with `ImageBuffer::from_raw` and
/// `into_raw` converting at the edges): the result is an RGB8 buffer of
/// exactly the target dimensions, and a resize to the unchanged dimensions
/// copies the samples verbatim.
#[verifier::external_body]
fn resize_rgb8(data: &Vec<u8>, w: usize, h: usize, tw: usize, th: usize, filter: ResizeFilter) -> (r:
    Vec<u8>)
    requires
        data@.len() == 3 * w * h,
        w <= u32::MAX as usize,
        h <= u32::MAX as usize,
        tw <= u32::MAX as usize,
        th <= u32::MAX as usize,
        tw > 0,
        th > 0,
        3 * tw * th <= usize::MAX,
    ensures
        r@.len() == 3 * tw * th,
        r@ == resized(data@, w as int, h as int, tw as int, th as int, filter
            == ResizeFilter::Nearest),
        (tw == w && th == h) ==> r@ == data@,
{
    let img: image::RgbImage = image::ImageBuffer::from_raw(w as u32, h as u32, data.clone())
        .expect("buffer holds width * height RGB pixels");
    let f = match filter {
        ResizeFilter::Nearest => image::imageops::FilterType::Nearest,
        ResizeFilter::Triangle => image::imageops::FilterType::Triangle,
    };
    image::imageops::resize(&img, tw as u32, th as u32, f).into_raw()
}

// ---------------------------------------------------------------------------
// What each step does, at the level of views
// ---------------------------------------------------------------------------

pub open spec fn resize_spec(st: ResizeRGBImage, v: IrView) -> Result<IrView, ConversionError> {
    match v {
        IrView::RgbImage(p) => Ok(
            IrView::RgbImage(
                PixelsView {
                    width: st.image_size.width,
                    height: st.image_size.height,
                    data: resized(
                        p.data,
                        p.width as int,
                        p.height as int,
                        st.image_size.width as int,
                        st.image_size.height as int,
                        st.filter == ResizeFilter::Nearest,
                    ),
                },
            ),
        ),
        _ => Err(
            ConversionError::UnsupportedVariant {
                expected: IrKind::RgbImage,
                actual: ir_kind(v),
                step: StepKind::Resize,
            },
        ),
    }
}

pub open spec fn to_array_spec(v: IrView) -> Result<IrView, ConversionError> {
    match v {
        IrView::RgbImage(p) => Ok(
            IrView::Array4(
                GridView {
                    shape: chw_shape(p.width, p.height),
                    chan_axis: 1,
                    nums: pixels_to_nums(p),
                    dens: seq![1i64, 1i64, 1i64],
                },
            ),
        ),
        _ => Err(
            ConversionError::UnsupportedVariant {
                expected: IrKind::RgbImage,
                actual: ir_kind(v),
                step: StepKind::ToArray,
            },
        ),
    }
}

/// The grid a normalization produces, when every value stays representable.
pub open spec fn norm_result_view(g: GridView, n: Normalization) -> GridView {
    GridView {
        shape: g.shape,
        chan_axis: g.chan_axis,
        nums: Seq::new(g.nums.len(), |d: int| norm_nums_spec(g, n)[d] as i64),
        dens: Seq::new(3, |c: int| norm_dens_spec(g, n)[c] as i64),
    }
}

pub open spec fn normalize_spec(n: Normalization, v: IrView) -> Result<IrView, ConversionError> {
    match v {
        IrView::Array4(g) => if norm_fits(g, n) {
            Ok(IrView::Array4(norm_result_view(g, n)))
        } else {
            Err(ConversionError::ValueOverflow)
        },
        _ => Err(
            ConversionError::UnsupportedVariant {
                expected: IrKind::Array4,
                actual: ir_kind(v),
                step: StepKind::Normalize,
            },
        ),
    }
}

/// The grid a transposition produces: shape and elements permuted, the
/// channel axis moved to its new position, denominators untouched.
pub open spec fn transpose_result_view(g: GridView, axes: Seq<usize>) -> GridView {
    GridView {
        shape: permuted_shape(g.shape, axes),
        chan_axis: perm_inv(axes)[g.chan_axis as int] as usize,
        nums: transpose_seq(g.nums, g.shape, axes),
        dens: g.dens,
    }
}

pub open spec fn transpose_spec(tr: Transpose, v: IrView) -> Result<IrView, ConversionError> {
    match v {
        IrView::Array4(g) => if valid_perm4(tr.axes@) {
            Ok(IrView::Array4(transpose_result_view(g, tr.axes@)))
        } else {
            Err(ConversionError::InvalidPermutation)
        },
        IrView::Tensor(g) => if valid_perm4(tr.axes@) {
            Ok(IrView::Tensor(transpose_result_view(g, tr.axes@)))
        } else {
            Err(ConversionError::InvalidPermutation)
        },
        IrView::RgbImage(_) => Err(
            ConversionError::UnsupportedVariant {
                expected: IrKind::Array4,
                actual: IrKind::RgbImage,
                step: StepKind::Transpose,
            },
        ),
    }
}

/// The final coercion: every IR variant can be read as the engine's tensor.
/// A pixel image becomes the batch-channel-row-column cast of its samples;
/// an array keeps its content; a tensor is already there.
pub open spec fn coerce_spec(v: IrView) -> GridView {
    match v {
        IrView::RgbImage(p) => GridView {
            shape: chw_shape(p.width, p.height),
            chan_axis: 1,
            nums: pixels_to_nums(p),
            dens: seq![1i64, 1i64, 1i64],
        },
        IrView::Array4(g) => g,
        IrView::Tensor(g) => g,
    }
}

pub open spec fn to_tensor_spec(v: IrView) -> Result<IrView, ConversionError> {
    Ok(IrView::Tensor(coerce_spec(v)))
}

} // verus!

verus! {

// ---------------------------------------------------------------------------
// The transform steps
// ---------------------------------------------------------------------------

/// An executable transform agrees with its view-level description: the same
/// success value, or exactly the same error.
pub open spec fn matches_spec(
    r: Result<ImageTransformResult, ConversionError>,
    s: Result<IrView, ConversionError>,
) -> bool {
    match r {
        Ok(out) => s matches Ok(v) && out@ == v,
        Err(e) => s matches Err(e2) && e == e2,
    }
}

impl ResizeRGBImage {
    /// Resamples a pixel image to the configured size with the configured
    /// filter; rejects the other IR variants.  Resampling to the unchanged
    /// size preserves every sample exactly.
    pub fn transform(&self, input: ImageTransformResult) -> (r: Result<
        ImageTransformResult,
        ConversionError,
    >)
        requires
            self.wf(),
            input.wf(),
        ensures
            matches_spec(r, resize_spec(*self, input@)),
            r matches Ok(out) ==> out.wf(),
            (input matches ImageTransformResult::RgbImage(p) && p.width == self.image_size.width
                && p.height == self.image_size.height) ==> (r matches Ok(out) && out@ == input@),
    {
        match input {
            ImageTransformResult::RgbImage(p) => {
                let data = resize_rgb8(
                    &p.data,
                    p.width,
                    p.height,
                    self.image_size.width,
                    self.image_size.height,
                    self.filter,
                );
                let out = PixelImage {
                    width: self.image_size.width,
                    height: self.image_size.height,
                    data,
                };
                Ok(ImageTransformResult::RgbImage(out))
            },
            ImageTransformResult::Array4(_) => Err(
                ConversionError::UnsupportedVariant {
                    expected: IrKind::RgbImage,
                    actual: IrKind::Array4,
                    step: StepKind::Resize,
                },
            ),
            ImageTransformResult::Tensor(_) => Err(
                ConversionError::UnsupportedVariant {
                    expected: IrKind::RgbImage,
                    actual: IrKind::Tensor,
                    step: StepKind::Resize,
                },
            ),
        }
    }
}

impl ToArray {
    /// Casts a pixel image to a numeric array, sample for sample, without
    /// scaling; rejects the other IR variants.
    pub fn transform(&self, input: ImageTransformResult) -> (r: Result<
        ImageTransformResult,
        ConversionError,
    >)
        requires
            input.wf(),
        ensures
            matches_spec(r, to_array_spec(input@)),
            r matches Ok(out) ==> out.wf(),
    {
        match input {
            ImageTransformResult::RgbImage(p) => Ok(
                ImageTransformResult::Array4(pixels_to_array(&p)),
            ),
            ImageTransformResult::Array4(_) => Err(
                ConversionError::UnsupportedVariant {
                    expected: IrKind::RgbImage,
                    actual: IrKind::Array4,
                    step: StepKind::ToArray,
                },
            ),
            ImageTransformResult::Tensor(_) => Err(
                ConversionError::UnsupportedVariant {
                    expected: IrKind::RgbImage,
                    actual: IrKind::Tensor,
                    step: StepKind::ToArray,
                },
            ),
        }
    }
}

impl Normalization {
    /// Normalizes a numeric array per channel, exactly; rejects the other
    /// IR variants, and fails without change when a value leaves the range
    /// in which elements stay exact.
    pub fn transform(&self, input: ImageTransformResult) -> (r: Result<
        ImageTransformResult,
        ConversionError,
    >)
        requires
            self.wf(),
            input.wf(),
        ensures
            matches_spec(r, normalize_spec(*self, input@)),
            r matches Ok(out) ==> out.wf(),
    {
        match input {
            ImageTransformResult::Array4(a) => {
                match self.normalize_array(&a) {
                    Ok(out) => {
                        proof {
                            if norm_fits(a@, *self) {
                                assert(out@.nums =~= norm_result_view(a@, *self).nums);
                                assert(out@.dens =~= norm_result_view(a@, *self).dens);
                                assert(out@.shape =~= norm_result_view(a@, *self).shape);
                            }
                        }
                        Ok(ImageTransformResult::Array4(out))
                    },
                    Err(e) => Err(e),
                }
            },
            ImageTransformResult::RgbImage(_) => Err(
                ConversionError::UnsupportedVariant {
                    expected: IrKind::Array4,
                    actual: IrKind::RgbImage,
                    step: StepKind::Normalize,
                },
            ),
            ImageTransformResult::Tensor(_) => Err(
                ConversionError::UnsupportedVariant {
                    expected: IrKind::Array4,
                    actual: IrKind::Tensor,
                    step: StepKind::Normalize,
                },
            ),
        }
    }
}

impl Transpose {
    /// Permutes the four axes of a numeric array or of a tensor; rejects a
    /// pixel image, and fails when the axes are not a bijection.
    pub fn transform(&self, input: ImageTransformResult) -> (r: Result<
        ImageTransformResult,
        ConversionError,
    >)
        requires
            input.wf(),
        ensures
            matches_spec(r, transpose_spec(*self, input@)),
            r matches Ok(out) ==> out.wf(),
    {
        match input {
            ImageTransformResult::Array4(a) => {
                if check_perm4(&self.axes) {
                    let out = transpose_array(&self.axes, &a);
                    proof {
                        lemma_perm_inv(self.axes@, a@.chan_axis as int);
                    }
                    Ok(ImageTransformResult::Array4(out))
                } else {
                    Err(ConversionError::InvalidPermutation)
                }
            },
            ImageTransformResult::Tensor(t) => {
                if check_perm4(&self.axes) {
                    let TensorData { shape, chan_axis, nums, dens, data } = t;
                    proof {
                        lemma_size4_permuted(shape@, self.axes@);
                        lemma_perm_inv(self.axes@, chan_axis as int);
                    }
                    let new_data = permute_tensor(data, &self.axes);
                    let mut new_shape: Vec<usize> = Vec::new();
                    new_shape.push(shape[self.axes[0]]);
                    new_shape.push(shape[self.axes[1]]);
                    new_shape.push(shape[self.axes[2]]);
                    new_shape.push(shape[self.axes[3]]);
                    let new_chan = find_axis(&self.axes, chan_axis);
                    let out = TensorData {
                        shape: new_shape,
                        chan_axis: new_chan,
                        nums: Ghost(transpose_seq(nums@, shape@, self.axes@)),
                        dens,
                        data: new_data,
                    };
                    proof {
                        assert(new_shape@ =~= permuted_shape(shape@, self.axes@));
                        assert(out@.shape[out@.chan_axis as int] == 3);
                    }
                    Ok(ImageTransformResult::Tensor(out))
                } else {
                    Err(ConversionError::InvalidPermutation)
                }
            },
            ImageTransformResult::RgbImage(_) => Err(
                ConversionError::UnsupportedVariant {
                    expected: IrKind::Array4,
                    actual: IrKind::RgbImage,
                    step: StepKind::Transpose,
                },
            ),
        }
    }
}

impl ToTensor {
    /// Coerces any IR variant into the engine's tensor; a tensor passes
    /// through unchanged.
    pub fn transform(&self, input: ImageTransformResult) -> (r: Result<
        ImageTransformResult,
        ConversionError,
    >)
        requires
            input.wf(),
        ensures
            matches_spec(r, to_tensor_spec(input@)),
            r matches Ok(out) ==> out.wf(),
    {
        Ok(ImageTransformResult::Tensor(coerce_to_tensor(input)))
    }
}

/// The trailing coercion of every pipeline run: reads the final IR value as
/// the engine's tensor.  Every variant of the closed IR union can be read
/// so, hence no failure path is left here.
pub fn coerce_to_tensor(cur: ImageTransformResult) -> (t: TensorData)
    requires
        cur.wf(),
    ensures
        t.wf(),
        t@ == coerce_spec(cur@),
{
    match cur {
        ImageTransformResult::RgbImage(p) => array_to_tensor(pixels_to_array(&p)),
        ImageTransformResult::Array4(a) => array_to_tensor(a),
        ImageTransformResult::Tensor(t) => t,
    }
}

// ---------------------------------------------------------------------------
// The pipeline
// ---------------------------------------------------------------------------

/// One unit of the pipeline: the closed union of the five step records, so
/// that adding a representation or a step forces every match in the crate
/// to be revisited.
pub enum TransformStep {
    Resize(ResizeRGBImage),
    ToArray(ToArray),
    Normalize(Normalization),
    ToTensor(ToTensor),
    Transpose(Transpose),
}

pub open spec fn step_spec(step: TransformStep, v: IrView) -> Result<IrView, ConversionError> {
    match step {
        TransformStep::Resize(st) => resize_spec(st, v),
        TransformStep::ToArray(_) => to_array_spec(v),
        TransformStep::Normalize(n) => normalize_spec(n, v),
        TransformStep::ToTensor(_) => to_tensor_spec(v),
        TransformStep::Transpose(tr) => transpose_spec(tr, v),
    }
}

impl TransformStep {
    pub open spec fn wf(&self) -> bool {
        match self {
            TransformStep::Resize(st) => st.wf(),
            TransformStep::Normalize(n) => n.wf(),
            _ => true,
        }
    }

    /// Applies the step to one IR value.
    pub fn transform(&self, input: ImageTransformResult) -> (r: Result<
        ImageTransformResult,
        ConversionError,
    >)
        requires
            self.wf(),
            input.wf(),
        ensures
            matches_spec(r, step_spec(*self, input@)),
            r matches Ok(out) ==> out.wf(),
    {
        match self {
            TransformStep::Resize(st) => st.transform(input),
            TransformStep::ToArray(st) => st.transform(input),
            TransformStep::Normalize(st) => st.transform(input),
            TransformStep::ToTensor(st) => st.transform(input),
            TransformStep::Transpose(st) => st.transform(input),
        }
    }
}

/// An ordered sequence of transform steps, owned exclusively, built once at
/// catalog construction and never mutated.
pub struct TransformationPipeline {
    pub steps: Vec<TransformStep>,
}

impl TransformationPipeline {
    pub open spec fn wf(&self) -> bool {
        forall|i: int| 0 <= i < self.steps@.len() ==> (#[trigger] self.steps@[i]).wf()
    }
}

/// What running the declared steps leaves, threading the IR value left to
/// right and stopping at the first failing step.
pub open spec fn run_steps_spec(steps: Seq<TransformStep>, v: IrView) -> Result<
    IrView,
    ConversionError,
>
    decreases steps.len(),
{
    if steps.len() == 0 {
        Ok(v)
    } else {
        match step_spec(steps[0], v) {
            Ok(v2) => run_steps_spec(steps.drop_first(), v2),
            Err(e) => Err(e),
        }
    }
}

/// What a whole pipeline run returns for a pixel image: the declared steps
/// in order, then the trailing coercion to the engine's tensor.
pub open spec fn pipeline_run_spec(steps: Seq<TransformStep>, p: PixelsView) -> Result<
    GridView,
    ConversionError,
> {
    match run_steps_spec(steps, IrView::RgbImage(p)) {
        Ok(v) => Ok(coerce_spec(v)),
        Err(e) => Err(e),
    }
}

/// Runs the pipeline on a decoded image: executes the steps strictly in
/// order, surfaces the first failing step's error untouched, and coerces
/// the final value to the engine's tensor.
pub fn run_pipeline(pipeline: &TransformationPipeline, image: PixelImage) -> (r: Result<
    TensorData,
    ConversionError,
>)
    requires
        pipeline.wf(),
        image@.wf(),
    ensures
        r matches Ok(t) ==> (t.wf() && (pipeline_run_spec(pipeline.steps@, image@) matches Ok(g)
            && t@ == g)),
        r matches Err(e) ==> (pipeline_run_spec(pipeline.steps@, image@) matches Err(e2) && e
            == e2),
{
    let ghost orig = image@;
    let mut cur = ImageTransformResult::RgbImage(image);
    let n = pipeline.steps.len();
    let mut i: usize = 0;
    proof {
        assert(pipeline.steps@.skip(0) =~= pipeline.steps@);
    }
    while i < n
        invariant
            pipeline.wf(),
            orig == image@,
            n == pipeline.steps@.len(),
            i <= n,
            cur.wf(),
            run_steps_spec(pipeline.steps@, IrView::RgbImage(orig)) == run_steps_spec(
                pipeline.steps@.skip(i as int),
                cur@,
            ),
        decreases n - i,
    {
        proof {
            assert(pipeline.steps@.skip(i as int)[0] == pipeline.steps@[i as int]);
            assert(pipeline.steps@.skip(i as int).drop_first() =~= pipeline.steps@.skip(
                i as int + 1,
            ));
        }
        let step = &pipeline.steps[i];
        let ghost prev = cur@;
        match step.transform(cur) {
            Ok(next) => {
                cur = next;
            },
            Err(e) => {
                proof {
                    assert(run_steps_spec(pipeline.steps@.skip(i as int), prev)
                        == Err::<IrView, ConversionError>(e));
                    assert(run_steps_spec(pipeline.steps@, IrView::RgbImage(orig))
                        == Err::<IrView, ConversionError>(e));
                    assert(pipeline_run_spec(pipeline.steps@, orig) == Err::<
                        GridView,
                        ConversionError,
                    >(e));
                }
                return Err(e);
            },
        }
        i = i + 1;
    }
    proof {
        assert(pipeline.steps@.skip(n as int) =~= Seq::<TransformStep>::empty());
    }
    Ok(coerce_to_tensor(cur))
}

} // verus!

verus! {

// ---------------------------------------------------------------------------
// Static composability of a pipeline
// ---------------------------------------------------------------------------

/// Which IR variants a step consumes.
pub open spec fn step_accepts(step: TransformStep, k: IrKind) -> bool {
    match step {
        TransformStep::Resize(_) => k == IrKind::RgbImage,
        TransformStep::ToArray(_) => k == IrKind::RgbImage,
        TransformStep::Normalize(_) => k == IrKind::Array4,
        TransformStep::ToTensor(_) => true,
        TransformStep::Transpose(_) => k == IrKind::Array4 || k == IrKind::Tensor,
    }
}

/// Which IR variant a step produces from an accepted one.
pub open spec fn step_out_kind(step: TransformStep, k: IrKind) -> IrKind {
    match step {
        TransformStep::Resize(_) => IrKind::RgbImage,
        TransformStep::ToArray(_) => IrKind::Array4,
        TransformStep::Normalize(_) => IrKind::Array4,
        TransformStep::ToTensor(_) => IrKind::Tensor,
        TransformStep::Transpose(_) => k,
    }
}

/// The declared steps chain: starting from variant `k`, every step accepts
/// what the step before it produces.  The trailing coercion to the
/// engine's tensor accepts every variant, so a chaining pipeline never
/// reports a variant mismatch.
pub open spec fn chain_from(steps: Seq<TransformStep>, k: IrKind) -> bool
    decreases steps.len(),
{
    steps.len() == 0 || (step_accepts(steps[0], k) && chain_from(
        steps.drop_first(),
        step_out_kind(steps[0], k),
    ))
}

// ---------------------------------------------------------------------------
// A law of normalization
// ---------------------------------------------------------------------------

/// Every element of a cast pixel grid is a sample value: numerators stay
/// in the 8-bit range.
pub proof fn lemma_pixel_nums_bounded(p: PixelsView)
    ensures
        forall|d: int| 0 <= d < pixels_to_nums(p).len() ==> 0 <= #[trigger] pixels_to_nums(p)[d]
            <= 255,
{
}

/// On a raw array — sample-range numerators over denominators of one — a
/// normalization with parameters in the published range can never leave
/// the exact 64-bit range, so it always succeeds.
pub proof fn lemma_norm_fits_for_pixels(g: GridView, n: Normalization)
    requires
        g.wf(),
        n.wf(),
        forall|d: int| 0 <= d < g.nums.len() ==> 0 <= #[trigger] g.nums[d] <= 255,
        forall|c: int| 0 <= c < 3 ==> #[trigger] g.dens[c] == 1,
        forall|c: int| 0 <= c < 3 ==> #[trigger] n.sub_milli@[c] <= 1000000,
        forall|c: int| 0 <= c < 3 ==> #[trigger] n.div_milli@[c] <= 1000000,
    ensures
        norm_fits(g, n),
{
    assert forall|d: int| 0 <= d < g.nums.len() implies i64::MIN <= #[trigger] norm_nums_spec(
        g,
        n,
    )[d] <= i64::MAX by {
        lemma_coord4_flatten4(g.shape, d);
        let c = g.chan_of(d);
        assert(0 <= n.b_of(c) <= 255000000);
        assert(norm_nums_spec(g, n)[d] == 1000 * g.nums[d] - n.b_of(c) * g.dens[c]);
    }
    assert forall|c: int| 0 <= c < 3 implies #[trigger] norm_dens_spec(g, n)[c] <= i64::MAX by {
        assert(0 < n.d_of(c) <= 255000000);
    }
}

/// Mean/standard-deviation normalization with mean zero and standard
/// deviation one only divides by 255: on a raw array (all denominators
/// one), each produced element equals the raw value over 255, as an exact
/// rational — new numerator times 255 equals the raw numerator times the
/// new denominator.
pub proof fn lemma_meanstd_unit_divides_by_255(g: GridView, n: Normalization, d: int)
    requires
        g.wf(),
        n.zeroone,
        forall|c: int| 0 <= c < 3 ==> #[trigger] n.sub_milli@[c] == 0,
        forall|c: int| 0 <= c < 3 ==> #[trigger] n.div_milli@[c] == 1000,
        forall|c: int| 0 <= c < 3 ==> #[trigger] g.dens[c] == 1,
        0 <= d < g.nums.len(),
    ensures
        norm_dens_spec(g, n)[g.chan_of(d)] == 255000,
        norm_nums_spec(g, n)[d] * 255 == g.nums[d] * norm_dens_spec(g, n)[g.chan_of(d)],
{
    let c = g.chan_of(d);
    lemma_coord4_flatten4(g.shape, d);
    assert(0 <= c < 3);
    assert(n.b_of(c) == 0);
    assert(n.d_of(c) == 255000);
    assert(norm_nums_spec(g, n)[d] == 1000 * g.nums[d]);
    assert(norm_dens_spec(g, n)[c] == 255000);
}

} // verus!
