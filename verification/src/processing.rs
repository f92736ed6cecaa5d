//! The filter chain: stateless grayscale-to-grayscale transforms applied
//! before quantization (tile path) or before edge detection (edge path).
//!
//! Each transform is a tagged variant holding its parameters; a chain is an
//! ordered `Vec<Filter>` and may be empty. Gaussian smoothing is
//! floating-point work and happens outside this crate, so fractional
//! parameters are carried in milli-units (1000 = 1.0) and each filter
//! declares, through [`Filter::blur_need`], which blurred companion images
//! the caller must hand to [`Filter::apply`]. Everything after the blurs —
//! thresholding, the difference of Gaussians, the unsharp combination — is
//! computed here in exact integer arithmetic.

use vstd::prelude::*;

use crate::error::ConvertError;
use crate::grid::Grid;

verus! {

/// Median smoothing over a square window with the given radius.
#[derive(Clone, Copy, Debug, PartialEq, Eq, Structural)]
pub struct MedianBlur {
    pub kernel_size: u32,
}

impl MedianBlur {
    /// The built-in radius.
    pub fn default() -> (f: MedianBlur)
        ensures
            f.kernel_size == 2,
    {
        MedianBlur { kernel_size: 2 }
    }

    /// A median filter with the given window radius.
    pub fn new(kernel_size: u32) -> (f: MedianBlur)
        ensures
            f.kernel_size == kernel_size,
    {
        MedianBlur { kernel_size }
    }
}

/// To-zero thresholding used to suppress weak gradients.
#[derive(Clone, Copy, Debug, PartialEq, Eq, Structural)]
pub struct Threshold {
    pub threshold: u8,
}

impl Threshold {
    /// A threshold filter with the given cut-off.
    pub fn new(threshold: u8) -> (f: Threshold)
        ensures
            f.threshold == threshold,
    {
        Threshold { threshold }
    }

    /// The built-in cut-off.
    pub fn default() -> (f: Threshold)
        ensures
            f.threshold == 10,
    {
        Threshold { threshold: 10 }
    }
}

/// Sharpening by a 3×3 approximation to the Laplacian.
#[derive(Clone, Copy, Debug, PartialEq, Eq, Structural)]
pub struct Sharpen3x3 {}

impl Sharpen3x3 {
    /// A 3×3 sharpening filter.
    pub fn new() -> (f: Sharpen3x3) {
        Sharpen3x3 {  }
    }
}

/// Difference of Gaussians: the band-pass image `blur(sigma_2) -
/// blur(sigma_1)`, clamped to `[0, 255]`. Both sigmas are in milli-units.
#[derive(Clone, Copy, Debug, PartialEq, Eq, Structural)]
pub struct DoG {
    pub sigma_1_milli: u32,
    pub sigma_2_milli: u32,
}

impl DoG {
    /// The built-in sigmas, 1.0 and 3.5.
    pub fn default() -> (f: DoG)
        ensures
            f.sigma_1_milli == 1000,
            f.sigma_2_milli == 3500,
    {
        DoG { sigma_1_milli: 1000, sigma_2_milli: 3500 }
    }

    /// A difference-of-Gaussians filter with the given sigmas in milli-units;
    /// the first sigma must be the narrower one.
    pub fn new(sigma_1_milli: u32, sigma_2_milli: u32) -> (f: DoG)
        requires
            sigma_1_milli < sigma_2_milli,
        ensures
            f.sigma_1_milli == sigma_1_milli,
            f.sigma_2_milli == sigma_2_milli,
    {
        DoG { sigma_1_milli, sigma_2_milli }
    }
}

/// Gaussian unsharp masking: adds `amount` times the difference between the
/// image and its Gaussian blur back to the image, clamped to `[0, 255]`.
/// Sigma and amount are in milli-units.
#[derive(Clone, Copy, Debug, PartialEq, Eq, Structural)]
pub struct SharpenGaussian {
    pub sigma_milli: u32,
    pub amount_milli: u32,
}

impl SharpenGaussian {
    /// The built-in sigma and amount, both 1.0.
    pub fn default() -> (f: SharpenGaussian)
        ensures
            f.sigma_milli == 1000,
            f.amount_milli == 1000,
    {
        SharpenGaussian { sigma_milli: 1000, amount_milli: 1000 }
    }

    /// An unsharp mask with the given sigma and amount in milli-units.
    pub fn new(sigma_milli: u32, amount_milli: u32) -> (f: SharpenGaussian)
        ensures
            f.sigma_milli == sigma_milli,
            f.amount_milli == amount_milli,
    {
        SharpenGaussian { sigma_milli, amount_milli }
    }
}

/// Edge-preserving smoothing weighting neighbours by spatial and intensity
/// distance. Its arithmetic is floating-point through and through, so the
/// filtered image itself is computed outside this crate and only passed
/// through a shape check here. Sigmas are in milli-units.
#[derive(Clone, Copy, Debug, PartialEq, Eq, Structural)]
pub struct BilateralFilter {
    pub window_size: u32,
    pub sigma_color_milli: u32,
    pub sigma_spatial_milli: u32,
}

impl BilateralFilter {
    /// The built-in window and sigmas, 10, 2.0 and 5.0.
    pub fn default() -> (f: BilateralFilter)
        ensures
            f.window_size == 10,
            f.sigma_color_milli == 2000,
            f.sigma_spatial_milli == 5000,
    {
        BilateralFilter { window_size: 10, sigma_color_milli: 2000, sigma_spatial_milli: 5000 }
    }

    /// A bilateral filter with the given window and sigmas in milli-units.
    pub fn new(window_size: u32, sigma_color_milli: u32, sigma_spatial_milli: u32) -> (f:
        BilateralFilter)
        ensures
            f.window_size == window_size,
            f.sigma_color_milli == sigma_color_milli,
            f.sigma_spatial_milli == sigma_spatial_milli,
    {
        BilateralFilter { window_size, sigma_color_milli, sigma_spatial_milli }
    }
}

/// To-zero thresholding of one pixel: values at or below the cut-off are
/// zeroed, values above it are kept. This is the "to-zero, inverted"
/// convention; of the two readings the design allows, this one suppresses
/// weak pixels and keeps strong ones.
pub open spec fn threshold_spec(v: u8, t: u8) -> u8 {
    if v > t {
        v
    } else {
        0
    }
}

/// One pixel of the difference of Gaussians: the wide blur minus the narrow
/// blur, clamped below at 0 (it can never exceed 255).
pub open spec fn dog_spec(narrow: u8, wide: u8) -> u8 {
    if wide >= narrow {
        (wide - narrow) as u8
    } else {
        0
    }
}

/// One pixel of the unsharp combination: the original plus `amount_milli /
/// 1000` times its distance from the blur, moved away from the blur and
/// clamped to `[0, 255]`. All divisions round toward zero.
pub open spec fn unsharp_spec(o: int, b: int, amount_milli: int) -> int {
    if o >= b {
        let boost = (amount_milli * (o - b)) / 1000;
        if o + boost > 255 {
            255
        } else {
            o + boost
        }
    } else {
        let cut = (amount_milli * (b - o)) / 1000;
        if o - cut < 0 {
            0
        } else {
            o - cut
        }
    }
}

/// What `imageproc::filter::median_filter` returns for a grayscale image of
/// the given shape and window radius: a function of its arguments alone.
pub uninterp spec fn median_of(rows: int, cols: int, pixels: Seq<u8>, radius: int) -> Seq<u8>;

/// What `imageproc::filter::sharpen3x3` returns for a grayscale image of the
/// given shape: a function of the pixels alone.
pub uninterp spec fn sharpen3x3_of(rows: int, cols: int, pixels: Seq<u8>) -> Seq<u8>;

/// Relies on `imageproc::filter::median_filter`: replaces each pixel with the
/// median of its clamped square neighbourhood, returning one pixel per input
/// pixel. The result depends on the arguments alone; it is named `median_of`
/// here. Every window of a uniform image holds only the one value, whose
/// median it is, so a uniform image comes back unchanged. The function panics
/// when a dimension plus the radius passes `i32::MAX`, and its median scan
/// doubles a cumulative histogram count in `u32` — a count that can reach the
/// kernel area `(2 * radius + 1)^2` — which overflows once the radius passes
/// 23169; all such inputs are excluded.
#[verifier::external_body]
fn median_filter_w(buf: &Grid<u8>, radius: u32) -> (r: Grid<u8>)
    requires
        buf.wf(),
        radius <= 23169,
        buf.rows + radius <= 0x7FFF_FFFF,
        buf.cols + radius <= 0x7FFF_FFFF,
    ensures
        r.wf(),
        r.rows == buf.rows,
        r.cols == buf.cols,
        r.data@ == median_of(buf.rows as int, buf.cols as int, buf.data@, radius as int),
        (forall|m: int| 0 <= m < buf.data.len() ==> #[trigger] buf.data[m] == buf.data[0])
            ==> r.data@ == buf.data@,
{
    let img = image::GrayImage::from_raw(buf.cols as u32, buf.rows as u32, buf.data.clone())
        .unwrap();
    let out = imageproc::filter::median_filter(&img, radius, radius);
    Grid { rows: buf.rows, cols: buf.cols, data: out.into_raw() }
}

/// Relies on `imageproc::filter::sharpen3x3`: correlates the image with the
/// 3×3 identity-minus-Laplacian kernel, clamping coordinates at the borders
/// and values to `[0, 255]`. The result depends on the pixels alone; it is
/// named `sharpen3x3_of` here.
#[verifier::external_body]
fn sharpen3x3_w(buf: &Grid<u8>) -> (r: Grid<u8>)
    requires
        buf.wf(),
        buf.rows <= u32::MAX,
        buf.cols <= u32::MAX,
    ensures
        r.wf(),
        r.rows == buf.rows,
        r.cols == buf.cols,
        r.data@ == sharpen3x3_of(buf.rows as int, buf.cols as int, buf.data@),
{
    let img = image::GrayImage::from_raw(buf.cols as u32, buf.rows as u32, buf.data.clone())
        .unwrap();
    let out = imageproc::filter::sharpen3x3(&img);
    Grid { rows: buf.rows, cols: buf.cols, data: out.into_raw() }
}

impl Threshold {
    /// Applies the to-zero threshold to every pixel.
    pub fn apply(&self, buf: &Grid<u8>) -> (r: Grid<u8>)
        requires
            buf.wf(),
        ensures
            r.wf(),
            r.rows == buf.rows,
            r.cols == buf.cols,
            forall|k: int|
                0 <= k < r.data.len() ==> r.data[k] == threshold_spec(buf.data[k], self.threshold),
    {
        let mut data: Vec<u8> = Vec::new();
        let mut k: usize = 0;
        while k < buf.data.len()
            invariant
                k <= buf.data.len(),
                data.len() == k,
                forall|m: int|
                    0 <= m < k ==> data[m] == threshold_spec(buf.data[m], self.threshold),
            decreases buf.data.len() - k,
        {
            let v = buf.data[k];
            data.push(if v > self.threshold { v } else { 0 });
            k = k + 1;
        }
        Grid { rows: buf.rows, cols: buf.cols, data }
    }
}

impl MedianBlur {
    /// Applies median smoothing with this filter's radius; a uniform buffer
    /// comes back unchanged.
    pub fn apply(&self, buf: &Grid<u8>) -> (r: Grid<u8>)
        requires
            buf.wf(),
            self.kernel_size <= 23169,
            buf.rows + self.kernel_size <= 0x7FFF_FFFF,
            buf.cols + self.kernel_size <= 0x7FFF_FFFF,
        ensures
            r.wf(),
            r.rows == buf.rows,
            r.cols == buf.cols,
            r.data@ == median_of(
                buf.rows as int,
                buf.cols as int,
                buf.data@,
                self.kernel_size as int,
            ),
            (forall|m: int| 0 <= m < buf.data.len() ==> #[trigger] buf.data[m] == buf.data[0])
                ==> r.data@ == buf.data@,
    {
        median_filter_w(buf, self.kernel_size)
    }
}

impl Sharpen3x3 {
    /// Applies the 3×3 Laplacian sharpening.
    pub fn apply(&self, buf: &Grid<u8>) -> (r: Grid<u8>)
        requires
            buf.wf(),
            buf.rows <= u32::MAX,
            buf.cols <= u32::MAX,
        ensures
            r.wf(),
            r.rows == buf.rows,
            r.cols == buf.cols,
            r.data@ == sharpen3x3_of(buf.rows as int, buf.cols as int, buf.data@),
    {
        sharpen3x3_w(buf)
    }
}

impl DoG {
    /// Combines the two Gaussian blurs of an image — computed by the caller
    /// with this filter's sigmas — into the clamped band-pass difference,
    /// rejecting blurs whose shapes disagree.
    pub fn combine(&self, narrow: &Grid<u8>, wide: &Grid<u8>) -> (r: Result<
        Grid<u8>,
        ConvertError,
    >)
        requires
            narrow.wf(),
            wide.wf(),
        ensures
            match r {
                Ok(g) => {
                    &&& narrow.same_shape(wide)
                    &&& g.wf()
                    &&& g.rows == narrow.rows
                    &&& g.cols == narrow.cols
                    &&& forall|k: int|
                        0 <= k < g.data.len() ==> g.data[k] == dog_spec(
                            narrow.data[k],
                            wide.data[k],
                        )
                },
                Err(e) => e == ConvertError::NdArrayShapeError && !narrow.same_shape(wide),
            },
    {
        if narrow.rows != wide.rows || narrow.cols != wide.cols {
            return Err(ConvertError::NdArrayShapeError);
        }
        let mut data: Vec<u8> = Vec::new();
        let mut k: usize = 0;
        while k < narrow.data.len()
            invariant
                narrow.wf(),
                wide.wf(),
                narrow.same_shape(wide),
                narrow.data.len() == wide.data.len(),
                k <= narrow.data.len(),
                data.len() == k,
                forall|m: int|
                    0 <= m < k ==> data[m] == dog_spec(narrow.data[m], wide.data[m]),
            decreases narrow.data.len() - k,
        {
            let n = narrow.data[k];
            let w = wide.data[k];
            data.push(if w >= n { w - n } else { 0 });
            k = k + 1;
        }
        Ok(Grid { rows: narrow.rows, cols: narrow.cols, data })
    }
}

impl SharpenGaussian {
    /// Combines an image with its Gaussian blur — computed by the caller with
    /// this filter's sigma — into the unsharp-masked image, rejecting a blur
    /// whose shape disagrees.
    pub fn combine(&self, orig: &Grid<u8>, blurred: &Grid<u8>) -> (r: Result<
        Grid<u8>,
        ConvertError,
    >)
        requires
            orig.wf(),
            blurred.wf(),
        ensures
            match r {
                Ok(g) => {
                    &&& orig.same_shape(blurred)
                    &&& g.wf()
                    &&& g.rows == orig.rows
                    &&& g.cols == orig.cols
                    &&& forall|k: int|
                        0 <= k < g.data.len() ==> g.data[k] as int == unsharp_spec(
                            orig.data[k] as int,
                            blurred.data[k] as int,
                            self.amount_milli as int,
                        )
                },
                Err(e) => e == ConvertError::NdArrayShapeError && !orig.same_shape(blurred),
            },
    {
        if orig.rows != blurred.rows || orig.cols != blurred.cols {
            return Err(ConvertError::NdArrayShapeError);
        }
        let mut data: Vec<u8> = Vec::new();
        let mut k: usize = 0;
        while k < orig.data.len()
            invariant
                orig.wf(),
                blurred.wf(),
                orig.same_shape(blurred),
                orig.data.len() == blurred.data.len(),
                k <= orig.data.len(),
                data.len() == k,
                forall|m: int|
                    0 <= m < k ==> data[m] as int == unsharp_spec(
                        orig.data[m] as int,
                        blurred.data[m] as int,
                        self.amount_milli as int,
                    ),
            decreases orig.data.len() - k,
        {
            let o = orig.data[k];
            let b = blurred.data[k];
            let v: u8 = if o >= b {
                proof {
                    assert(0 <= self.amount_milli as int * (o as int - b as int)
                        <= 0xFFFF_FFFFint * 255int) by (nonlinear_arith)
                        requires
                            self.amount_milli <= 0xFFFF_FFFFu32,
                            0 <= o as int - b as int <= 255,
                    ;
                }
                let boost = (self.amount_milli as u64 * (o - b) as u64) / 1000;
                if o as u64 + boost > 255 {
                    255
                } else {
                    o + boost as u8
                }
            } else {
                proof {
                    assert(0 <= self.amount_milli as int * (b as int - o as int)
                        <= 0xFFFF_FFFFint * 255int) by (nonlinear_arith)
                        requires
                            self.amount_milli <= 0xFFFF_FFFFu32,
                            0 <= b as int - o as int <= 255,
                    ;
                }
                let cut = (self.amount_milli as u64 * (b - o) as u64) / 1000;
                if cut > o as u64 {
                    0
                } else {
                    o - cut as u8
                }
            };
            data.push(v);
            k = k + 1;
        }
        Ok(Grid { rows: orig.rows, cols: orig.cols, data })
    }
}

/// One configured transform of a filter chain.
#[derive(Clone, Copy, Debug, PartialEq, Eq, Structural)]
pub enum Filter {
    MedianBlur(MedianBlur),
    Threshold(Threshold),
    Sharpen3x3(Sharpen3x3),
    DoG(DoG),
    SharpenGaussian(SharpenGaussian),
    BilateralFilter(BilateralFilter),
}

/// The outside work a filter needs before [`Filter::apply`] can finish it:
/// none, one or two Gaussian blurs of the input with the given sigmas, or —
/// for the bilateral filter — the filtered image itself.
#[derive(Clone, Copy, Debug, PartialEq, Eq, Structural)]
pub enum BlurNeed {
    NoBlur,
    OneBlur { sigma_milli: u32 },
    TwoBlurs { sigma_1_milli: u32, sigma_2_milli: u32 },
    BilateralPass { window_size: u32, sigma_color_milli: u32, sigma_spatial_milli: u32 },
}

/// The companion images handed to [`Filter::apply`], answering a
/// [`BlurNeed`].
pub enum BlurInput {
    NoneGiven,
    One(Grid<u8>),
    Two(Grid<u8>, Grid<u8>),
    Computed(Grid<u8>),
}

/// The outside work each filter kind needs.
pub open spec fn blur_need_spec(f: Filter) -> BlurNeed {
    match f {
        Filter::MedianBlur(_) => BlurNeed::NoBlur,
        Filter::Threshold(_) => BlurNeed::NoBlur,
        Filter::Sharpen3x3(_) => BlurNeed::NoBlur,
        Filter::DoG(d) => BlurNeed::TwoBlurs {
            sigma_1_milli: d.sigma_1_milli,
            sigma_2_milli: d.sigma_2_milli,
        },
        Filter::SharpenGaussian(s) => BlurNeed::OneBlur { sigma_milli: s.sigma_milli },
        Filter::BilateralFilter(b) => BlurNeed::BilateralPass {
            window_size: b.window_size,
            sigma_color_milli: b.sigma_color_milli,
            sigma_spatial_milli: b.sigma_spatial_milli,
        },
    }
}

/// The companion images have the shape the filter kind expects, and are
/// themselves well formed.
pub open spec fn aux_matches(f: Filter, aux: BlurInput) -> bool {
    match (f, aux) {
        (Filter::MedianBlur(_), BlurInput::NoneGiven) => true,
        (Filter::Threshold(_), BlurInput::NoneGiven) => true,
        (Filter::Sharpen3x3(_), BlurInput::NoneGiven) => true,
        (Filter::DoG(_), BlurInput::Two(b1, b2)) => b1.wf() && b2.wf(),
        (Filter::SharpenGaussian(_), BlurInput::One(b)) => b.wf(),
        (Filter::BilateralFilter(_), BlurInput::Computed(c)) => c.wf(),
        _ => false,
    }
}

/// The machine limits the filter kind inherits from its outside worker.
pub open spec fn apply_fits(f: Filter, buf: Grid<u8>) -> bool {
    match f {
        Filter::MedianBlur(m) => m.kernel_size <= 23169 && buf.rows + m.kernel_size
            <= 0x7FFF_FFFF && buf.cols + m.kernel_size <= 0x7FFF_FFFF,
        _ => buf.rows <= u32::MAX && buf.cols <= u32::MAX,
    }
}

impl Filter {
    /// Which outside work this filter needs before it can be applied.
    pub fn blur_need(&self) -> (n: BlurNeed)
        ensures
            n == blur_need_spec(*self),
    {
        match self {
            Filter::MedianBlur(_) => BlurNeed::NoBlur,
            Filter::Threshold(_) => BlurNeed::NoBlur,
            Filter::Sharpen3x3(_) => BlurNeed::NoBlur,
            Filter::DoG(d) => BlurNeed::TwoBlurs {
                sigma_1_milli: d.sigma_1_milli,
                sigma_2_milli: d.sigma_2_milli,
            },
            Filter::SharpenGaussian(s) => BlurNeed::OneBlur { sigma_milli: s.sigma_milli },
            Filter::BilateralFilter(b) => BlurNeed::BilateralPass {
                window_size: b.window_size,
                sigma_color_milli: b.sigma_color_milli,
                sigma_spatial_milli: b.sigma_spatial_milli,
            },
        }
    }

    /// Applies this filter to `buf`, finishing from the companion images in
    /// `aux`: the median, threshold and 3×3 sharpen transforms compute
    /// directly; the difference of Gaussians and the unsharp mask combine the
    /// caller's blurs; the bilateral filter passes the caller's result
    /// through. A companion whose shape disagrees with `buf` is rejected.
    pub fn apply(&self, buf: &Grid<u8>, aux: BlurInput) -> (r: Result<Grid<u8>, ConvertError>)
        requires
            buf.wf(),
            aux_matches(*self, aux),
            apply_fits(*self, *buf),
        ensures
            match *self {
                Filter::MedianBlur(m) => match r {
                    Ok(g) => {
                        &&& g.wf()
                        &&& g.rows == buf.rows
                        &&& g.cols == buf.cols
                        &&& g.data@ == median_of(
                            buf.rows as int,
                            buf.cols as int,
                            buf.data@,
                            m.kernel_size as int,
                        )
                    },
                    Err(_) => false,
                },
                Filter::Threshold(t) => match r {
                    Ok(g) => {
                        &&& g.wf()
                        &&& g.rows == buf.rows
                        &&& g.cols == buf.cols
                        &&& forall|k: int|
                            0 <= k < g.data.len() ==> g.data[k] == threshold_spec(
                                buf.data[k],
                                t.threshold,
                            )
                    },
                    Err(_) => false,
                },
                Filter::Sharpen3x3(_) => match r {
                    Ok(g) => {
                        &&& g.wf()
                        &&& g.rows == buf.rows
                        &&& g.cols == buf.cols
                        &&& g.data@ == sharpen3x3_of(buf.rows as int, buf.cols as int, buf.data@)
                    },
                    Err(_) => false,
                },
                Filter::DoG(_) => match aux {
                    BlurInput::Two(b1, b2) => match r {
                        Ok(g) => {
                            &&& b1.same_shape(buf)
                            &&& b2.same_shape(buf)
                            &&& g.wf()
                            &&& g.rows == buf.rows
                            &&& g.cols == buf.cols
                            &&& forall|k: int|
                                0 <= k < g.data.len() ==> g.data[k] == dog_spec(
                                    b1.data[k],
                                    b2.data[k],
                                )
                        },
                        Err(e) => e == ConvertError::NdArrayShapeError && !(b1.same_shape(buf)
                            && b2.same_shape(buf)),
                    },
                    _ => false,
                },
                Filter::SharpenGaussian(s) => match aux {
                    BlurInput::One(b) => match r {
                        Ok(g) => {
                            &&& b.same_shape(buf)
                            &&& g.wf()
                            &&& g.rows == buf.rows
                            &&& g.cols == buf.cols
                            &&& forall|k: int|
                                0 <= k < g.data.len() ==> g.data[k] as int == unsharp_spec(
                                    buf.data[k] as int,
                                    b.data[k] as int,
                                    s.amount_milli as int,
                                )
                        },
                        Err(e) => e == ConvertError::NdArrayShapeError && !b.same_shape(buf),
                    },
                    _ => false,
                },
                Filter::BilateralFilter(_) => match aux {
                    BlurInput::Computed(c) => match r {
                        Ok(g) => c.same_shape(buf) && g == c,
                        Err(e) => e == ConvertError::NdArrayShapeError && !c.same_shape(buf),
                    },
                    _ => false,
                },
            },
    {
        match self {
            Filter::MedianBlur(m) => Ok(m.apply(buf)),
            Filter::Threshold(t) => Ok(t.apply(buf)),
            Filter::Sharpen3x3(s) => Ok(s.apply(buf)),
            Filter::DoG(d) => match aux {
                BlurInput::Two(b1, b2) => {
                    if b1.rows == buf.rows && b1.cols == buf.cols && b2.rows == buf.rows
                        && b2.cols == buf.cols {
                        d.combine(&b1, &b2)
                    } else {
                        Err(ConvertError::NdArrayShapeError)
                    }
                },
                _ => unreached(),
            },
            Filter::SharpenGaussian(s) => match aux {
                BlurInput::One(b) => {
                    if b.rows == buf.rows && b.cols == buf.cols {
                        s.combine(buf, &b)
                    } else {
                        Err(ConvertError::NdArrayShapeError)
                    }
                },
                _ => unreached(),
            },
            Filter::BilateralFilter(_) => match aux {
                BlurInput::Computed(c) => {
                    if c.rows == buf.rows && c.cols == buf.cols {
                        Ok(c)
                    } else {
                        Err(ConvertError::NdArrayShapeError)
                    }
                },
                _ => unreached(),
            },
        }
    }
}

/// The built-in edge-path chain: unsharp masking, difference of Gaussians,
/// median smoothing, then weak-gradient suppression.
pub fn default_edge_chain() -> (c: Vec<Filter>)
    ensures
        c.len() == 4,
        c[0] == Filter::SharpenGaussian(SharpenGaussian { sigma_milli: 1000, amount_milli: 1000 }),
        c[1] == Filter::DoG(DoG { sigma_1_milli: 1000, sigma_2_milli: 3500 }),
        c[2] == Filter::MedianBlur(MedianBlur { kernel_size: 2 }),
        c[3] == Filter::Threshold(Threshold { threshold: 10 }),
{
    let mut c: Vec<Filter> = Vec::new();
    c.push(Filter::SharpenGaussian(SharpenGaussian::default()));
    c.push(Filter::DoG(DoG::default()));
    c.push(Filter::MedianBlur(MedianBlur::default()));
    c.push(Filter::Threshold(Threshold::default()));
    c
}

/// The built-in tile-path chain, which applies no transform at all.
pub fn default_tile_chain() -> (c: Vec<Filter>)
    ensures
        c.len() == 0,
{
    Vec::new()
}

} // verus!
