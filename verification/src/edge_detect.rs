//! The edge detector: Sobel gradients and gradient-orientation classification.
//!
//! A pixel's gradient angle `theta = atan2(gy, gx)` is normalized to
//! `theta_norm = theta / pi * 0.5 + 0.5` in `[0, 1]` and represented here in
//! fixed point, as micro-units in `[0, 1_000_000]`. The classifier sorts each
//! angle into exactly one of five buckets: none (0), horizontal (1),
//! vertical (2) and two diagonal orientations (3 and 4). The bucket
//! boundaries are tuned to the line directions a monospace font can
//! approximate and are reproduced exactly, including their exclusions.
//!
//! Computing `atan2` is floating-point work and happens outside this crate;
//! the caller hands the normalized angles in as a grid of micro-unit values.

use vstd::prelude::*;

use crate::grid::lemma_grid_index;
use crate::grid::Grid;

verus! {

/// A zero gradient: `theta_norm` is exactly one half.
pub open spec fn is_none_angle(t: int) -> bool {
    t == 500_000
}

/// `theta_norm` in `[0.95, 1.0]`.
pub open spec fn is_vertical_angle(t: int) -> bool {
    950_000 <= t <= 1_000_000
}

/// `theta_norm` in `[0.25, 0.27) ∪ [0.75, 0.77)`.
pub open spec fn is_horizontal_angle(t: int) -> bool {
    (250_000 <= t < 270_000) || (750_000 <= t < 770_000)
}

/// `theta_norm` in `[0.0, 0.28) ∪ [0.55, 0.78)`, minus the none, vertical and
/// horizontal ranges above.
pub open spec fn is_diag_one_angle(t: int) -> bool {
    &&& (0 <= t < 280_000 || 550_000 <= t < 780_000)
    &&& !is_none_angle(t)
    &&& !is_vertical_angle(t)
    &&& !is_horizontal_angle(t)
}

/// `theta_norm` in `[0.28, 0.55) ∪ [0.78, 1.0)`, minus the none, vertical and
/// horizontal ranges above.
pub open spec fn is_diag_two_angle(t: int) -> bool {
    &&& (280_000 <= t < 550_000 || 780_000 <= t < 1_000_000)
    &&& !is_none_angle(t)
    &&& !is_vertical_angle(t)
    &&& !is_horizontal_angle(t)
}

/// The edge class of a normalized angle given in micro-units.
pub open spec fn classify_spec(t: int) -> int {
    if is_none_angle(t) {
        0
    } else if is_vertical_angle(t) {
        2
    } else if is_horizontal_angle(t) {
        1
    } else if 0 <= t < 280_000 || 550_000 <= t < 780_000 {
        3
    } else {
        4
    }
}

/// Edge bucket partition: every angle in `[0, 1]` falls in exactly one of the
/// five buckets, the one the classifier reports.
pub proof fn lemma_angle_partition(t: int)
    requires
        0 <= t <= 1_000_000,
    ensures
        0 <= classify_spec(t) <= 4,
        classify_spec(t) == 0 <==> is_none_angle(t),
        classify_spec(t) == 1 <==> is_horizontal_angle(t),
        classify_spec(t) == 2 <==> is_vertical_angle(t),
        classify_spec(t) == 3 <==> is_diag_one_angle(t),
        classify_spec(t) == 4 <==> is_diag_two_angle(t),
        is_none_angle(t) || is_horizontal_angle(t) || is_vertical_angle(t) || is_diag_one_angle(t)
            || is_diag_two_angle(t),
{
}

/// Every element of the grid is one of the five edge classes.
pub open spec fn class_values_ok(g: Grid<u8>) -> bool {
    forall|k: int| 0 <= k < g.data.len() ==> g.data[k] < 5
}

/// Every element of the grid is a normalized angle in micro-units.
pub open spec fn angle_values_ok(g: Grid<u32>) -> bool {
    forall|k: int| 0 <= k < g.data.len() ==> g.data[k] <= 1_000_000
}

/// Classifies one normalized angle, given in micro-units, into its edge
/// class.
pub fn classify_angle(theta_norm_micro: u32) -> (c: u8)
    requires
        theta_norm_micro <= 1_000_000,
    ensures
        c == classify_spec(theta_norm_micro as int),
        c < 5,
{
    let t = theta_norm_micro;
    if t == 500_000 {
        0
    } else if t >= 950_000 {
        2
    } else if (t >= 250_000 && t < 270_000) || (t >= 750_000 && t < 770_000) {
        1
    } else if t < 280_000 || (t >= 550_000 && t < 780_000) {
        3
    } else {
        4
    }
}

/// Classifies every pixel's normalized angle; the classification of one pixel
/// does not depend on any other.
pub fn classify_grid(angles: &Grid<u32>) -> (r: Grid<u8>)
    requires
        angles.wf(),
        angle_values_ok(*angles),
    ensures
        r.wf(),
        r.rows == angles.rows,
        r.cols == angles.cols,
        class_values_ok(r),
        forall|k: int| 0 <= k < r.data.len() ==> r.data[k] == classify_spec(angles.data[k] as int),
        forall|i: int, j: int|
            r.in_bounds(i, j) ==> #[trigger] r.at(i, j) == classify_spec(angles.at(i, j) as int),
{
    let mut data: Vec<u8> = Vec::new();
    let mut k: usize = 0;
    while k < angles.data.len()
        invariant
            angles.wf(),
            angle_values_ok(*angles),
            k <= angles.data.len(),
            data.len() == k,
            forall|m: int| 0 <= m < k ==> data[m] == classify_spec(angles.data[m] as int),
            forall|m: int| 0 <= m < k ==> data[m] < 5,
        decreases angles.data.len() - k,
    {
        data.push(classify_angle(angles.data[k]));
        k = k + 1;
    }
    let r = Grid { rows: angles.rows, cols: angles.cols, data };
    proof {
        assert forall|i: int, j: int| r.in_bounds(i, j) implies #[trigger] r.at(i, j)
            == classify_spec(angles.at(i, j) as int) by {
            lemma_grid_index(r.rows as int, r.cols as int, i, j);
        }
    }
    r
}

/// What `imageproc::gradients::horizontal_sobel` returns for a grayscale
/// image of the given shape: a function of the pixels alone.
pub uninterp spec fn sobel_h_of(rows: int, cols: int, pixels: Seq<u8>) -> Seq<i16>;

/// What `imageproc::gradients::vertical_sobel` returns for a grayscale image
/// of the given shape: a function of the pixels alone.
pub uninterp spec fn sobel_v_of(rows: int, cols: int, pixels: Seq<u8>) -> Seq<i16>;

/// Relies on `imageproc::gradients::horizontal_sobel`: correlates the image
/// with the horizontal Sobel kernel, clamping coordinates at the borders, and
/// returns one `i16` per input pixel. The result depends on the pixels alone;
/// it is named `sobel_h_of` here. The kernel's entries sum to zero, so a
/// uniform image yields zero gradients everywhere.
#[verifier::external_body]
fn horizontal_sobel_w(buf: &Grid<u8>) -> (r: Grid<i16>)
    requires
        buf.wf(),
        buf.rows <= u32::MAX,
        buf.cols <= u32::MAX,
    ensures
        r.wf(),
        r.rows == buf.rows,
        r.cols == buf.cols,
        r.data@ == sobel_h_of(buf.rows as int, buf.cols as int, buf.data@),
        (forall|m: int| 0 <= m < buf.data.len() ==> #[trigger] buf.data[m] == buf.data[0])
            ==> (forall|m: int| 0 <= m < r.data.len() ==> #[trigger] r.data[m] == 0),
{
    let img = image::GrayImage::from_raw(buf.cols as u32, buf.rows as u32, buf.data.clone())
        .unwrap();
    let out = imageproc::gradients::horizontal_sobel(&img);
    Grid { rows: buf.rows, cols: buf.cols, data: out.into_raw() }
}

/// Relies on `imageproc::gradients::vertical_sobel`: correlates the image
/// with the vertical Sobel kernel, clamping coordinates at the borders, and
/// returns one `i16` per input pixel. The result depends on the pixels alone;
/// it is named `sobel_v_of` here. The kernel's entries sum to zero, so a
/// uniform image yields zero gradients everywhere.
#[verifier::external_body]
fn vertical_sobel_w(buf: &Grid<u8>) -> (r: Grid<i16>)
    requires
        buf.wf(),
        buf.rows <= u32::MAX,
        buf.cols <= u32::MAX,
    ensures
        r.wf(),
        r.rows == buf.rows,
        r.cols == buf.cols,
        r.data@ == sobel_v_of(buf.rows as int, buf.cols as int, buf.data@),
        (forall|m: int| 0 <= m < buf.data.len() ==> #[trigger] buf.data[m] == buf.data[0])
            ==> (forall|m: int| 0 <= m < r.data.len() ==> #[trigger] r.data[m] == 0),
{
    let img = image::GrayImage::from_raw(buf.cols as u32, buf.rows as u32, buf.data.clone())
        .unwrap();
    let out = imageproc::gradients::vertical_sobel(&img);
    Grid { rows: buf.rows, cols: buf.cols, data: out.into_raw() }
}

/// The Sobel edge detector: computes both gradient images; the caller turns
/// each gradient pair into a normalized angle before classification.
pub struct Sobel {}

impl Sobel {
    /// A Sobel detector.
    pub fn new() -> (s: Sobel) {
        Sobel {  }
    }

    /// Computes the horizontal and vertical Sobel gradients of a grayscale
    /// buffer; both results have the shape of the input, and a uniform buffer
    /// — a solid image — has zero gradient everywhere.
    pub fn gradients(&self, buf: &Grid<u8>) -> (r: (Grid<i16>, Grid<i16>))
        requires
            buf.wf(),
            buf.rows <= u32::MAX,
            buf.cols <= u32::MAX,
        ensures
            r.0.wf(),
            r.0.rows == buf.rows,
            r.0.cols == buf.cols,
            r.0.data@ == sobel_h_of(buf.rows as int, buf.cols as int, buf.data@),
            r.1.wf(),
            r.1.rows == buf.rows,
            r.1.cols == buf.cols,
            r.1.data@ == sobel_v_of(buf.rows as int, buf.cols as int, buf.data@),
            (forall|m: int| 0 <= m < buf.data.len() ==> #[trigger] buf.data[m] == buf.data[0])
                ==> ((forall|m: int| 0 <= m < r.0.data.len() ==> #[trigger] r.0.data[m] == 0) && (
            forall|m: int| 0 <= m < r.1.data.len() ==> #[trigger] r.1.data[m] == 0)),
    {
        (horizontal_sobel_w(buf), vertical_sobel_w(buf))
    }
}

} // verus!
