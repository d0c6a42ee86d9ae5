use vstd::prelude::*;
use crate::errors::PipelineError;
use crate::raster::{Raster, RgbView};

verus! {

// BT.601 conversion, computed exactly in thousandths of the usual
// coefficients. Every formula adds its offset first, so each numerator is
// nonnegative and integer division truncates exactly as the formulas demand.

/// Luma: trunc(0.257 R + 0.504 G + 0.098 B + 16).
pub open spec fn luma(r: u8, g: u8, b: u8) -> u8 {
    ((257 * r + 504 * g + 98 * b + 16000) / 1000) as u8
}

/// First chroma channel: trunc(-0.148 R - 0.291 G + 0.439 B + 128).
pub open spec fn chroma_u(r: u8, g: u8, b: u8) -> u8 {
    ((439 * b + 128000 - 148 * r - 291 * g) / 1000) as u8
}

/// Second chroma channel: trunc(0.439 R - 0.368 G - 0.071 B + 128).
pub open spec fn chroma_v(r: u8, g: u8, b: u8) -> u8 {
    ((439 * r + 128000 - 368 * g - 71 * b) / 1000) as u8
}

/// The luma formula never leaves the 8-bit range: for every RGB triple the
/// result lies in [16, 235], so the truncating cast cannot wrap.
pub proof fn lemma_luma_bounded(r: u8, g: u8, b: u8)
    ensures
        16 <= luma(r, g, b) <= 235,
        luma(r, g, b) == (257 * r + 504 * g + 98 * b + 16000) / 1000,
{
}

/// Both chroma formulas stay within [16, 239] for every RGB triple.
pub proof fn lemma_chroma_bounded(r: u8, g: u8, b: u8)
    ensures
        16 <= chroma_u(r, g, b) <= 239,
        16 <= chroma_v(r, g, b) <= 239,
{
}

/// Computes `luma` on one pixel.
pub fn luma_val(r: u8, g: u8, b: u8) -> (y: u8)
    ensures
        y == luma(r, g, b),
        16 <= y <= 235,
{
    let acc: u32 = 257 * (r as u32) + 504 * (g as u32) + 98 * (b as u32) + 16000;
    (acc / 1000) as u8
}

/// Computes `chroma_u` on one pixel.
pub fn chroma_u_val(r: u8, g: u8, b: u8) -> (u: u8)
    ensures
        u == chroma_u(r, g, b),
        16 <= u <= 239,
{
    let pos: u32 = 439 * (b as u32) + 128000;
    let neg: u32 = 148 * (r as u32) + 291 * (g as u32);
    ((pos - neg) / 1000) as u8
}

/// Computes `chroma_v` on one pixel.
pub fn chroma_v_val(r: u8, g: u8, b: u8) -> (v: u8)
    ensures
        v == chroma_v(r, g, b),
        16 <= v <= 239,
{
    let pos: u32 = 439 * (r as u32) + 128000;
    let neg: u32 = 368 * (g as u32) + 71 * (b as u32);
    ((pos - neg) / 1000) as u8
}

/// Columns of each chroma plane: every even source column contributes one
/// sample, so odd widths round up.
pub open spec fn chroma_cols(width: nat) -> nat {
    (width + 1) / 2
}

/// Rows of each chroma plane: `height / 2`, truncating — the last source row
/// of an odd-height raster is excluded from chroma sampling.
pub open spec fn chroma_rows(height: nat) -> nat {
    height / 2
}

/// Which of the three target planes is being produced.
#[derive(Clone, Copy, Debug, PartialEq, Eq, Structural)]
pub enum PlaneKind {
    Luma,
    ChromaU,
    ChromaV,
}

/// Rows of the given plane: full height for luma, half for chroma.
pub open spec fn plane_rows(kind: PlaneKind, img: RgbView) -> nat {
    if kind is Luma {
        img.height
    } else {
        chroma_rows(img.height)
    }
}

/// Logical columns of the given plane (excluding stride padding).
pub open spec fn plane_cols(kind: PlaneKind, img: RgbView) -> nat {
    if kind is Luma {
        img.width
    } else {
        chroma_cols(img.width)
    }
}

/// The byte a plane holds at (row, col): the luma of that pixel, or the
/// chroma point-sampled from the top-left pixel of the 2x2 block at
/// (2 row, 2 col).
pub open spec fn plane_sample(kind: PlaneKind, img: RgbView, row: int, col: int) -> u8 {
    match kind {
        PlaneKind::Luma => luma(
            img.red(row, col),
            img.green(row, col),
            img.blue(row, col),
        ),
        PlaneKind::ChromaU => chroma_u(
            img.red(2 * row, 2 * col),
            img.green(2 * row, 2 * col),
            img.blue(2 * row, 2 * col),
        ),
        PlaneKind::ChromaV => chroma_v(
            img.red(2 * row, 2 * col),
            img.green(2 * row, 2 * col),
            img.blue(2 * row, 2 * col),
        ),
    }
}

/// The whole plane as a byte sequence: `plane_rows` rows of `stride` bytes;
/// within a row the first `plane_cols` bytes are samples, the padding bytes
/// are zero.
pub open spec fn plane_spec(img: RgbView, stride: nat, kind: PlaneKind) -> Seq<u8> {
    Seq::new(plane_rows(kind, img) * stride, |i: int| {
        let row = i / stride as int;
        let col = i % stride as int;
        if col < plane_cols(kind, img) {
            plane_sample(kind, img, row, col)
        } else {
            0u8
        }
    })
}

pub open spec fn y_plane_spec(img: RgbView, stride: nat) -> Seq<u8> {
    plane_spec(img, stride, PlaneKind::Luma)
}

pub open spec fn u_plane_spec(img: RgbView, stride: nat) -> Seq<u8> {
    plane_spec(img, stride, PlaneKind::ChromaU)
}

pub open spec fn v_plane_spec(img: RgbView, stride: nat) -> Seq<u8> {
    plane_spec(img, stride, PlaneKind::ChromaV)
}

/// Law: the plane sizes of a conversion are exact — the luma plane holds
/// `height` rows of `stride` bytes, and each chroma plane holds exactly
/// `height / 2` rows (truncating integer division, so an odd-height raster
/// contributes its last row to luma only).
pub proof fn lemma_plane_sizes(img: RgbView, stride: nat)
    ensures
        y_plane_spec(img, stride).len() == img.height * stride,
        u_plane_spec(img, stride).len() == (img.height / 2) * stride,
        v_plane_spec(img, stride).len() == (img.height / 2) * stride,
{
}

/// The row strides the caller wants for the three target planes; each must be
/// at least the logical plane width, padding is allowed.
#[derive(Clone, Copy, Debug, PartialEq, Eq, Structural)]
pub struct PlaneStrides {
    pub y: usize,
    pub u: usize,
    pub v: usize,
}

impl PlaneStrides {
    /// The strides fit rasters of the given geometry, and every plane buffer
    /// size fits in a machine word.
    pub open spec fn wf_for(self, width: nat, height: nat) -> bool {
        &&& self.y >= width
        &&& self.u >= chroma_cols(width)
        &&& self.v >= chroma_cols(width)
        &&& height * self.y <= usize::MAX
        &&& chroma_rows(height) * self.u <= usize::MAX
        &&& chroma_rows(height) * self.v <= usize::MAX
    }
}

/// One planar YUV 4:2:0 raster: a full-resolution luma plane and two
/// half-resolution chroma planes, each with its own row stride.
pub struct YuvPlanes {
    pub width: u32,
    pub height: u32,
    pub strides: PlaneStrides,
    pub y: Vec<u8>,
    pub u: Vec<u8>,
    pub v: Vec<u8>,
}

impl YuvPlanes {
    pub open spec fn wf(self) -> bool {
        &&& self.strides.wf_for(self.width as nat, self.height as nat)
        &&& self.y@.len() == self.height * self.strides.y
        &&& self.u@.len() == chroma_rows(self.height as nat) * self.strides.u
        &&& self.v@.len() == chroma_rows(self.height as nat) * self.strides.v
    }
}

/// A YUV raster tagged with its presentation timestamp, in units of the
/// stream time base (one unit per frame).
pub struct YuvFrame {
    pub planes: YuvPlanes,
    pub pts: u64,
}

/// A vector of `n` zero bytes.
fn zeroed(n: usize) -> (v: Vec<u8>)
    ensures
        v@ == Seq::new(n as nat, |i: int| 0u8),
{
    let mut v: Vec<u8> = Vec::new();
    let mut k: usize = 0;
    while k < n
        invariant
            k <= n,
            v@.len() == k,
            forall|i: int| 0 <= i < k ==> v@[i] == 0u8,
        decreases n - k,
    {
        v.push(0);
        k += 1;
    }
    proof {
        assert(v@ =~= Seq::new(n as nat, |i: int| 0u8));
    }
    v
}

/// The sample of the given plane at (row, col).
fn sample_val(rgb: &Raster, kind: PlaneKind, row: usize, col: usize) -> (s: u8)
    requires
        rgb.wf(),
        row < plane_rows(kind, rgb@),
        col < plane_cols(kind, rgb@),
    ensures
        s == plane_sample(kind, rgb@, row as int, col as int),
{
    match kind {
        PlaneKind::Luma => {
            let p = rgb.pixel(row, col);
            luma_val(p.0, p.1, p.2)
        }
        PlaneKind::ChromaU => {
            let p = rgb.pixel(2 * row, 2 * col);
            chroma_u_val(p.0, p.1, p.2)
        }
        PlaneKind::ChromaV => {
            let p = rgb.pixel(2 * row, 2 * col);
            chroma_v_val(p.0, p.1, p.2)
        }
    }
}

/// Fills one target plane of the conversion, honouring the row stride:
/// sample bytes in the first `plane_cols` columns, zero padding after them.
fn fill_plane(rgb: &Raster, stride: usize, kind: PlaneKind) -> (out: Vec<u8>)
    requires
        rgb.wf(),
        stride >= plane_cols(kind, rgb@),
        plane_rows(kind, rgb@) * stride <= usize::MAX,
    ensures
        out@ == plane_spec(rgb@, stride as nat, kind),
{
    let rows: usize = match kind {
        PlaneKind::Luma => rgb.height as usize,
        _ => (rgb.height as usize) / 2,
    };
    let cols: usize = match kind {
        PlaneKind::Luma => rgb.width as usize,
        _ => ((rgb.width as usize) / 2) + ((rgb.width as usize) % 2),
    };
    proof {
        assert(rows == plane_rows(kind, rgb@));
        assert(cols == plane_cols(kind, rgb@));
    }
    let total: usize = rows * stride;
    let mut out = zeroed(total);
    let ghost pspec = plane_spec(rgb@, stride as nat, kind);
    let mut row: usize = 0;
    while row < rows
        invariant
            row <= rows,
            rows == plane_rows(kind, rgb@),
            cols == plane_cols(kind, rgb@),
            cols <= stride,
            rows * stride <= usize::MAX,
            rgb.wf(),
            out@.len() == rows * stride,
            pspec == plane_spec(rgb@, stride as nat, kind),
            pspec.len() == rows * stride,
            forall|i: int| 0 <= i < row * stride ==> out@[i] == pspec[i],
            forall|i: int| row * stride <= i < out@.len() ==> out@[i] == 0u8,
        decreases rows - row,
    {
        proof {
            assert(row * stride + stride <= rows * stride) by (nonlinear_arith)
                requires
                    0 <= row < rows,
                    0 <= stride,
            ;
        }
        let base: usize = row * stride;
        let mut col: usize = 0;
        while col < cols
            invariant
                col <= cols,
                cols <= stride,
                row < rows,
                base == row * stride,
                base + stride <= rows * stride,
                rows * stride <= usize::MAX,
                rows == plane_rows(kind, rgb@),
                cols == plane_cols(kind, rgb@),
                rgb.wf(),
                out@.len() == rows * stride,
                pspec == plane_spec(rgb@, stride as nat, kind),
                pspec.len() == rows * stride,
                forall|i: int| 0 <= i < base ==> out@[i] == pspec[i],
                forall|i: int| base <= i < base + col ==> out@[i] == pspec[i],
                forall|i: int| base + col <= i < out@.len() ==> out@[i] == 0u8,
            decreases cols - col,
        {
            let s = sample_val(rgb, kind, row, col);
            proof {
                vstd::arithmetic::div_mod::lemma_fundamental_div_mod_converse(
                    base + col,
                    stride as int,
                    row as int,
                    col as int,
                );
                assert(pspec[base + col] == plane_sample(kind, rgb@, row as int, col as int));
            }
            out.set(base + col, s);
            col += 1;
        }
        proof {
            assert forall|i: int| base + cols <= i < base + stride implies pspec[i] == 0u8 by {
                vstd::arithmetic::div_mod::lemma_fundamental_div_mod_converse(
                    i,
                    stride as int,
                    row as int,
                    i - base,
                );
            }
            assert((row + 1) * stride == base + stride) by (nonlinear_arith)
                requires
                    base == row * stride,
            ;
        }
        row += 1;
    }
    proof {
        assert(out@ =~= pspec);
    }
    out
}

/// Converts one RGB raster into one planar YUV 4:2:0 raster honouring the
/// target strides.
///
/// Rejects with `DimensionMismatch` exactly when the raster's dimensions
/// differ from the target geometry the caller believes it is converting.
/// On success, every plane byte is pinned: samples per the BT.601 formulas
/// (chroma point-sampled from the top-left pixel of each 2x2 block), zero in
/// the stride padding.
pub fn convert(
    rgb: &Raster,
    target_width: u32,
    target_height: u32,
    strides: PlaneStrides,
) -> (res: Result<YuvPlanes, PipelineError>)
    requires
        rgb.wf(),
        strides.wf_for(target_width as nat, target_height as nat),
    ensures
        res is Err <==> !(rgb.width == target_width && rgb.height == target_height),
        res matches Err(e) ==> e == PipelineError::DimensionMismatch,
        res matches Ok(p) ==> {
            &&& p.wf()
            &&& p.width == target_width
            &&& p.height == target_height
            &&& p.strides == strides
            &&& p.y@ == y_plane_spec(rgb@, strides.y as nat)
            &&& p.u@ == u_plane_spec(rgb@, strides.u as nat)
            &&& p.v@ == v_plane_spec(rgb@, strides.v as nat)
        },
{
    if rgb.width != target_width || rgb.height != target_height {
        return Err(PipelineError::DimensionMismatch);
    }
    let y = fill_plane(rgb, strides.y, PlaneKind::Luma);
    let u = fill_plane(rgb, strides.u, PlaneKind::ChromaU);
    let v = fill_plane(rgb, strides.v, PlaneKind::ChromaV);
    Ok(YuvPlanes { width: target_width, height: target_height, strides, y, u, v })
}

} // verus!
