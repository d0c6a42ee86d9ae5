use vstd::prelude::*;
use crate::errors::PipelineError;
use crate::imgio::{decode_rgb, decoded_rgb, resize_rgb, resized_rgb};
use crate::raster::{Raster, RgbView};
use crate::yuv::{convert, PlaneStrides, YuvFrame};

verus! {

/// A raster reconciled to the target geometry: unchanged when it already
/// matches, otherwise the Lanczos resize of it.
pub open spec fn reconciled(img: RgbView, width: nat, height: nat) -> RgbView {
    if img.width == width && img.height == height {
        img
    } else {
        resized_rgb(img, width, height)
    }
}

/// Decodes one input and reports its dimensions, mapping decoder failures to
/// `DecodeError`. The pipeline derives the target geometry from the first
/// candidate image this way.
pub fn probe_geometry(bytes: &Vec<u8>) -> (res: Result<(u32, u32), PipelineError>)
    ensures
        res is Ok <==> decoded_rgb(bytes@) is Some,
        res matches Ok(d) ==> {
            &&& d.0 == decoded_rgb(bytes@)->Some_0.width
            &&& d.1 == decoded_rgb(bytes@)->Some_0.height
        },
        res matches Err(e) ==> e == PipelineError::DecodeError,
{
    match decode_rgb(bytes) {
        Ok(img) => Ok((img.width, img.height)),
        Err(e) => Err(e),
    }
}

/// Assigns each source raster a presentation timestamp (consecutive integers
/// from 0) and guarantees uniform output dimensions, resizing any raster
/// mismatched from the target geometry before it reaches the pixel converter.
pub struct FrameSequencer {
    pub width: u32,
    pub height: u32,
    pub next_pts: u64,
}

impl FrameSequencer {
    /// A sequencer whose target geometry is that of the first decoded image.
    pub fn from_first(first: &Raster) -> (s: Self)
        ensures
            s.width == first.width,
            s.height == first.height,
            s.next_pts == 0,
    {
        FrameSequencer { width: first.width, height: first.height, next_pts: 0 }
    }

    /// A sequencer for an already-known target geometry.
    pub fn with_geometry(width: u32, height: u32) -> (s: Self)
        ensures
            s.width == width,
            s.height == height,
            s.next_pts == 0,
    {
        FrameSequencer { width, height, next_pts: 0 }
    }

    /// Reconciles a decoded raster to the target geometry: returned unchanged
    /// when it already matches, resized to match otherwise.
    pub fn reconcile(&self, img: Raster) -> (r: Raster)
        requires
            img.wf(),
        ensures
            r.wf(),
            r.width == self.width,
            r.height == self.height,
            r@ == reconciled(img@, self.width as nat, self.height as nat),
    {
        if img.width == self.width && img.height == self.height {
            img
        } else {
            resize_rgb(img, self.width, self.height)
        }
    }

    /// Reconciles one source raster, converts it, and stamps it with the next
    /// presentation timestamp. The converter can never see mismatched
    /// dimensions from here, so conversion always succeeds.
    pub fn next_frame(&mut self, img: Raster, strides: PlaneStrides) -> (f: YuvFrame)
        requires
            img.wf(),
            strides.wf_for(old(self).width as nat, old(self).height as nat),
            old(self).next_pts < u64::MAX,
        ensures
            final(self).width == old(self).width,
            final(self).height == old(self).height,
            final(self).next_pts == old(self).next_pts + 1,
            f.pts == old(self).next_pts,
            f.planes.wf(),
            f.planes.width == old(self).width,
            f.planes.height == old(self).height,
            f.planes.strides == strides,
            f.planes.y@ == crate::yuv::y_plane_spec(
                reconciled(img@, old(self).width as nat, old(self).height as nat),
                strides.y as nat,
            ),
            f.planes.u@ == crate::yuv::u_plane_spec(
                reconciled(img@, old(self).width as nat, old(self).height as nat),
                strides.u as nat,
            ),
            f.planes.v@ == crate::yuv::v_plane_spec(
                reconciled(img@, old(self).width as nat, old(self).height as nat),
                strides.v as nat,
            ),
    {
        let matched = self.reconcile(img);
        let planes = match convert(&matched, self.width, self.height, strides) {
            Ok(p) => p,
            Err(_) => {
                proof {
                    assert(false);
                }
                unreached()
            }
        };
        let pts = self.next_pts;
        self.next_pts = self.next_pts + 1;
        YuvFrame { planes, pts }
    }
}

} // verus!
