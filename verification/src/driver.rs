use vstd::prelude::*;
use crate::errors::PipelineError;
use crate::imgio::{decode_rgb, decoded_rgb};
use crate::order::{byte_views, candidate_pred, select_frames, sorted_lex};
use crate::sequence::{reconciled, FrameSequencer};
use crate::yuv::{u_plane_spec, v_plane_spec, y_plane_spec, PlaneStrides, YuvFrame};

verus! {

/// What the pixel pipeline makes of one input file's bytes: `None` where the
/// bytes do not decode, otherwise the three plane byte strings of the decoded
/// raster, reconciled to the target geometry and converted.
pub open spec fn frame_plan(
    input: Seq<u8>,
    width: u32,
    height: u32,
    strides: PlaneStrides,
) -> Option<(Seq<u8>, Seq<u8>, Seq<u8>)> {
    match decoded_rgb(input) {
        Some(img) => {
            let rec = reconciled(img, width as nat, height as nat);
            Some(
                (
                    y_plane_spec(rec, strides.y as nat),
                    u_plane_spec(rec, strides.u as nat),
                    v_plane_spec(rec, strides.v as nat),
                ),
            )
        }
        None => None,
    }
}

/// Orders the candidate frames of a directory listing. Fails with
/// `EmptyInput` exactly when no name is a candidate — a benign outcome: the
/// run then performs no output work at all, not even creating an empty
/// container, and reports success. Otherwise the plan is nonempty,
/// lexicographically sorted, and holds exactly the candidates.
pub fn plan_run(names: Vec<Vec<u8>>) -> (plan: Result<Vec<Vec<u8>>, PipelineError>)
    ensures
        plan is Err <==> byte_views(names@).filter(candidate_pred()).to_multiset().len() == 0,
        plan matches Err(e) ==> e == PipelineError::EmptyInput,
        plan matches Ok(p) ==> {
            &&& p@.len() > 0
            &&& sorted_lex(byte_views(p@))
            &&& byte_views(p@).to_multiset() == byte_views(names@).filter(
                candidate_pred(),
            ).to_multiset()
        },
{
    broadcast use vstd::seq_lib::group_to_multiset_ensures;

    let ordered = select_frames(names);
    if ordered.len() == 0 {
        proof {
            assert(byte_views(ordered@).len() == 0);
        }
        Err(PipelineError::EmptyInput)
    } else {
        proof {
            assert(byte_views(ordered@).len() > 0);
        }
        Ok(ordered)
    }
}

/// Runs the whole pixel side of the pipeline over the planned inputs: decodes
/// each, reconciles it to the target geometry, converts it, and stamps
/// presentation timestamps 0, 1, ... in plan order. Aborts with `DecodeError`
/// on the first input that does not decode; succeeds exactly when every input
/// decodes.
pub fn prepare_frames(
    inputs: &Vec<Vec<u8>>,
    width: u32,
    height: u32,
    strides: PlaneStrides,
) -> (res: Result<Vec<YuvFrame>, PipelineError>)
    requires
        strides.wf_for(width as nat, height as nat),
    ensures
        res is Ok <==> (forall|i: int|
            0 <= i < inputs@.len() ==> frame_plan(inputs@[i]@, width, height, strides) is Some),
        res matches Ok(frames) ==> {
            &&& frames@.len() == inputs@.len()
            &&& forall|i: int|
                0 <= i < frames@.len() ==> {
                    &&& (#[trigger] frames@[i]).pts == i
                    &&& frames@[i].planes.wf()
                    &&& frames@[i].planes.width == width
                    &&& frames@[i].planes.height == height
                    &&& frames@[i].planes.strides == strides
                    &&& Some(
                        (
                            frames@[i].planes.y@,
                            frames@[i].planes.u@,
                            frames@[i].planes.v@,
                        ),
                    ) == frame_plan(inputs@[i]@, width, height, strides)
                }
        },
        res matches Err(e) ==> e == PipelineError::DecodeError && (exists|i: int|
            {
                &&& 0 <= i < inputs@.len()
                &&& #[trigger] frame_plan(inputs@[i]@, width, height, strides) is None
                &&& forall|j: int|
                    0 <= j < i ==> frame_plan(inputs@[j]@, width, height, strides) is Some
            }),
{
    let mut sequencer = FrameSequencer::with_geometry(width, height);
    let mut frames: Vec<YuvFrame> = Vec::new();
    let mut k: usize = 0;
    while k < inputs.len()
        invariant
            k <= inputs@.len(),
            strides.wf_for(width as nat, height as nat),
            sequencer.width == width,
            sequencer.height == height,
            sequencer.next_pts == k,
            frames@.len() == k,
            forall|i: int|
                0 <= i < k ==> frame_plan(inputs@[i]@, width, height, strides) is Some,
            forall|i: int|
                0 <= i < k ==> {
                    &&& (#[trigger] frames@[i]).pts == i
                    &&& frames@[i].planes.wf()
                    &&& frames@[i].planes.width == width
                    &&& frames@[i].planes.height == height
                    &&& frames@[i].planes.strides == strides
                    &&& Some(
                        (
                            frames@[i].planes.y@,
                            frames@[i].planes.u@,
                            frames@[i].planes.v@,
                        ),
                    ) == frame_plan(inputs@[i]@, width, height, strides)
                },
        decreases inputs@.len() - k,
    {
        let img = match decode_rgb(&inputs[k]) {
            Ok(img) => img,
            Err(e) => {
                proof {
                    assert({
                        &&& 0 <= k < inputs@.len()
                        &&& frame_plan(inputs@[k as int]@, width, height, strides) is None
                        &&& forall|j: int|
                            0 <= j < k ==> frame_plan(inputs@[j]@, width, height, strides) is Some
                    });
                }
                return Err(e);
            }
        };
        let frame = sequencer.next_frame(img, strides);
        frames.push(frame);
        k += 1;
    }
    Ok(frames)
}

/// Law: the pixel pipeline is deterministic. Two runs over byte-for-byte
/// equal inputs, with the same geometry and strides, plan byte-identical YUV
/// planes (and the timestamp of each frame is its index by construction, so
/// the timestamp sequences agree too). Container bytes may still differ only
/// if the encoder itself is nondeterministic; the pixel side cannot.
pub proof fn lemma_pixel_pipeline_deterministic(
    a: Seq<u8>,
    b: Seq<u8>,
    width: u32,
    height: u32,
    strides: PlaneStrides,
)
    requires
        a == b,
    ensures
        frame_plan(a, width, height, strides) == frame_plan(b, width, height, strides),
{
}

} // verus!
