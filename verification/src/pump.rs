use vstd::prelude::*;
use crate::errors::PipelineError;
use crate::yuv::YuvFrame;

verus! {

/// The encoder's lifecycle as the pump tracks it.
#[derive(Clone, Copy, Debug, PartialEq, Eq, Structural)]
pub enum PumpState {
    /// Created with its configuration; the codec is not open yet.
    Configured,
    /// The codec is open: frames may be submitted, packets drained.
    Active,
    /// End of stream was signalled: no more frames, only draining.
    Flushing,
    /// The end-of-stream condition came back from a drain: all done.
    Closed,
}

/// What one poll of the encoder for a packet reported. The unverified shell
/// maps the codec's return conditions onto these.
#[derive(Clone, Copy, Debug, PartialEq, Eq, Structural)]
pub enum DrainEvent {
    /// A compressed packet is ready.
    Packet,
    /// No packet is ready right now; more input is needed. A normal polling
    /// outcome, never an error.
    Again,
    /// The encoder has emitted everything it ever will.
    EndOfStream,
    /// Any other condition: a hard failure.
    Fatal,
}

/// What the driver must do with the poll outcome.
#[derive(Clone, Copy, Debug, PartialEq, Eq, Structural)]
pub enum DrainStep {
    /// Write the packet to the container, in arrival order, and poll again.
    Forward,
    /// Stop polling for now; more frames may be submitted.
    Stop,
    /// The stream is complete; nothing more will ever be drained.
    Finished,
}

/// Owns the encoder's state machine: accepts raw YUV frames, and drives the
/// submit/drain protocol, including the final flush with no further input.
///
/// The codec itself lives outside; the pump decides which calls are legal and
/// what each drain outcome means, and counts submitted frames so that
/// presentation timestamps are consecutive from 0.
pub struct EncodePump {
    pub state: PumpState,
    pub width: u32,
    pub height: u32,
    pub fps: u32,
    pub submitted: u64,
}

impl EncodePump {
    /// Draining is legal only once a frame has been submitted or the stream
    /// has been flushed.
    pub open spec fn can_drain(self) -> bool {
        (self.state is Active && self.submitted > 0) || self.state is Flushing
    }

    /// Frames are accepted only while the pump is active.
    pub open spec fn can_submit(self) -> bool {
        self.state is Active
    }

    /// A pump configured for the given geometry and frame rate; the stream
    /// time base is 1/fps, so consecutive integer timestamps give successive
    /// frames at that rate.
    pub fn configure(width: u32, height: u32, fps: u32) -> (p: Self)
        requires
            fps >= 1,
        ensures
            p.state is Configured,
            p.width == width,
            p.height == height,
            p.fps == fps,
            p.submitted == 0,
    {
        EncodePump { state: PumpState::Configured, width, height, fps, submitted: 0 }
    }

    /// Records that the codec was opened: the pump becomes active. The shell
    /// makes the codec call and invokes this only on its success.
    pub fn open(&mut self)
        requires
            old(self).state is Configured,
        ensures
            *final(self) == (EncodePump { state: PumpState::Active, ..*old(self) }),
    {
        self.state = PumpState::Active;
    }

    /// Accepts one frame for encoding. Valid only while active; the frame
    /// must carry the configured geometry and the next consecutive timestamp,
    /// else the encoder would reject it. The caller must attempt to drain
    /// after every submission.
    pub fn submit_frame(&mut self, frame: &YuvFrame) -> (res: Result<(), PipelineError>)
        requires
            old(self).can_submit(),
            old(self).submitted < u64::MAX,
        ensures
            res is Ok <==> (frame.pts == old(self).submitted && frame.planes.width == old(
                self,
            ).width && frame.planes.height == old(self).height),
            res is Ok ==> *final(self) == (EncodePump {
                submitted: (old(self).submitted + 1) as u64,
                ..*old(self)
            }),
            res matches Err(e) ==> e == PipelineError::EncoderError && *final(self) == *old(self),
            final(self).can_submit() == old(self).can_submit(),
    {
        if frame.pts != self.submitted || frame.planes.width != self.width
            || frame.planes.height != self.height {
            return Err(PipelineError::EncoderError);
        }
        self.submitted = self.submitted + 1;
        Ok(())
    }

    /// Signals that no further frames will be submitted. Valid exactly once:
    /// only an active pump can flush.
    pub fn flush(&mut self)
        requires
            old(self).can_submit(),
        ensures
            *final(self) == (EncodePump { state: PumpState::Flushing, ..*old(self) }),
            final(self).can_drain(),
            !final(self).can_submit(),
    {
        self.state = PumpState::Flushing;
    }

    /// Interprets one poll outcome of the drain loop.
    ///
    /// A packet is forwarded in arrival order; "no packet ready" stops the
    /// loop and is never an error; end of stream is valid only after the
    /// flush, and closes the pump; anything else is fatal and aborts the run.
    pub fn on_drain_event(&mut self, ev: DrainEvent) -> (res: Result<DrainStep, PipelineError>)
        requires
            old(self).can_drain(),
        ensures
            ev is Packet ==> res == Ok::<DrainStep, PipelineError>(DrainStep::Forward)
                && *final(self) == *old(self),
            ev is Again ==> res == Ok::<DrainStep, PipelineError>(DrainStep::Stop)
                && *final(self) == *old(self),
            ev is EndOfStream && old(self).state is Flushing ==> res == Ok::<
                DrainStep,
                PipelineError,
            >(DrainStep::Finished) && *final(self) == (EncodePump {
                state: PumpState::Closed,
                ..*old(self)
            }),
            ev is EndOfStream && !(old(self).state is Flushing) ==> res == Err::<
                DrainStep,
                PipelineError,
            >(PipelineError::EncoderError) && *final(self) == *old(self),
            ev is Fatal ==> res == Err::<DrainStep, PipelineError>(PipelineError::EncoderError)
                && *final(self) == *old(self),
    {
        match ev {
            DrainEvent::Packet => Ok(DrainStep::Forward),
            DrainEvent::Again => Ok(DrainStep::Stop),
            DrainEvent::EndOfStream => {
                if matches!(self.state, PumpState::Flushing) {
                    self.state = PumpState::Closed;
                    Ok(DrainStep::Finished)
                } else {
                    Err(PipelineError::EncoderError)
                }
            }
            DrainEvent::Fatal => Err(PipelineError::EncoderError),
        }
    }
}

/// Law: the drain sequence cannot return packets before a frame has been
/// submitted or the stream flushed — a pump that has seen neither refuses to
/// drain at all.
pub proof fn lemma_no_drain_before_input(p: EncodePump)
    requires
        p.state is Configured || (p.state is Active && p.submitted == 0),
    ensures
        !p.can_drain(),
{
}

/// Law: after `flush` no further frame is accepted — only an active pump
/// submits, and flushing leaves the active state for good.
pub proof fn lemma_no_submit_after_flush(p: EncodePump)
    requires
        !(p.state is Active),
    ensures
        !p.can_submit(),
{
}

/// Law: a closed pump is inert — once the end-of-stream condition has been
/// drained, nothing can be submitted or drained again.
pub proof fn lemma_closed_is_inert(p: EncodePump)
    requires
        p.state is Closed,
    ensures
        !p.can_submit(),
        !p.can_drain(),
{
}

} // verus!
