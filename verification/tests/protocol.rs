use timelapse::errors::PipelineError;
use timelapse::mux::{MuxStage, Muxer};
use timelapse::pump::{DrainEvent, DrainStep, EncodePump, PumpState};
use timelapse::raster::Raster;
use timelapse::yuv::{convert, PlaneStrides, YuvFrame};

fn frame(width: u32, height: u32, pts: u64) -> YuvFrame {
    let rgb = Raster { width, height, data: vec![128; (3 * width * height) as usize] };
    let strides = PlaneStrides { y: width as usize, u: ((width as usize) + 1) / 2, v: ((width as usize) + 1) / 2 };
    let planes = convert(&rgb, width, height, strides).unwrap();
    YuvFrame { planes, pts }
}

#[test]
fn pump_lifecycle_and_drain_protocol() {
    let mut pump = EncodePump::configure(2, 2, 5);
    assert_eq!(pump.state, PumpState::Configured);
    assert_eq!(pump.fps, 5);
    pump.open();
    assert_eq!(pump.state, PumpState::Active);

    assert_eq!(pump.submit_frame(&frame(2, 2, 0)), Ok(()));
    assert_eq!(pump.submitted, 1);
    assert_eq!(pump.on_drain_event(DrainEvent::Packet), Ok(DrainStep::Forward));
    assert_eq!(pump.on_drain_event(DrainEvent::Again), Ok(DrainStep::Stop));
    assert_eq!(pump.submit_frame(&frame(2, 2, 1)), Ok(()));

    pump.flush();
    assert_eq!(pump.state, PumpState::Flushing);
    assert_eq!(pump.on_drain_event(DrainEvent::Packet), Ok(DrainStep::Forward));
    assert_eq!(pump.on_drain_event(DrainEvent::EndOfStream), Ok(DrainStep::Finished));
    assert_eq!(pump.state, PumpState::Closed);
}

#[test]
fn pump_rejects_wrong_timestamp_or_geometry() {
    let mut pump = EncodePump::configure(2, 2, 10);
    pump.open();
    // The first frame must carry timestamp 0.
    assert_eq!(pump.submit_frame(&frame(2, 2, 1)), Err(PipelineError::EncoderError));
    assert_eq!(pump.submitted, 0);
    // A frame with the wrong geometry is rejected too.
    assert_eq!(pump.submit_frame(&frame(4, 2, 0)), Err(PipelineError::EncoderError));
    assert_eq!(pump.submit_frame(&frame(2, 2, 0)), Ok(()));
}

#[test]
fn end_of_stream_before_flush_is_fatal() {
    let mut pump = EncodePump::configure(2, 2, 10);
    pump.open();
    assert_eq!(pump.submit_frame(&frame(2, 2, 0)), Ok(()));
    // End of stream is only valid after the flush.
    assert_eq!(
        pump.on_drain_event(DrainEvent::EndOfStream),
        Err(PipelineError::EncoderError)
    );
    assert_eq!(pump.state, PumpState::Active);
    // Any other condition is a hard failure as well.
    assert_eq!(pump.on_drain_event(DrainEvent::Fatal), Err(PipelineError::EncoderError));
}

#[test]
fn muxer_lifecycle_counts_packets() {
    let mut mux = Muxer::open();
    assert_eq!(mux.stage, MuxStage::Opened);
    mux.write_header();
    assert_eq!(mux.stage, MuxStage::HeaderWritten);
    mux.record_packet();
    mux.record_packet();
    mux.record_packet();
    assert_eq!(mux.packets, 3);
    mux.write_trailer();
    assert_eq!(mux.stage, MuxStage::TrailerWritten);
    assert_eq!(mux.packets, 3);
}

#[test]
fn error_descriptions_name_the_stage() {
    assert_eq!(PipelineError::EmptyInput.describe(), "no candidate images found");
    assert_eq!(PipelineError::DecodeError.describe(), "could not decode an input image");
    assert_eq!(
        PipelineError::DimensionMismatch.describe(),
        "raster dimensions differ from the target geometry"
    );
    assert_eq!(PipelineError::EncoderError.describe(), "the encoder reported a fatal condition");
    assert_eq!(
        PipelineError::OutputError.describe(),
        "the output container could not be written"
    );
}
