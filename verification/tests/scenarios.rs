use timelapse::driver::{plan_run, prepare_frames};
use timelapse::errors::PipelineError;
use timelapse::imgio::decode_rgb;
use timelapse::mux::{MuxStage, Muxer};
use timelapse::pump::{DrainEvent, DrainStep, EncodePump};
use timelapse::raster::Raster;
use timelapse::sequence::{probe_geometry, FrameSequencer};
use timelapse::yuv::PlaneStrides;

fn png_bytes(width: u32, height: u32, rgb: Vec<u8>) -> Vec<u8> {
    let img = image::RgbImage::from_raw(width, height, rgb).unwrap();
    let mut buf: Vec<u8> = Vec::new();
    img.write_to(&mut std::io::Cursor::new(&mut buf), image::ImageFormat::Png)
        .unwrap();
    buf
}

fn flat(width: u32, height: u32, r: u8, g: u8, b: u8) -> Vec<u8> {
    let mut data = Vec::new();
    for _ in 0..width * height {
        data.push(r);
        data.push(g);
        data.push(b);
    }
    data
}

#[test]
fn decode_roundtrip_preserves_pixels() {
    let rgb = vec![
        255, 0, 0, /* */ 0, 255, 0, //
        0, 0, 255, /* */ 7, 8, 9,
    ];
    let png = png_bytes(2, 2, rgb.clone());
    let img = decode_rgb(&png).unwrap();
    assert_eq!(img.width, 2);
    assert_eq!(img.height, 2);
    assert_eq!(img.data, rgb);
}

#[test]
fn probe_geometry_reads_dimensions() {
    let png = png_bytes(64, 48, flat(64, 48, 1, 2, 3));
    assert_eq!(probe_geometry(&png), Ok((64, 48)));
}

#[test]
fn corrupt_payload_fails_decode() {
    let mut png = png_bytes(8, 8, flat(8, 8, 1, 2, 3));
    png.truncate(20); // truncated image payload
    assert_eq!(decode_rgb(&png).err(), Some(PipelineError::DecodeError));
    assert_eq!(probe_geometry(&png).err(), Some(PipelineError::DecodeError));
}

#[test]
fn reconcile_is_noop_on_matching_geometry() {
    let rgb = Raster { width: 4, height: 2, data: flat(4, 2, 5, 6, 7) };
    let seq = FrameSequencer::with_geometry(4, 2);
    let out = seq.reconcile(rgb);
    assert_eq!(out.width, 4);
    assert_eq!(out.height, 2);
    assert_eq!(out.data, flat(4, 2, 5, 6, 7));
}

#[test]
fn reconcile_resizes_mismatched_raster() {
    let rgb = Raster { width: 8, height: 8, data: flat(8, 8, 10, 200, 30) };
    let seq = FrameSequencer::with_geometry(4, 2);
    let out = seq.reconcile(rgb);
    assert_eq!(out.width, 4);
    assert_eq!(out.height, 2);
    assert_eq!(out.data.len(), 3 * 4 * 2);
    // A flat image stays flat under Lanczos resampling, up to float rounding;
    // in particular the result is not the input buffer handed back.
    for px in out.data.chunks(3) {
        assert!(px[0].abs_diff(10) <= 1);
        assert!(px[1].abs_diff(200) <= 1);
        assert!(px[2].abs_diff(30) <= 1);
    }
}

#[test]
fn scenario_three_identical_pngs() {
    // Three 64x48 images, fps 5: exactly 3 frames, timestamps 0, 1, 2, and a
    // pump whose time base denominator is the requested rate.
    let names = vec![
        b"img2.png".to_vec(),
        b"img0.png".to_vec(),
        b"img1.png".to_vec(),
        b"notes.txt".to_vec(),
    ];
    let plan = plan_run(names).unwrap();
    assert_eq!(
        plan,
        vec![b"img0.png".to_vec(), b"img1.png".to_vec(), b"img2.png".to_vec()]
    );

    let inputs = vec![
        png_bytes(64, 48, flat(64, 48, 200, 0, 0)),
        png_bytes(64, 48, flat(64, 48, 0, 200, 0)),
        png_bytes(64, 48, flat(64, 48, 0, 0, 200)),
    ];
    let (w, h) = probe_geometry(&inputs[0]).unwrap();
    assert_eq!((w, h), (64, 48));
    let strides = PlaneStrides { y: 64, u: 32, v: 32 };
    let frames = prepare_frames(&inputs, w, h, strides).unwrap();
    assert_eq!(frames.len(), 3);
    for (i, f) in frames.iter().enumerate() {
        assert_eq!(f.pts, i as u64);
        assert_eq!(f.planes.width, 64);
        assert_eq!(f.planes.height, 48);
        assert_eq!(f.planes.y.len(), 64 * 48);
        assert_eq!(f.planes.u.len(), 32 * 24);
    }

    let mut pump = EncodePump::configure(w, h, 5);
    assert_eq!(pump.fps, 5); // time base 1/5
    pump.open();
    let mut mux = Muxer::open();
    mux.write_header();
    for f in frames.iter() {
        assert_eq!(pump.submit_frame(f), Ok(()));
        // the encoder buffers internally: "no packet ready" is normal
        assert_eq!(pump.on_drain_event(DrainEvent::Again), Ok(DrainStep::Stop));
    }
    pump.flush();
    // after the flush the encoder yields the buffered packets, then EOS
    for _ in 0..3 {
        assert_eq!(pump.on_drain_event(DrainEvent::Packet), Ok(DrainStep::Forward));
        mux.record_packet();
    }
    assert_eq!(
        pump.on_drain_event(DrainEvent::EndOfStream),
        Ok(DrainStep::Finished)
    );
    mux.write_trailer();
    assert_eq!(mux.packets, 3);
    assert_eq!(mux.stage, MuxStage::TrailerWritten);
}

#[test]
fn scenario_mixed_geometry_resizes_second() {
    let inputs = vec![
        png_bytes(64, 48, flat(64, 48, 9, 9, 9)),
        png_bytes(32, 24, flat(32, 24, 9, 9, 9)),
    ];
    let (w, h) = probe_geometry(&inputs[0]).unwrap();
    assert_eq!((w, h), (64, 48));
    let strides = PlaneStrides { y: 64, u: 32, v: 32 };
    let frames = prepare_frames(&inputs, w, h, strides).unwrap();
    assert_eq!(frames.len(), 2);
    for f in frames.iter() {
        assert_eq!(f.planes.width, 64);
        assert_eq!(f.planes.height, 48);
        assert_eq!(f.planes.y.len(), 64 * 48);
    }
}

#[test]
fn scenario_empty_directory_is_benign() {
    // No candidate at all: a benign EmptyInput outcome — the run does no
    // output work and never touches a container or an encoder.
    assert_eq!(plan_run(Vec::new()).err(), Some(PipelineError::EmptyInput));
    assert_eq!(
        plan_run(vec![b"readme.txt".to_vec(), b"a.mp4".to_vec()]).err(),
        Some(PipelineError::EmptyInput)
    );
}

#[test]
fn scenario_corrupt_file_aborts_without_trailer() {
    let good = png_bytes(16, 16, flat(16, 16, 3, 3, 3));
    let mut bad = png_bytes(16, 16, flat(16, 16, 4, 4, 4));
    bad.truncate(30);
    let inputs = vec![good, bad];

    let mut mux = Muxer::open();
    mux.write_header();
    let res = prepare_frames(&inputs, 16, 16, PlaneStrides { y: 16, u: 8, v: 8 });
    assert_eq!(res.err(), Some(PipelineError::DecodeError));
    // The run aborts before the trailer: the container stays incomplete.
    assert_eq!(mux.stage, MuxStage::HeaderWritten);
}

#[test]
fn pixel_pipeline_is_idempotent() {
    let inputs = vec![
        png_bytes(20, 10, flat(20, 10, 250, 1, 128)),
        png_bytes(10, 20, flat(10, 20, 0, 77, 255)),
    ];
    let strides = PlaneStrides { y: 24, u: 12, v: 12 };
    let first = prepare_frames(&inputs, 20, 10, strides).unwrap();
    let second = prepare_frames(&inputs, 20, 10, strides).unwrap();
    assert_eq!(first.len(), second.len());
    for (a, b) in first.iter().zip(second.iter()) {
        assert_eq!(a.pts, b.pts);
        assert_eq!(a.planes.y, b.planes.y);
        assert_eq!(a.planes.u, b.planes.u);
        assert_eq!(a.planes.v, b.planes.v);
    }
}
