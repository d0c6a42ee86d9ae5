use timelapse::errors::PipelineError;
use timelapse::raster::Raster;
use timelapse::yuv::{chroma_u_val, chroma_v_val, convert, luma_val, PlaneStrides};

fn raster(width: u32, height: u32, data: Vec<u8>) -> Raster {
    assert_eq!(data.len(), (3 * width * height) as usize);
    Raster { width, height, data }
}

#[test]
fn luma_exact_values() {
    // trunc(0.257 R + 0.504 G + 0.098 B + 16)
    assert_eq!(luma_val(0, 0, 0), 16);
    assert_eq!(luma_val(255, 255, 255), 235);
    assert_eq!(luma_val(255, 0, 0), 81); // (65535 + 16000) / 1000
    assert_eq!(luma_val(0, 255, 0), 144); // (128520 + 16000) / 1000
    assert_eq!(luma_val(0, 0, 255), 40); // (24990 + 16000) / 1000
    assert_eq!(luma_val(100, 50, 25), 69); // (25700 + 25200 + 2450 + 16000) / 1000
}

#[test]
fn luma_bounded_for_extremes() {
    for &r in &[0u8, 1, 127, 254, 255] {
        for &g in &[0u8, 1, 127, 254, 255] {
            for &b in &[0u8, 1, 127, 254, 255] {
                let y = luma_val(r, g, b);
                assert!((16..=235).contains(&y));
            }
        }
    }
}

#[test]
fn chroma_exact_values() {
    // U = trunc(-0.148 R - 0.291 G + 0.439 B + 128)
    // V = trunc(0.439 R - 0.368 G - 0.071 B + 128)
    assert_eq!(chroma_u_val(0, 0, 0), 128);
    assert_eq!(chroma_u_val(255, 255, 255), 128);
    assert_eq!(chroma_u_val(0, 0, 255), 239);
    assert_eq!(chroma_u_val(255, 255, 0), 16);
    assert_eq!(chroma_v_val(0, 0, 0), 128);
    assert_eq!(chroma_v_val(255, 255, 255), 128);
    assert_eq!(chroma_v_val(255, 0, 0), 239);
    assert_eq!(chroma_v_val(0, 255, 255), 16);
}

#[test]
fn convert_two_by_two() {
    // Pixels: (0,0) red, (0,1) green, (1,0) blue, (1,1) white.
    let rgb = raster(
        2,
        2,
        vec![
            255, 0, 0, /* */ 0, 255, 0, //
            0, 0, 255, /* */ 255, 255, 255,
        ],
    );
    let strides = PlaneStrides { y: 2, u: 1, v: 1 };
    let p = convert(&rgb, 2, 2, strides).unwrap();
    assert_eq!(p.y, vec![81, 144, 40, 235]);
    // Chroma point-samples the top-left pixel of the single 2x2 block: red.
    assert_eq!(p.u, vec![90]); // trunc(-0.148*255 + 128) = trunc(90.26)
    assert_eq!(p.v, vec![239]);
}

#[test]
fn convert_padded_strides_zero_filled() {
    let rgb = raster(2, 2, vec![255, 255, 255, 255, 255, 255, 255, 255, 255, 255, 255, 255]);
    let strides = PlaneStrides { y: 5, u: 3, v: 4 };
    let p = convert(&rgb, 2, 2, strides).unwrap();
    assert_eq!(p.y.len(), 2 * 5);
    assert_eq!(p.y, vec![235, 235, 0, 0, 0, 235, 235, 0, 0, 0]);
    assert_eq!(p.u, vec![128, 0, 0]);
    assert_eq!(p.v, vec![128, 0, 0, 0]);
}

#[test]
fn chroma_plane_rows_even_and_odd_height() {
    // Even height: 2 rows of chroma for height 4; odd height 3: exactly 1 row,
    // the last odd row is excluded from chroma sampling.
    let even = raster(2, 4, vec![9; 24]);
    let p = convert(&even, 2, 4, PlaneStrides { y: 2, u: 1, v: 1 }).unwrap();
    assert_eq!(p.u.len(), 2);
    assert_eq!(p.v.len(), 2);

    let odd = raster(3, 3, vec![9; 27]);
    let q = convert(&odd, 3, 3, PlaneStrides { y: 3, u: 2, v: 2 }).unwrap();
    // chroma columns round up (2 for width 3), rows truncate (1 for height 3)
    assert_eq!(q.u.len(), 1 * 2);
    assert_eq!(q.v.len(), 1 * 2);
    assert_eq!(q.y.len(), 9);
}

#[test]
fn convert_rejects_dimension_mismatch() {
    let rgb = raster(2, 2, vec![0; 12]);
    let strides = PlaneStrides { y: 4, u: 2, v: 2 };
    let res = convert(&rgb, 4, 2, strides);
    assert_eq!(res.err(), Some(PipelineError::DimensionMismatch));
    let res2 = convert(&rgb, 2, 3, PlaneStrides { y: 2, u: 1, v: 1 });
    assert_eq!(res2.err(), Some(PipelineError::DimensionMismatch));
    // Matching geometry is accepted.
    assert!(convert(&rgb, 2, 2, PlaneStrides { y: 2, u: 1, v: 1 }).is_ok());
}
