//! Turns an ordered set of still images into one compressed video at a fixed
//! frame rate. The verified core is the RGB to planar YUV 4:2:0 pixel
//! conversion, the file selection and ordering rules, the frame sequencing
//! (geometry reconciliation and presentation timestamps), and the protocol
//! state machines for the encoder drain loop and the container lifecycle.

pub mod driver;
pub mod errors;
pub mod imgio;
pub mod mux;
pub mod order;
pub mod pump;
pub mod raster;
pub mod sequence;
pub mod yuv;
