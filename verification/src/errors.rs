use vstd::prelude::*;

verus! {

/// Error taxonomy of the pipeline.
///
/// `EmptyInput` is benign: the run performs no output work and reports
/// success. All the others are fatal and abort the run immediately.
#[derive(Clone, Copy, Debug, PartialEq, Eq, Structural)]
pub enum PipelineError {
    /// No candidate image was found: a non-error no-op outcome.
    EmptyInput,
    /// An input file could not be decoded as an image.
    DecodeError,
    /// A raster reached the pixel converter with dimensions that differ
    /// from the target geometry.
    DimensionMismatch,
    /// The encoder rejected its configuration, a frame, or signalled a
    /// non-retryable condition.
    EncoderError,
    /// The container could not be created or written.
    OutputError,
}

impl PipelineError {
    /// A short diagnostic label for the error.
    pub fn describe(&self) -> (r: &'static str)
        ensures
            self is EmptyInput ==> r@ == "no candidate images found"@,
            self is DecodeError ==> r@ == "could not decode an input image"@,
            self is DimensionMismatch ==> r@ == "raster dimensions differ from the target geometry"@,
            self is EncoderError ==> r@ == "the encoder reported a fatal condition"@,
            self is OutputError ==> r@ == "the output container could not be written"@,
    {
        match self {
            PipelineError::EmptyInput => "no candidate images found",
            PipelineError::DecodeError => "could not decode an input image",
            PipelineError::DimensionMismatch => "raster dimensions differ from the target geometry",
            PipelineError::EncoderError => "the encoder reported a fatal condition",
            PipelineError::OutputError => "the output container could not be written",
        }
    }
}

} // verus!
