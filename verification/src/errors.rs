use vstd::prelude::*;

verus! {

/// Fatal failures of the format sniffer: the source buffer is unusable.
#[derive(Clone, Copy, PartialEq, Eq, Structural, Debug)]
pub enum SniffError {
    /// No known container signature matches the head of the buffer.
    UnknownFormat,
    /// The buffer carries a recognized signature but does not decode.
    DecodeFailed,
    /// The decoded dimensions do not fit the animated container's 16-bit fields.
    DimensionsOutOfRange,
}

/// Fatal failures of the mutation generator.
#[derive(Clone, Copy, PartialEq, Eq, Structural, Debug)]
pub enum MutationError {
    /// A zero-length source offers no byte offset to mutate.
    EmptySource,
}

/// Fatal failures of the frame assembler.
#[derive(Clone, Copy, PartialEq, Eq, Structural, Debug)]
pub enum AssemblyError {
    /// A frame could not be written into the output container.
    FrameWriteFailed,
}

/// Any fatal failure of the pipeline; per-candidate decode failures are
/// routine and never surface here.
#[derive(Clone, Copy, PartialEq, Eq, Structural, Debug)]
pub enum GlitchError {
    Sniff(SniffError),
    Mutation(MutationError),
    Assembly(AssemblyError),
}

} // verus!
