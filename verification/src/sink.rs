use vstd::prelude::*;
use crate::errors::AssemblyError;

verus! {

/// The output container under construction. It owns the encoder of the gif
/// crate together with its byte sink; the logic sees it only through the
/// spec-level names below.
#[verifier::external_body]
pub struct GifSink {
    enc: gif::Encoder<Vec<u8>>,
    width: u16,
    height: u16,
}

/// The logical screen dimensions the sink was created with.
pub uninterp spec fn sink_dims(s: GifSink) -> (u16, u16);

/// The frame records fully written into the sink so far: for each, its local
/// color palette as flat R, G, B triples, its indexed pixel buffer, its
/// transparent index if any, and its delay.
pub uninterp spec fn sink_frames(s: GifSink) -> Seq<(Seq<u8>, Seq<u8>, Option<u8>, u16)>;

/// Whether the underlying byte stream is exactly the container header
/// followed by the written frame records. A failed frame write may leave a
/// partial record behind, after which nothing more is known of the stream.
pub uninterp spec fn sink_intact(s: GifSink) -> bool;

/// The bytes of the finished container that holds the given frame records at
/// the given screen dimensions, with no global color table. The gif crate
/// encodes deterministically, so this is a function of these alone.
pub uninterp spec fn gif_encoding(
    width: u16,
    height: u16,
    frames: Seq<(Seq<u8>, Seq<u8>, Option<u8>, u16)>,
) -> Seq<u8>;

/// Relies on gif::Encoder::new: it writes the screen descriptor for the
/// given dimensions, with an empty global palette, into a byte sink reserved
/// at the given capacity. The capacity is a performance hint only; the sink
/// grows transparently beyond it.
#[verifier::external_body]
pub(crate) fn sink_new(width: u16, height: u16, capacity: usize) -> (r: Option<GifSink>)
    ensures
        r is Some ==> sink_dims(r.unwrap()) == (width, height),
        r is Some ==> sink_frames(r.unwrap()).len() == 0,
        r is Some ==> sink_intact(r.unwrap()),
{
    match gif::Encoder::new(Vec::with_capacity(capacity), width, height, &[]) {
        Ok(enc) => Some(GifSink { enc, width, height }),
        Err(_) => None,
    }
}

/// Relies on gif::Frame::from_rgba, whose result depends on the arguments
/// alone: it reduces an RGBA buffer of exactly width * height * 4 bytes
/// (anything else panics, which the precondition rules out) to one palette
/// index per pixel. It builds an exact sorted palette when at most 256
/// distinct pixel values occur and quantizes deterministically otherwise;
/// the palette holds at most 256 whole R, G, B triples.
#[verifier::external_body]
pub(crate) fn quantize_rgba(width: u16, height: u16, pixels: &Vec<u8>) -> (r: (
    Vec<u8>,
    Vec<u8>,
    Option<u8>,
))
    requires
        pixels@.len() == 4 * (width as int) * (height as int),
    ensures
        (r.0@, r.1@, r.2) == quantized_of(width, height, pixels@),
        r.1@.len() == (width as int) * (height as int),
        r.0@.len() % 3 == 0,
        r.0@.len() <= 768,
{
    let mut buf = pixels.clone();
    let frame = gif::Frame::from_rgba(width, height, &mut buf);
    (frame.palette.unwrap_or_default(), frame.buffer.into_owned(), frame.transparent)
}

/// What gif::Frame::from_rgba yields for the given dimensions and RGBA
/// buffer: the frame's local palette, its indexed pixel buffer, and its
/// transparent index if any pixel was fully transparent.
pub uninterp spec fn quantized_of(width: u16, height: u16, pixels: Seq<u8>) -> (
    Seq<u8>,
    Seq<u8>,
    Option<u8>,
);

/// Relies on gif::Encoder::write_frame: on success it appends exactly one
/// frame record at the sink's dimensions with the given palette, indexed
/// pixels, transparent index and delay; it returns an error rather than
/// panicking, and a failed write may leave a partial record in the stream.
#[verifier::external_body]
pub(crate) fn write_indexed(sink: &mut GifSink, palette: &Vec<u8>, indices: &Vec<u8>, transparent: Option<u8>, delay: u16) -> (r: Result<(), AssemblyError>)
    ensures
        sink_dims(*final(sink)) == sink_dims(*old(sink)),
        r is Ok ==> sink_frames(*final(sink)) == sink_frames(*old(sink)).push(
            (palette@, indices@, transparent, delay),
        ),
        r is Ok && sink_intact(*old(sink)) ==> sink_intact(*final(sink)),
        r is Err ==> r->Err_0 == AssemblyError::FrameWriteFailed,
{
    let mut frame = gif::Frame::default();
    frame.width = sink.width;
    frame.height = sink.height;
    frame.buffer = std::borrow::Cow::Borrowed(indices.as_slice());
    frame.palette = Some(palette.clone());
    frame.transparent = transparent;
    frame.delay = delay;
    match sink.enc.write_frame(&frame) {
        Ok(()) => Ok(()),
        Err(_) => Err(AssemblyError::FrameWriteFailed),
    }
}

/// Relies on gif::Encoder::into_inner: it writes the trailer and hands back
/// the byte sink, which for an intact sink then holds exactly the
/// deterministic encoding of the written frame records. Writing the trailer
/// into a Vec does not fail.
#[verifier::external_body]
pub(crate) fn sink_finish(sink: GifSink) -> (r: Vec<u8>)
    ensures
        sink_intact(sink) ==> r@ == gif_encoding(
            sink_dims(sink).0,
            sink_dims(sink).1,
            sink_frames(sink),
        ),
{
    match sink.enc.into_inner() {
        Ok(bytes) => bytes,
        Err(_) => Vec::new(),
    }
}

} // verus!
