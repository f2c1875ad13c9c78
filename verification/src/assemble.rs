use vstd::prelude::*;
use crate::errors::AssemblyError;
use crate::sink::{gif_encoding, quantized_of, quantize_rgba, sink_dims, sink_finish, sink_frames,
    sink_intact, sink_new, write_indexed};
use crate::validate::ValidFrame;

verus! {

/// One frame as it is written into the container: the deterministic
/// palette reduction of its pixels, together with its delay.
pub open spec fn encoded_frame(width: u16, height: u16, pixels: Seq<u8>, delay: u16) -> (
    Seq<u8>,
    Seq<u8>,
    Option<u8>,
    u16,
) {
    let q = quantized_of(width, height, pixels);
    (q.0, q.1, q.2, delay)
}

/// The frame records of the first `cap` validated frames, in order; with
/// fewer than `cap` frames, of all of them.
pub open spec fn written_frames(
    frames: Seq<(Seq<u8>, u16)>,
    width: u16,
    height: u16,
    cap: int,
) -> Seq<(Seq<u8>, Seq<u8>, Option<u8>, u16)> {
    Seq::new(
        if cap < frames.len() as int {
            cap as nat
        } else {
            frames.len()
        },
        |j: int| encoded_frame(width, height, frames[j].0, frames[j].1),
    )
}

/// Encodes the first `cap` validated frames, in their given order, into one
/// animated container at the given dimensions. The byte sink is pre-sized to
/// `capacity_hint` purely to avoid reallocation; the hint being wrong in
/// either direction never truncates the output. A structural failure while
/// writing any frame is fatal and nothing partial is returned.
pub fn assemble(
    frames: &Vec<ValidFrame>,
    width: u16,
    height: u16,
    cap: usize,
    capacity_hint: usize,
) -> (r: Result<Vec<u8>, AssemblyError>)
    requires
        forall|i: int|
            0 <= i < frames@.len() ==> (#[trigger] frames@[i]).pixels@.len() == 4 * (width as int)
                * (height as int),
    ensures
        r matches Ok(out) ==> out@ == gif_encoding(
            width,
            height,
            written_frames(
                frames@.map_values(|f: ValidFrame| (f.pixels@, f.delay)),
                width,
                height,
                cap as int,
            ),
        ),
        r is Err ==> r->Err_0 == AssemblyError::FrameWriteFailed,
{
    let ghost fseq = frames@.map_values(|f: ValidFrame| (f.pixels@, f.delay));
    let mut sink = match sink_new(width, height, capacity_hint) {
        Some(s) => s,
        None => {
            return Err(AssemblyError::FrameWriteFailed);
        },
    };
    let count = if cap < frames.len() {
        cap
    } else {
        frames.len()
    };
    let mut k: usize = 0;
    while k < count
        invariant
            count == if cap < frames@.len() {
                cap as int
            } else {
                frames@.len() as int
            },
            k <= count,
            fseq == frames@.map_values(|f: ValidFrame| (f.pixels@, f.delay)),
            forall|i: int|
                0 <= i < frames@.len() ==> (#[trigger] frames@[i]).pixels@.len() == 4 * (
                width as int) * (height as int),
            sink_dims(sink) == (width, height),
            sink_intact(sink),
            sink_frames(sink) == written_frames(fseq, width, height, k as int),
        decreases count - k,
    {
        let frame = &frames[k];
        let (palette, indices, transparent) = quantize_rgba(width, height, &frame.pixels);
        match write_indexed(&mut sink, &palette, &indices, transparent, frame.delay) {
            Ok(_) => {},
            Err(e) => {
                return Err(e);
            },
        }
        proof {
            assert(fseq[k as int] == (frame.pixels@, frame.delay));
            assert(written_frames(fseq, width, height, k + 1) =~= written_frames(
                fseq,
                width,
                height,
                k as int,
            ).push(encoded_frame(width, height, fseq[k as int].0, fseq[k as int].1)));
        }
        k = k + 1;
    }
    proof {
        assert(written_frames(fseq, width, height, count as int) =~= written_frames(
            fseq,
            width,
            height,
            cap as int,
        ));
    }
    Ok(sink_finish(sink))
}

} // verus!
