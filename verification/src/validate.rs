use vstd::prelude::*;
use crate::formats::{ImgFormat, decoded_of, decode_rgba};
use crate::mutate::Candidate;
use crate::FRAME_DELAY;

verus! {

/// A candidate that decoded successfully: its raw RGBA pixels in row-major
/// order at the sniffed dimensions, and its display delay.
#[derive(Clone, Debug)]
pub struct ValidFrame {
    pub pixels: Vec<u8>,
    pub width: u16,
    pub height: u16,
    pub delay: u16,
}

/// The pixels a candidate buffer contributes: some exactly when it decodes
/// under the sniffed format and its decoded dimensions equal the sniffed
/// ones, since every frame of the animated container shares them.
pub open spec fn frame_pixels(bytes: Seq<u8>, fmt: ImgFormat, width: u16, height: u16) -> Option<
    Seq<u8>,
> {
    match decoded_of(bytes, fmt) {
        Option::None => Option::None,
        Option::Some(dec) => if dec.0 == width as u32 && dec.1 == height as u32 {
            Option::Some(dec.2)
        } else {
            Option::None
        },
    }
}

/// The pixel buffers of the candidates that validate, in generation order:
/// validation drops a candidate but never reorders the survivors.
pub open spec fn valid_frames_of(
    cands: Seq<Seq<u8>>,
    fmt: ImgFormat,
    width: u16,
    height: u16,
) -> Seq<Seq<u8>>
    decreases cands.len(),
{
    if cands.len() == 0 {
        Seq::empty()
    } else {
        let rest = valid_frames_of(cands.drop_last(), fmt, width, height);
        match frame_pixels(cands.last(), fmt, width, height) {
            Option::Some(px) => rest.push(px),
            Option::None => rest,
        }
    }
}

/// The generation indices of the candidates that validate, in the order
/// their frames are kept.
pub open spec fn valid_indices_of(
    cands: Seq<Seq<u8>>,
    fmt: ImgFormat,
    width: u16,
    height: u16,
) -> Seq<int>
    decreases cands.len(),
{
    if cands.len() == 0 {
        Seq::empty()
    } else {
        let rest = valid_indices_of(cands.drop_last(), fmt, width, height);
        match frame_pixels(cands.last(), fmt, width, height) {
            Option::Some(px) => rest.push(cands.len() - 1),
            Option::None => rest,
        }
    }
}

/// Attempts a full decode of one candidate under the sniffed format; a
/// failed decode, or decoded dimensions that differ from the sniffed ones,
/// drops the candidate, which is routine and not an error.
pub fn validate(candidate: &Candidate, fmt: ImgFormat, width: u16, height: u16) -> (r: Option<
    ValidFrame,
>)
    ensures
        match frame_pixels(candidate.bytes@, fmt, width, height) {
            Option::Some(px) => r matches Some(f) && f.pixels@ == px && f.width == width
                && f.height == height && f.delay == FRAME_DELAY && px.len() == 4 * (width as int)
                * (height as int),
            Option::None => r is None,
        },
{
    let dec = match decode_rgba(candidate.bytes.as_slice(), fmt) {
        Some(d) => d,
        None => {
            return None;
        },
    };
    if dec.width == width as u32 && dec.height == height as u32 {
        Some(ValidFrame { pixels: dec.pixels, width: width, height: height, delay: FRAME_DELAY })
    } else {
        None
    }
}

/// Validates every candidate in generation order and keeps the survivors in
/// that same order.
pub fn validate_all(cands: &Vec<Candidate>, fmt: ImgFormat, width: u16, height: u16) -> (r: Vec<
    ValidFrame,
>)
    ensures
        ({
            let vfs = valid_frames_of(
                cands@.map_values(|c: Candidate| c.bytes@),
                fmt,
                width,
                height,
            );
            &&& r@.len() == vfs.len()
            &&& forall|j: int|
                0 <= j < r@.len() ==> (#[trigger] r@[j]).pixels@ == vfs[j] && r@[j].width == width
                    && r@[j].height == height && r@[j].delay == FRAME_DELAY && r@[j].pixels@.len()
                    == 4 * (width as int) * (height as int)
        }),
{
    let ghost bseq = cands@.map_values(|c: Candidate| c.bytes@);
    let mut frames: Vec<ValidFrame> = Vec::new();
    let mut k: usize = 0;
    while k < cands.len()
        invariant
            k <= cands@.len(),
            bseq == cands@.map_values(|c: Candidate| c.bytes@),
            ({
                let vfs = valid_frames_of(bseq.take(k as int), fmt, width, height);
                &&& frames@.len() == vfs.len()
                &&& forall|j: int|
                    0 <= j < frames@.len() ==> (#[trigger] frames@[j]).pixels@ == vfs[j]
                        && frames@[j].width == width && frames@[j].height == height
                        && frames@[j].delay == FRAME_DELAY && frames@[j].pixels@.len() == 4 * (
                        width as int) * (height as int)
            }),
        decreases cands@.len() - k,
    {
        proof {
            assert(bseq.take(k + 1).drop_last() =~= bseq.take(k as int));
            assert(bseq.take(k + 1).last() == bseq[k as int]);
            assert(bseq[k as int] == cands@[k as int].bytes@);
        }
        match validate(&cands[k], fmt, width, height) {
            Some(frame) => {
                frames.push(frame);
            },
            None => {},
        }
        k = k + 1;
    }
    proof {
        assert(bseq.take(cands@.len() as int) =~= bseq);
    }
    frames
}

/// Original frame first: whenever the first candidate (the unmodified
/// original) validates, the validated sequence is non-empty and its first
/// frame is exactly that candidate's decode.
pub proof fn lemma_original_frame_first(cands: Seq<Seq<u8>>, fmt: ImgFormat, width: u16, height: u16)
    requires
        cands.len() >= 1,
        frame_pixels(cands[0], fmt, width, height) is Some,
    ensures
        valid_frames_of(cands, fmt, width, height).len() >= 1,
        valid_frames_of(cands, fmt, width, height)[0] == frame_pixels(
            cands[0],
            fmt,
            width,
            height,
        ).unwrap(),
    decreases cands.len(),
{
    if cands.len() == 1 {
        assert(cands.drop_last() =~= Seq::<Seq<u8>>::empty());
        assert(cands.last() == cands[0]);
        assert(valid_frames_of(cands.drop_last(), fmt, width, height) =~= Seq::<Seq<u8>>::empty());
        assert(valid_frames_of(cands, fmt, width, height) == Seq::<Seq<u8>>::empty().push(
            frame_pixels(cands[0], fmt, width, height).unwrap(),
        ));
    } else {
        assert(cands.drop_last()[0] == cands[0]);
        lemma_original_frame_first(cands.drop_last(), fmt, width, height);
        let rest = valid_frames_of(cands.drop_last(), fmt, width, height);
        match frame_pixels(cands.last(), fmt, width, height) {
            Option::Some(px) => {
                assert(valid_frames_of(cands, fmt, width, height) == rest.push(px));
                assert(rest.push(px)[0] == rest[0]);
            },
            Option::None => {
                assert(valid_frames_of(cands, fmt, width, height) == rest);
            },
        }
    }
}

/// Order preservation: each kept frame carries the generation index of the
/// candidate it came from, those indices are strictly ascending, and a frame
/// at an earlier position always stems from an earlier candidate.
pub proof fn lemma_order_preservation(cands: Seq<Seq<u8>>, fmt: ImgFormat, width: u16, height: u16)
    ensures
        ({
            let frames = valid_frames_of(cands, fmt, width, height);
            let idxs = valid_indices_of(cands, fmt, width, height);
            &&& idxs.len() == frames.len()
            &&& forall|j: int|
                0 <= j < idxs.len() ==> 0 <= #[trigger] idxs[j] < cands.len() && frame_pixels(
                    cands[idxs[j]],
                    fmt,
                    width,
                    height,
                ) == Option::Some(frames[j])
            &&& forall|j: int, k: int|
                0 <= j < k < idxs.len() ==> #[trigger] idxs[j] < #[trigger] idxs[k]
        }),
    decreases cands.len(),
{
    if cands.len() == 0 {
    } else {
        lemma_order_preservation(cands.drop_last(), fmt, width, height);
        assert forall|j: int| 0 <= j < cands.len() - 1 implies #[trigger] cands.drop_last()[j]
            == cands[j] by {}
    }
}

} // verus!
