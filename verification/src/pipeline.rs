use vstd::prelude::*;
use crate::assemble::{assemble, written_frames};
use crate::errors::{GlitchError, SniffError};
use crate::formats::{ImgFormat, decoded_of, sniff, sniff_spec};
use crate::mutate::{candidate_seq, generate_candidates, Candidate};
use crate::rng::random_picks;
use crate::sink::gif_encoding;
use crate::validate::{lemma_original_frame_first, valid_frames_of, validate_all, ValidFrame};
use crate::{CANDIDATE_COUNT, FRAME_CAP, FRAME_DELAY};

verus! {

/// What one run reports beside its output; observability only, the
/// functional result is the byte buffer.
#[derive(Clone, Copy, PartialEq, Eq, Structural, Debug)]
pub struct GlitchReport {
    /// The source was not the one format this pipeline is validated against.
    pub format_warning: bool,
    /// How many candidate buffers were generated, the original included.
    pub candidates: usize,
    /// How many candidates decoded successfully.
    pub valid: usize,
    /// How many frames the output animation holds.
    pub written: usize,
}

/// The pixel buffers of the candidates of one run that validate, in
/// generation order; meaningful whenever the sniff succeeds.
pub open spec fn glitch_frames(bytes: Seq<u8>, picks: Seq<(usize, u8)>) -> Seq<Seq<u8>> {
    let sniffed = sniff_spec(bytes).unwrap();
    valid_frames_of(candidate_seq(bytes, picks), sniffed.0, sniffed.1, sniffed.2)
}

/// The output bytes of one run with the given picks: the validated frames,
/// capped, each at the fixed delay, in one animated container at the
/// sniffed dimensions.
pub open spec fn output_spec(bytes: Seq<u8>, picks: Seq<(usize, u8)>, cap: int) -> Seq<u8> {
    let sniffed = sniff_spec(bytes).unwrap();
    gif_encoding(
        sniffed.1,
        sniffed.2,
        written_frames(
            glitch_frames(bytes, picks).map_values(|px: Seq<u8>| (px, FRAME_DELAY)),
            sniffed.1,
            sniffed.2,
            cap,
        ),
    )
}

/// Determinism of structure: whenever the sniff succeeds, the validated
/// sequence of any run is non-empty and opens with the source image's own
/// decode, whatever the picks; the unmodified original is always frame 0.
pub proof fn lemma_first_frame_is_source(bytes: Seq<u8>, picks: Seq<(usize, u8)>)
    requires
        sniff_spec(bytes) is Ok,
    ensures
        glitch_frames(bytes, picks).len() >= 1,
        glitch_frames(bytes, picks)[0] == decoded_of(bytes, sniff_spec(bytes)->Ok_0.0).unwrap().2,
{
    let sniffed = sniff_spec(bytes)->Ok_0;
    let dec = decoded_of(bytes, sniffed.0).unwrap();
    assert(dec.0 <= 0xFFFF && dec.1 <= 0xFFFF);
    assert(sniffed.1 as u32 == dec.0 && sniffed.2 as u32 == dec.1);
    assert(candidate_seq(bytes, picks)[0] == bytes);
    lemma_original_frame_first(candidate_seq(bytes, picks), sniffed.0, sniffed.1, sniffed.2);
}

/// Bounded count: a run writes exactly the smaller of the validated frame
/// count and the cap into the container, and at least one candidate — the
/// unmodified original — validates whenever the source itself decodes.
pub proof fn lemma_bounded_count(bytes: Seq<u8>, picks: Seq<(usize, u8)>, cap: int)
    requires
        sniff_spec(bytes) is Ok,
        cap >= 0,
    ensures
        glitch_frames(bytes, picks).len() >= 1,
        ({
            let sniffed = sniff_spec(bytes)->Ok_0;
            let valid = glitch_frames(bytes, picks).len() as int;
            let records = written_frames(
                glitch_frames(bytes, picks).map_values(|px: Seq<u8>| (px, FRAME_DELAY)),
                sniffed.1,
                sniffed.2,
                cap,
            );
            records.len() == if cap < valid {
                cap
            } else {
                valid
            }
        }),
{
    lemma_first_frame_is_source(bytes, picks);
}

/// Runs the whole pipeline with explicit mutation picks, so a caller can
/// inject a deterministic random source: sniff the source, generate one
/// candidate per pick after the original, validate each candidate, and
/// assemble at most `cap` surviving frames in generation order.
pub fn generate_with_picks(buff: &[u8], picks: &[(usize, u8)], cap: usize) -> (r: Result<
    (Vec<u8>, GlitchReport),
    GlitchError,
>)
    requires
        forall|i: int| 0 <= i < picks@.len() ==> (#[trigger] picks@[i]).0 < buff@.len(),
    ensures
        sniff_spec(buff@) is Err ==> r is Err && r->Err_0 == GlitchError::Sniff(
            sniff_spec(buff@)->Err_0,
        ),
        buff@.len() == 0 ==> r is Err && r->Err_0 == GlitchError::Sniff(SniffError::UnknownFormat),
        sniff_spec(buff@) is Ok && r is Err ==> r->Err_0 == GlitchError::Assembly(
            crate::errors::AssemblyError::FrameWriteFailed,
        ),
        sniff_spec(buff@) is Ok && r is Ok ==> ({
            let out = r->Ok_0.0;
            let rep = r->Ok_0.1;
            &&& out@ == output_spec(buff@, picks@, cap as int)
            &&& rep.candidates == picks@.len() + 1
            &&& rep.valid == glitch_frames(buff@, picks@).len()
            &&& rep.valid >= 1
            &&& rep.written == if rep.valid < cap {
                rep.valid as int
            } else {
                cap as int
            }
            &&& rep.format_warning == (sniff_spec(buff@)->Ok_0.0 != ImgFormat::Jpeg)
        }),
{
    let (fmt, width, height) = match sniff(buff) {
        Ok(t) => t,
        Err(e) => {
            return Err(GlitchError::Sniff(e));
        },
    };
    let cands = match generate_candidates(buff, picks) {
        Ok(c) => c,
        Err(e) => {
            return Err(GlitchError::Mutation(e));
        },
    };
    let frames = validate_all(&cands, fmt, width, height);
    proof {
        assert(cands@.map_values(|c: Candidate| c.bytes@) =~= candidate_seq(buff@, picks@));
        lemma_first_frame_is_source(buff@, picks@);
    }
    let hint = if buff.len() <= usize::MAX / 960 {
        buff.len() * 960
    } else {
        buff.len()
    };
    let out = match assemble(&frames, width, height, cap, hint) {
        Ok(o) => o,
        Err(e) => {
            return Err(GlitchError::Assembly(e));
        },
    };
    proof {
        assert(frames@.map_values(|f: ValidFrame| (f.pixels@, f.delay)) =~= glitch_frames(
            buff@,
            picks@,
        ).map_values(|px: Seq<u8>| (px, FRAME_DELAY)));
    }
    let written = if frames.len() < cap {
        frames.len()
    } else {
        cap
    };
    let report = GlitchReport {
        format_warning: fmt != ImgFormat::Jpeg,
        candidates: cands.len(),
        valid: frames.len(),
        written: written,
    };
    Ok((out, report))
}

/// Runs the whole pipeline on one encoded still image, drawing the mutation
/// picks from the process's random source, and reports the counts beside
/// the output bytes.
pub fn generate_with_report(buff: &[u8]) -> (r: Result<(Vec<u8>, GlitchReport), GlitchError>)
    ensures
        sniff_spec(buff@) is Err ==> r is Err && r->Err_0 == GlitchError::Sniff(
            sniff_spec(buff@)->Err_0,
        ),
        buff@.len() == 0 ==> r is Err && r->Err_0 == GlitchError::Sniff(SniffError::UnknownFormat),
        sniff_spec(buff@) is Ok && r is Err ==> r->Err_0 == GlitchError::Assembly(
            crate::errors::AssemblyError::FrameWriteFailed,
        ),
        sniff_spec(buff@) is Ok && r is Ok ==> exists|picks: Seq<(usize, u8)>|
            {
                &&& picks.len() + 1 == CANDIDATE_COUNT
                &&& forall|i: int| 0 <= i < picks.len() ==> (#[trigger] picks[i]).0 < buff@.len()
                &&& #[trigger] output_spec(buff@, picks, FRAME_CAP as int) == r->Ok_0.0@
                &&& r->Ok_0.1.valid == glitch_frames(buff@, picks).len()
                &&& r->Ok_0.1.valid >= 1
            },
{
    match sniff(buff) {
        Ok(_) => {},
        Err(e) => {
            return Err(GlitchError::Sniff(e));
        },
    }
    let picks = random_picks(buff.len(), CANDIDATE_COUNT - 1);
    let r = generate_with_picks(buff, picks.as_slice(), FRAME_CAP);
    proof {
        if r is Ok {
            assert(output_spec(buff@, picks@, FRAME_CAP as int) == r->Ok_0.0@);
        }
    }
    r
}

/// The core entry point: one encoded still image in, one encoded animated
/// image out. Fatal sniff failures surface as the exact error; per-candidate
/// decode failures are silently dropped along the way.
pub fn generate(buff: &[u8]) -> (r: Result<Vec<u8>, GlitchError>)
    ensures
        sniff_spec(buff@) is Err ==> r is Err && r->Err_0 == GlitchError::Sniff(
            sniff_spec(buff@)->Err_0,
        ),
        buff@.len() == 0 ==> r is Err && r->Err_0 == GlitchError::Sniff(SniffError::UnknownFormat),
        sniff_spec(buff@) is Ok && r is Err ==> r->Err_0 == GlitchError::Assembly(
            crate::errors::AssemblyError::FrameWriteFailed,
        ),
        sniff_spec(buff@) is Ok && r is Ok ==> exists|picks: Seq<(usize, u8)>|
            {
                &&& picks.len() + 1 == CANDIDATE_COUNT
                &&& forall|i: int| 0 <= i < picks.len() ==> (#[trigger] picks[i]).0 < buff@.len()
                &&& #[trigger] output_spec(buff@, picks, FRAME_CAP as int) == r->Ok_0@
            },
{
    match generate_with_report(buff) {
        Ok((out, _)) => {
            proof {
                if sniff_spec(buff@) is Ok {
                    let picks = choose|picks: Seq<(usize, u8)>|
                        {
                            &&& picks.len() + 1 == CANDIDATE_COUNT
                            &&& forall|i: int|
                                0 <= i < picks.len() ==> (#[trigger] picks[i]).0 < buff@.len()
                            &&& #[trigger] output_spec(buff@, picks, FRAME_CAP as int) == out@
                        };
                    assert(output_spec(buff@, picks, FRAME_CAP as int) == out@);
                }
            }
            Ok(out)
        },
        Err(e) => Err(e),
    }
}

} // verus!
