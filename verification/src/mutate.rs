use vstd::prelude::*;
use vstd::slice::slice_to_vec;
use crate::errors::MutationError;

verus! {

/// One attempted input to the decode stage: the unmodified original
/// (`index` is `None`) or a copy of it with exactly one byte overwritten at
/// the recorded offset, kept only for diagnostics.
#[derive(Clone, Debug)]
pub struct Candidate {
    pub index: Option<usize>,
    pub bytes: Vec<u8>,
}

/// The candidate buffers that a source and a list of `(offset, value)` picks
/// generate: the original first, then one single-byte overwrite per pick,
/// each relative to the pristine original, never to an earlier mutation.
pub open spec fn candidate_seq(orig: Seq<u8>, picks: Seq<(usize, u8)>) -> Seq<Seq<u8>> {
    Seq::new(
        picks.len() + 1,
        |i: int| if i == 0 {
            orig
        } else {
            orig.update(picks[i - 1].0 as int, picks[i - 1].1)
        },
    )
}

/// Copies the original buffer and overwrites the byte at `offset` with `value`.
pub fn mutate_at(original: &[u8], offset: usize, value: u8) -> (r: Vec<u8>)
    requires
        offset < original@.len(),
    ensures
        r@ == original@.update(offset as int, value),
{
    let mut copy: Vec<u8> = slice_to_vec(original);
    copy[offset] = value;
    copy
}

/// A buffer made by one single-byte overwrite keeps its length, takes the
/// written value at the chosen offset, and agrees with the original
/// everywhere else; so whenever the written value differs from the byte it
/// replaces, the mutation differs from the original in exactly that offset.
pub proof fn lemma_single_byte_difference(orig: Seq<u8>, offset: int, value: u8)
    requires
        0 <= offset < orig.len(),
    ensures
        orig.update(offset, value).len() == orig.len(),
        orig.update(offset, value)[offset] == value,
        forall|j: int| 0 <= j < orig.len() && j != offset ==> orig.update(offset, value)[j] == orig[j],
        value != orig[offset] ==> orig.update(offset, value)[offset] != orig[offset],
{
}

/// Produces the candidate buffers for one run: exactly one more than there
/// are picks, the unmodified original first, then in generation order one
/// candidate per pick, mutated at that pick's offset to that pick's value.
/// A zero-length source offers no offset to mutate and is rejected.
pub fn generate_candidates(original: &[u8], picks: &[(usize, u8)]) -> (r: Result<
    Vec<Candidate>,
    MutationError,
>)
    requires
        forall|i: int| 0 <= i < picks@.len() ==> (#[trigger] picks@[i]).0 < original@.len(),
    ensures
        match r {
            Result::Ok(cands) => {
                &&& original@.len() > 0
                &&& cands@.len() == picks@.len() + 1
                &&& forall|i: int|
                    0 <= i < cands@.len() ==> (#[trigger] cands@[i]).bytes@ == candidate_seq(
                        original@,
                        picks@,
                    )[i]
                &&& cands@[0].index is None
                &&& forall|i: int|
                    1 <= i < cands@.len() ==> (#[trigger] cands@[i]).index == Some(
                        picks@[i - 1].0,
                    )
            },
            Result::Err(e) => e == MutationError::EmptySource && original@.len() == 0,
        },
{
    if original.len() == 0 {
        return Err(MutationError::EmptySource);
    }
    let mut cands: Vec<Candidate> = Vec::with_capacity(picks.len());
    cands.push(Candidate { index: None, bytes: slice_to_vec(original) });
    let mut k: usize = 0;
    while k < picks.len()
        invariant
            k <= picks@.len(),
            original@.len() > 0,
            forall|i: int| 0 <= i < picks@.len() ==> (#[trigger] picks@[i]).0 < original@.len(),
            cands@.len() == k + 1,
            forall|i: int|
                0 <= i < cands@.len() ==> (#[trigger] cands@[i]).bytes@ == candidate_seq(
                    original@,
                    picks@,
                )[i],
            cands@[0].index is None,
            forall|i: int| 1 <= i < cands@.len() ==> (#[trigger] cands@[i]).index == Some(picks@[i - 1].0),
        decreases picks@.len() - k,
    {
        let (offset, value) = picks[k];
        let mutated = mutate_at(original, offset, value);
        cands.push(Candidate { index: Some(offset), bytes: mutated });
        k = k + 1;
    }
    Ok(cands)
}

} // verus!
