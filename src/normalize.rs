use vstd::prelude::*;

use crate::downmix::{downmix, downmix_spec, ChannelLayout};

verus! {

/// Relies on dasp's `conv::u16::to_i16`: an unsigned sample is shifted down by
/// the midpoint 32768, so 0 becomes `i16::MIN` and `u16::MAX` becomes `i16::MAX`.
pub assume_specification[ dasp::sample::conv::u16::to_i16 ](s: u16) -> (r: i16)
    ensures
        r as int == s as int - 32768,
;

/// Relies on dasp's `conv::i16::to_u16`: a signed sample is shifted up by the
/// midpoint 32768, the inverse of `conv::u16::to_i16`.
pub assume_specification[ dasp::sample::conv::i16::to_u16 ](s: i16) -> (r: u16)
    ensures
        r as int == s as int + 32768,
;

/// Linear rescaling of an unsigned 16-bit sample to signed 16-bit PCM.
pub open spec fn pcm_of_u16(s: u16) -> i16 {
    (s as int - 32768) as i16
}

/// Linear rescaling of a signed 16-bit PCM sample back to unsigned 16 bits.
pub open spec fn u16_of_pcm(s: i16) -> u16 {
    (s as int + 32768) as u16
}

pub open spec fn pcm_of_u16_seq(s: Seq<u16>) -> Seq<i16> {
    s.map_values(|x: u16| pcm_of_u16(x))
}

pub open spec fn u16_of_pcm_seq(s: Seq<i16>) -> Seq<u16> {
    s.map_values(|x: i16| u16_of_pcm(x))
}

/// Converts unsigned 16-bit samples to signed 16-bit PCM, sample by sample.
pub fn normalize_u16(data: &[u16]) -> (r: Vec<i16>)
    ensures
        r@ == pcm_of_u16_seq(data@),
        r@.len() == data@.len(),
{
    let mut out: Vec<i16> = Vec::with_capacity(data.len());
    let mut i: usize = 0;
    while i < data.len()
        invariant
            i <= data@.len(),
            out@.len() == i,
            forall|k: int| 0 <= k < i ==> out@[k] == pcm_of_u16(data@[k]),
        decreases data@.len() - i,
    {
        out.push(dasp::sample::conv::u16::to_i16(data[i]));
        i += 1;
    }
    assert(out@ =~= pcm_of_u16_seq(data@));
    out
}

/// Signed 16-bit samples are already PCM: they are copied unchanged.
pub fn normalize_i16(data: &[i16]) -> (r: Vec<i16>)
    ensures
        r@ == data@,
{
    let mut out: Vec<i16> = Vec::with_capacity(data.len());
    let mut i: usize = 0;
    while i < data.len()
        invariant
            i <= data@.len(),
            out@ == data@.subrange(0, i as int),
        decreases data@.len() - i,
    {
        out.push(data[i]);
        i += 1;
    }
    assert(out@ =~= data@);
    out
}

/// The inverse mapping: signed 16-bit PCM back to unsigned 16-bit samples.
pub fn denormalize_u16(data: &[i16]) -> (r: Vec<u16>)
    ensures
        r@ == u16_of_pcm_seq(data@),
        r@.len() == data@.len(),
{
    let mut out: Vec<u16> = Vec::with_capacity(data.len());
    let mut i: usize = 0;
    while i < data.len()
        invariant
            i <= data@.len(),
            out@.len() == i,
            forall|k: int| 0 <= k < i ==> out@[k] == u16_of_pcm(data@[k]),
        decreases data@.len() - i,
    {
        out.push(dasp::sample::conv::i16::to_u16(data[i]));
        i += 1;
    }
    assert(out@ =~= u16_of_pcm_seq(data@));
    out
}

/// Mono PCM for one delivered chunk of unsigned samples: normalised, then downmixed.
pub fn prepare_u16(data: &[u16], layout: ChannelLayout) -> (r: Vec<i16>)
    ensures
        r@ == downmix_spec(layout, pcm_of_u16_seq(data@)),
{
    downmix(layout, normalize_u16(data))
}

/// Mono PCM for one delivered chunk of signed samples.
pub fn prepare_i16(data: &[i16], layout: ChannelLayout) -> (r: Vec<i16>)
    ensures
        r@ == downmix_spec(layout, data@),
{
    downmix(layout, normalize_i16(data))
}

/// Normalising an unsigned sample and mapping it back gives the same sample,
/// with no quantisation loss, at the range extremes and everywhere between.
pub proof fn lemma_u16_round_trip(s: u16)
    ensures
        u16_of_pcm(pcm_of_u16(s)) == s,
        s == 0 ==> pcm_of_u16(s) == i16::MIN,
        s == u16::MAX ==> pcm_of_u16(s) == i16::MAX,
        s == 32768 ==> pcm_of_u16(s) == 0,
{
}

/// Mapping PCM to unsigned samples and normalising again gives the same PCM.
pub proof fn lemma_pcm_round_trip(s: i16)
    ensures
        pcm_of_u16(u16_of_pcm(s)) == s,
{
}

/// A whole chunk survives normalisation followed by the inverse mapping.
pub proof fn lemma_u16_chunk_round_trip(s: Seq<u16>)
    ensures
        u16_of_pcm_seq(pcm_of_u16_seq(s)) == s,
{
    assert(u16_of_pcm_seq(pcm_of_u16_seq(s)) =~= s);
}

} // verus!
