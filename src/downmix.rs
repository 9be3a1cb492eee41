use vstd::prelude::*;

verus! {

/// Half of `a`, rounded toward zero (Rust's integer division by two).
pub open spec fn half_toward_zero(a: int) -> int {
    if a >= 0 {
        a / 2
    } else {
        -((-a) / 2)
    }
}

/// The mono sample made from one stereo pair.
pub open spec fn mix_pair(a: i16, b: i16) -> int {
    half_toward_zero(a as int) + half_toward_zero(b as int)
}

/// Interleaved stereo downmixed pair by pair; a trailing unpaired sample is dropped.
pub open spec fn stereo_to_mono_spec(s: Seq<i16>) -> Seq<i16> {
    Seq::new(s.len() / 2, |i: int| mix_pair(s[2 * i], s[2 * i + 1]) as i16)
}

/// The channel layouts the pipeline can take as input.
#[derive(Clone, Copy, Debug, PartialEq, Eq, Structural)]
pub enum ChannelLayout {
    Mono,
    Stereo,
}

/// Layout for a device channel count; counts other than one or two are unsupported.
pub fn channel_layout(count: u16) -> (r: Option<ChannelLayout>)
    ensures
        count == 1 <==> r == Some(ChannelLayout::Mono),
        count == 2 <==> r == Some(ChannelLayout::Stereo),
        r is None <==> (count != 1 && count != 2),
{
    if count == 1 {
        Some(ChannelLayout::Mono)
    } else if count == 2 {
        Some(ChannelLayout::Stereo)
    } else {
        None
    }
}

fn half(a: i16) -> (r: i16)
    ensures
        r as int == half_toward_zero(a as int),
{
    a / 2
}

/// Averages consecutive pairs of interleaved stereo samples into mono samples.
pub fn stereo_to_mono(input_data: &[i16]) -> (r: Vec<i16>)
    ensures
        r@ == stereo_to_mono_spec(input_data@),
        r@.len() == input_data@.len() / 2,
{
    let len: usize = input_data.len();
    let n: usize = len / 2;
    let mut result: Vec<i16> = Vec::with_capacity(n);
    let mut i: usize = 0;
    while i < n
        invariant
            len == input_data@.len(),
            n == len / 2,
            i <= n,
            result@.len() == i,
            forall|k: int|
                0 <= k < i ==> result@[k] == mix_pair(input_data@[2 * k], input_data@[2 * k + 1]) as i16,
        decreases n - i,
    {
        assert(2 * i + 1 < input_data@.len());
        let a = half(input_data[2 * i]);
        let b = half(input_data[2 * i + 1]);
        result.push(a + b);
        i += 1;
    }
    assert(result@ =~= stereo_to_mono_spec(input_data@));
    result
}

/// Mono samples for one chunk of the given layout.
pub open spec fn downmix_spec(layout: ChannelLayout, s: Seq<i16>) -> Seq<i16> {
    match layout {
        ChannelLayout::Mono => s,
        ChannelLayout::Stereo => stereo_to_mono_spec(s),
    }
}

/// Brings a chunk of interleaved samples down to one channel: mono input is
/// returned as it is, stereo input is mixed pair by pair.
pub fn downmix(layout: ChannelLayout, data: Vec<i16>) -> (r: Vec<i16>)
    ensures
        r@ == downmix_spec(layout, data@),
{
    match layout {
        ChannelLayout::Mono => data,
        ChannelLayout::Stereo => stereo_to_mono(data.as_slice()),
    }
}

/// Even-length stereo input gives half as many samples, each the pair's
/// halves (rounded toward zero) added.
pub proof fn lemma_stereo_even(s: Seq<i16>)
    requires
        s.len() % 2 == 0,
    ensures
        stereo_to_mono_spec(s).len() == s.len() / 2,
        forall|i: int|
            0 <= i < s.len() / 2 ==> #[trigger] stereo_to_mono_spec(s)[i] as int == half_toward_zero(
                s[2 * i] as int,
            ) + half_toward_zero(s[2 * i + 1] as int),
{
    assert forall|i: int| 0 <= i < s.len() / 2 implies #[trigger] stereo_to_mono_spec(s)[i] as int
        == half_toward_zero(s[2 * i] as int) + half_toward_zero(s[2 * i + 1] as int) by {
        let a = s[2 * i] as int;
        let b = s[2 * i + 1] as int;
        assert(-16384 <= half_toward_zero(a) <= 16383);
        assert(-16384 <= half_toward_zero(b) <= 16383);
    }
}

/// Odd-length stereo input gives the downmix of all but its last sample,
/// which is dropped.
pub proof fn lemma_stereo_odd(s: Seq<i16>)
    requires
        s.len() % 2 == 1,
    ensures
        stereo_to_mono_spec(s).len() == (s.len() - 1) / 2,
        stereo_to_mono_spec(s) == stereo_to_mono_spec(s.drop_last()),
{
    assert(stereo_to_mono_spec(s) =~= stereo_to_mono_spec(s.drop_last()));
}

/// Mono input passes through the downmixer unchanged.
pub proof fn lemma_mono_identity(s: Seq<i16>)
    ensures
        downmix_spec(ChannelLayout::Mono, s) == s,
{
}

} // verus!
