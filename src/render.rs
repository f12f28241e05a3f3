use vstd::prelude::*;

verus! {

/// The period of the render timer, in milliseconds.
pub const TICK_PERIOD_MS: u32 = 10;

/// The number of interleaved sample slots that one tick renders: two thirds
/// of a second of a single channel at the default sample rate.
pub const SCRATCH_LEN: usize = 32000;

/// Whether `planes` is the planar layout of the interleaved samples `s` over
/// `channels` channels: one plane per channel, and the sample of frame `f` in
/// channel `c` at `planes[c][f]`.
pub open spec fn is_planar_of<T>(planes: Seq<Seq<T>>, s: Seq<T>, channels: nat) -> bool {
    &&& planes.len() == channels
    &&& forall|c: int| 0 <= c < channels ==> (#[trigger] planes[c]).len() == s.len() as int / channels as int
    &&& forall|c: int, f: int|
        0 <= c < channels && 0 <= f < s.len() as int / channels as int
            ==> #[trigger] planes[c][f] == s[f * channels + c]
}

/// The frame and channel of an interleaved slot lie inside the buffer.
proof fn lemma_slot_in_bounds(f: int, c: int, channels: int, len: int)
    requires
        0 < channels,
        0 <= c < channels,
        0 <= f < len / channels,
    ensures
        0 <= f * channels + c < len,
{
    assert(f * channels + c < len) by (nonlinear_arith)
        requires
            0 < channels,
            0 <= c < channels,
            0 <= f < len / channels,
    {
        assert(f + 1 <= len / channels);
        assert((f + 1) * channels <= (len / channels) * channels);
        assert((len / channels) * channels <= len);
    }
    assert(0 <= f * channels) by (nonlinear_arith)
        requires
            0 < channels,
            0 <= f,
    {}
}

/// A scratch buffer for one tick: `SCRATCH_LEN` slots, each `zero`.
pub fn scratch_buffer<T: Copy>(zero: T) -> (r: Vec<T>)
    ensures
        r@.len() == SCRATCH_LEN,
        forall|i: int| 0 <= i < SCRATCH_LEN ==> #[trigger] r@[i] == zero,
{
    let mut r: Vec<T> = Vec::new();
    let mut i: usize = 0;
    while i < SCRATCH_LEN
        invariant
            i <= SCRATCH_LEN,
            r@.len() == i,
            forall|j: int| 0 <= j < i ==> #[trigger] r@[j] == zero,
        decreases SCRATCH_LEN - i,
    {
        r.push(zero);
        i = i + 1;
    }
    r
}

/// Splits interleaved samples into one buffer per channel: the sample of frame
/// `f` in channel `c` comes from slot `f * channels + c`. Each buffer holds
/// `scratch.len() / channels` frames; slots past the last whole frame are
/// left out.
pub fn deinterleave<T: Copy>(scratch: &Vec<T>, channels: usize) -> (r: Vec<Vec<T>>)
    requires
        channels > 0,
    ensures
        is_planar_of(r@.map_values(|p: Vec<T>| p@), scratch@, channels as nat),
{
    let len: usize = scratch.len();
    let frames: usize = len / channels;
    let mut planes: Vec<Vec<T>> = Vec::new();
    let mut c: usize = 0;
    while c < channels
        invariant
            c <= channels,
            channels > 0,
            len == scratch@.len(),
            frames == scratch@.len() as int / channels as int,
            planes@.len() == c,
            forall|k: int| 0 <= k < c ==> (#[trigger] planes@[k])@.len() == frames,
            forall|k: int, f: int|
                0 <= k < c && 0 <= f < frames ==> #[trigger] planes@[k]@[f] == scratch@[f
                    * channels + k],
        decreases channels - c,
    {
        let mut plane: Vec<T> = Vec::new();
        let mut f: usize = 0;
        while f < frames
            invariant
                c < channels,
                channels > 0,
                len == scratch@.len(),
                frames == scratch@.len() as int / channels as int,
                f <= frames,
                plane@.len() == f,
                forall|g: int| 0 <= g < f ==> #[trigger] plane@[g] == scratch@[g * channels + c],
            decreases frames - f,
        {
            proof {
                lemma_slot_in_bounds(f as int, c as int, channels as int, len as int);
            }
            plane.push(scratch[f * channels + c]);
            f = f + 1;
        }
        planes.push(plane);
        c = c + 1;
    }
    let ghost view = planes@.map_values(|p: Vec<T>| p@);
    assert(forall|k: int| 0 <= k < channels ==> #[trigger] view[k] == planes@[k]@);
    planes
}

} // verus!
verus! {

/// One tick of rendering: `fill` is called once, on a scratch buffer of
/// `SCRATCH_LEN` slots that each hold `zero`; the buffer as `fill` left it
/// comes back with its split into per-channel buffers.
pub fn render_tick<T: Copy, F: FnMut(&mut [T])>(zero: T, fill: &mut F, channels: usize) -> (r: (
    Vec<T>,
    Vec<Vec<T>>,
))
    requires
        channels > 0,
        forall|b: &mut [T]| call_requires(*old(fill), (b,)),
    ensures
        is_planar_of(r.1@.map_values(|p: Vec<T>| p@), r.0@, channels as nat),
        exists|b: &mut [T]|
            call_ensures(*old(fill), (b,), ()) && (*b)@ == Seq::new(SCRATCH_LEN as nat, |i: int| zero)
                && (*final(b))@ == r.0@,
{
    let mut scratch = scratch_buffer(zero);
    fill(scratch.as_mut_slice());
    let planes = deinterleave(&scratch, channels);
    (scratch, planes)
}

} // verus!
