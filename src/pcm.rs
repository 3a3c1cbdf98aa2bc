//! Framing and sample conversions for 16-bit PCM audio.
use vstd::prelude::*;

verus! {

use crate::FRAME_SAMPLES;

/// Sample `j` of window `k` when `s` is cut into zero-padded windows.
pub open spec fn window_sample(s: Seq<i16>, k: int, j: int) -> i16 {
    if k * 960 + j < s.len() {
        s[k * 960 + j]
    } else {
        0
    }
}

/// Number of windows needed to hold `n` samples.
pub open spec fn window_count(n: nat) -> nat {
    ((n + 959) / 960) as nat
}

/// Cuts `samples` into consecutive 960-sample windows; the last one is padded
/// with zeros.
pub fn to_frames(samples: &[i16]) -> (frames: Vec<Vec<i16>>)
    ensures
        frames@.len() == window_count(samples@.len()),
        forall|k: int|
            #![trigger frames@[k]]
            0 <= k < frames@.len() ==> frames@[k]@.len() == 960 && forall|j: int|
                0 <= j < 960 ==> #[trigger] frames@[k]@[j] == window_sample(samples@, k, j),
{
    let n = samples.len();
    let total: usize = if n % FRAME_SAMPLES == 0 {
        n / FRAME_SAMPLES
    } else {
        n / FRAME_SAMPLES + 1
    };
    assert(total == window_count(n as nat));
    let mut frames: Vec<Vec<i16>> = Vec::new();
    let mut k: usize = 0;
    while k < total
        invariant
            n == samples@.len(),
            total == window_count(n as nat),
            k <= total,
            frames@.len() == k,
            forall|a: int|
                #![trigger frames@[a]]
                0 <= a < k ==> frames@[a]@.len() == 960 && forall|j: int|
                    0 <= j < 960 ==> #[trigger] frames@[a]@[j] == window_sample(samples@, a, j),
        decreases total - k,
    {
        let base: usize = k * FRAME_SAMPLES;
        assert(base < n);
        let mut frame: Vec<i16> = Vec::new();
        let mut j: usize = 0;
        while j < FRAME_SAMPLES
            invariant
                n == samples@.len(),
                base == k * 960,
                base < n,
                j <= 960,
                frame@.len() == j,
                forall|b: int| 0 <= b < j ==> #[trigger] frame@[b] == window_sample(samples@, k as int, b),
            decreases 960 - j,
        {
            if j < n - base {
                frame.push(samples[base + j]);
            } else {
                frame.push(0);
            }
            j = j + 1;
        }
        frames.push(frame);
        k = k + 1;
    }
    frames
}


/// `n` samples fill `ceil(n / 960)` windows, and the last window is zero past
/// position `n mod 960` when that is not zero.
pub proof fn lemma_window_padding(s: Seq<i16>)
    ensures
        window_count(s.len()) * 960 >= s.len(),
        s.len() > 0 ==> (window_count(s.len()) - 1) * 960 < s.len(),
        s.len() % 960 != 0 ==> forall|j: int|
            s.len() % 960 <= j < 960 ==> #[trigger] window_sample(
                s,
                window_count(s.len()) - 1,
                j,
            ) == 0,
{
}

/// The signed sample held by two little-endian bytes.
pub open spec fn sample_of_le(lo: u8, hi: u8) -> i16 {
    let v = lo as int + 256 * hi as int;
    if v >= 32768 {
        (v - 65536) as i16
    } else {
        v as i16
    }
}

/// The samples held by a little-endian byte sequence of even length.
pub open spec fn samples_of_le(b: Seq<u8>) -> Seq<i16> {
    Seq::new(b.len() / 2, |i: int| sample_of_le(b[2 * i], b[2 * i + 1]))
}

/// Low byte of a sample in little-endian order.
pub open spec fn low_byte(v: i16) -> u8 {
    (if v < 0 { v + 65536 } else { v as int } % 256) as u8
}

/// High byte of a sample in little-endian order.
pub open spec fn high_byte(v: i16) -> u8 {
    (if v < 0 { v + 65536 } else { v as int } / 256) as u8
}

/// Little-endian bytes of a sample sequence.
pub open spec fn le_bytes_of(s: Seq<i16>) -> Seq<u8> {
    Seq::new(2 * s.len(), |i: int| if i % 2 == 0 { low_byte(s[i / 2]) } else { high_byte(s[i / 2]) })
}

/// Writing samples as little-endian bytes and reading them back gives the
/// same samples.
pub proof fn lemma_le_round_trip(s: Seq<i16>)
    ensures
        samples_of_le(le_bytes_of(s)) == s,
{
    let b = le_bytes_of(s);
    assert forall|i: int| 0 <= i < s.len() implies #[trigger] samples_of_le(b)[i] == s[i] by {
        let v = s[i];
        let w: int = if v < 0 { v + 65536 } else { v as int };
        assert(b[2 * i] == low_byte(v));
        assert(b[2 * i + 1] == high_byte(v));
        assert(low_byte(v) as int + 256 * high_byte(v) as int == w);
    }
    assert(samples_of_le(b) =~= s);
}

/// Reads little-endian signed 16-bit samples from a byte buffer of even length.
pub fn samples_from_le_bytes(bytes: &[u8]) -> (samples: Vec<i16>)
    requires
        bytes@.len() % 2 == 0,
    ensures
        samples@ == samples_of_le(bytes@),
{
    let n = bytes.len();
    let half = n / 2;
    let mut samples: Vec<i16> = Vec::new();
    let mut i: usize = 0;
    while i < half
        invariant
            n == bytes@.len(),
            half == bytes@.len() / 2,
            i <= half,
            samples@.len() == i,
            forall|a: int| 0 <= a < i ==> #[trigger] samples@[a] == sample_of_le(bytes@[2 * a], bytes@[2 * a + 1]),
        decreases half - i,
    {
        assert(2 * i + 1 < bytes@.len());
        let lo = bytes[2 * i];
        let hi = bytes[2 * i + 1];
        let v: i32 = lo as i32 + 256 * hi as i32;
        let s: i16 = if v >= 32768 {
            (v - 65536) as i16
        } else {
            v as i16
        };
        samples.push(s);
        i = i + 1;
    }
    assert(samples@ =~= samples_of_le(bytes@));
    samples
}

/// Writes samples as little-endian signed 16-bit bytes.
pub fn le_bytes_from_samples(samples: &[i16]) -> (bytes: Vec<u8>)
    requires
        samples@.len() <= usize::MAX / 2,
    ensures
        bytes@ == le_bytes_of(samples@),
{
    let mut bytes: Vec<u8> = Vec::new();
    let mut i: usize = 0;
    while i < samples.len()
        invariant
            samples@.len() <= usize::MAX / 2,
            i <= samples@.len(),
            bytes@.len() == 2 * i,
            forall|a: int|
                0 <= a < 2 * i ==> #[trigger] bytes@[a] == (if a % 2 == 0 {
                    low_byte(samples@[a / 2])
                } else {
                    high_byte(samples@[a / 2])
                }),
        decreases samples@.len() - i,
    {
        let v = samples[i];
        let w: i32 = if v < 0 {
            v as i32 + 65536
        } else {
            v as i32
        };
        bytes.push((w % 256) as u8);
        bytes.push((w / 256) as u8);
        i = i + 1;
    }
    assert(bytes@ =~= le_bytes_of(samples@));
    bytes
}

/// Mean of two channel samples, rounded down.
pub open spec fn average(l: i16, r: i16) -> i16 {
    ((l as int + r as int) / 2) as i16
}

/// The mono frame obtained from an interleaved stereo frame.
pub open spec fn downmix_of(input: Seq<i16>) -> Seq<i16> {
    Seq::new(
        960,
        |i: int|
            if input.len() == 1 {
                input[0]
            } else if i < input.len() / 2 {
                average(input[2 * i], input[2 * i + 1])
            } else {
                0
            },
    )
}

/// Reduces an interleaved stereo frame to one 960-sample mono frame by
/// averaging each pair of channel samples; missing positions are silent and a
/// single sample fills the whole frame.
pub fn downmix_stereo_to_mono(input: &[i16]) -> (out: Vec<i16>)
    ensures
        out@ == downmix_of(input@),
{
    let n = input.len();
    let mut out: Vec<i16> = Vec::new();
    let mut i: usize = 0;
    while i < FRAME_SAMPLES
        invariant
            n == input@.len(),
            i <= 960,
            out@.len() == i,
            forall|a: int| 0 <= a < i ==> #[trigger] out@[a] == downmix_of(input@)[a],
        decreases 960 - i,
    {
        let v: i16 = if n == 1 {
            input[0]
        } else if i < n / 2 {
            let l: i32 = input[2 * i] as i32 + 32768;
            let r: i32 = input[2 * i + 1] as i32 + 32768;
            ((l + r) / 2 - 32768) as i16
        } else {
            0
        };
        out.push(v);
        i = i + 1;
    }
    assert(out@ =~= downmix_of(input@));
    out
}

/// Magnitude above which a sample counts as sound.
pub const SILENCE_THRESHOLD: i16 = 3;

/// Whether some sample of `frame` is louder than the silence threshold.
pub open spec fn audible(frame: Seq<i16>) -> bool {
    exists|i: int| 0 <= i < frame.len() && (frame[i] > 3 || frame[i] < -3)
}

/// Tells whether a frame holds any sample above the silence threshold.
pub fn has_audio(frame: &[i16]) -> (r: bool)
    ensures
        r == audible(frame@),
{
    let mut i: usize = 0;
    while i < frame.len()
        invariant
            i <= frame@.len(),
            forall|a: int| 0 <= a < i ==> -3 <= #[trigger] frame@[a] <= 3,
        decreases frame@.len() - i,
    {
        if frame[i] > SILENCE_THRESHOLD || frame[i] < -SILENCE_THRESHOLD {
            return true;
        }
        i = i + 1;
    }
    false
}

} // verus!
