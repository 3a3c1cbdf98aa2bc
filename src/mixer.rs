//! The speaker mixer's work on one timer tick.
use vstd::prelude::*;

verus! {

use crate::b64::{base64_of, standard_encode};
use crate::events::NativeEvent;
use crate::pcm::{
    audible,
    downmix_of,
    downmix_stereo_to_mono,
    has_audio,
    le_bytes_from_samples,
    le_bytes_of,
};
use crate::FRAME_SAMPLES;

/// What one participant's jitter buffer gave on a tick: an interleaved stereo
/// frame, and whether the buffer was empty right after the drain.
pub struct SpeakerDrain {
    pub client_id: u16,
    pub stereo: Vec<i16>,
    pub empty_after: bool,
}

/// What a tick produces: the events to emit, in order, and the participants
/// whose state is dropped once the tick is over.
pub struct TickOutput {
    pub events: Vec<NativeEvent>,
    pub remove: Vec<u16>,
}

/// The mono frame of one participant on a tick.
pub open spec fn mono_of(d: SpeakerDrain) -> Seq<i16> {
    downmix_of(d.stereo@)
}

/// Per-participant audio events of a tick: client and base64 PCM text, one
/// for each participant whose mono frame is audible, in drain order.
pub open spec fn speaker_events(d: Seq<SpeakerDrain>) -> Seq<(u16, Seq<char>)>
    decreases d.len(),
{
    if d.len() == 0 {
        seq![]
    } else {
        let rest = speaker_events(d.drop_last());
        let m = mono_of(d.last());
        if audible(m) {
            rest.push((d.last().client_id, base64_of(le_bytes_of(m))))
        } else {
            rest
        }
    }
}

/// Sum at position `j` of the mono frames of a tick.
pub open spec fn mix_total(d: Seq<SpeakerDrain>, j: int) -> int
    decreases d.len(),
{
    if d.len() == 0 {
        0
    } else {
        mix_total(d.drop_last(), j) + mono_of(d.last())[j] as int
    }
}

/// A sum brought into the 16-bit range.
pub open spec fn clamp16(v: int) -> i16 {
    if v > 32767 {
        32767
    } else if v < -32768 {
        (-32768) as i16
    } else {
        v as i16
    }
}

/// The composite frame of a tick.
pub open spec fn mixed_frame(d: Seq<SpeakerDrain>) -> Seq<i16> {
    Seq::new(960, |j: int| clamp16(mix_total(d, j)))
}

/// Participants whose buffer was empty right after the drain, in drain order.
pub open spec fn removal_ids(d: Seq<SpeakerDrain>) -> Seq<u16>
    decreases d.len(),
{
    if d.len() == 0 {
        seq![]
    } else {
        let rest = removal_ids(d.drop_last());
        if d.last().empty_after {
            rest.push(d.last().client_id)
        } else {
            rest
        }
    }
}

/// Whether `e` is the audio event of participant `x.0` with PCM text `x.1`.
pub open spec fn is_speaker_event(e: NativeEvent, x: (u16, Seq<char>)) -> bool {
    match e {
        NativeEvent::AudioSpeaker { client_id, pcm } => client_id == x.0 && pcm@ == x.1,
        _ => false,
    }
}

/// Whether `e` is the composite audio event with PCM text `t`.
pub open spec fn is_mixed_event(e: NativeEvent, t: Seq<char>) -> bool {
    match e {
        NativeEvent::AudioMixed { pcm } => pcm@ == t,
        _ => false,
    }
}

proof fn lemma_take_step(d: Seq<SpeakerDrain>, i: int)
    requires
        0 <= i < d.len(),
    ensures
        d.take(i + 1).drop_last() == d.take(i),
        d.take(i + 1).last() == d[i],
        d.take(i + 1).len() == i + 1,
{
    assert(d.take(i + 1).drop_last() =~= d.take(i));
}

/// Drains of one tick become per-participant audio events, one composite
/// event and the list of participants to drop.
pub fn mix_tick(drains: &Vec<SpeakerDrain>) -> (out: TickOutput)
    ensures
        out.events@.len() == speaker_events(drains@).len() + 1,
        forall|k: int|
            0 <= k < speaker_events(drains@).len() ==> is_speaker_event(
                #[trigger] out.events@[k],
                speaker_events(drains@)[k],
            ),
        is_mixed_event(out.events@.last(), base64_of(le_bytes_of(mixed_frame(drains@)))),
        out.remove@ == removal_ids(drains@),
{
    let n = drains.len();
    let mut mixed: Vec<i128> = Vec::new();
    let mut j: usize = 0;
    while j < FRAME_SAMPLES
        invariant
            j <= 960,
            mixed@.len() == j,
            forall|a: int| 0 <= a < j ==> #[trigger] mixed@[a] == 0,
        decreases 960 - j,
    {
        mixed.push(0);
        j = j + 1;
    }
    let mut events: Vec<NativeEvent> = Vec::new();
    let mut remove: Vec<u16> = Vec::new();
    let mut i: usize = 0;
    assert(drains@.take(0) =~= Seq::<SpeakerDrain>::empty());
    while i < n
        invariant
            n == drains@.len(),
            i <= n,
            mixed@.len() == 960,
            forall|a: int|
                0 <= a < 960 ==> #[trigger] mixed@[a] == mix_total(drains@.take(i as int), a),
            forall|a: int| 0 <= a < 960 ==> -32768 * i <= #[trigger] mixed@[a] <= 32768 * i,
            events@.len() == speaker_events(drains@.take(i as int)).len(),
            forall|k: int|
                0 <= k < events@.len() ==> is_speaker_event(
                    #[trigger] events@[k],
                    speaker_events(drains@.take(i as int))[k],
                ),
            remove@ == removal_ids(drains@.take(i as int)),
        decreases n - i,
    {
        proof {
            lemma_take_step(drains@, i as int);
        }
        let d = &drains[i];
        if d.empty_after {
            remove.push(d.client_id);
        }
        let frame = downmix_stereo_to_mono(d.stereo.as_slice());
        let ghost before = mixed@;
        let mut j: usize = 0;
        while j < FRAME_SAMPLES
            invariant
                i < n,
                j <= 960,
                frame@.len() == 960,
                mixed@.len() == 960,
                forall|a: int| 0 <= a < 960 ==> -32768 * i <= #[trigger] before[a] <= 32768 * i,
                forall|a: int| 0 <= a < j ==> #[trigger] mixed@[a] == before[a] + frame@[a],
                forall|a: int| j <= a < 960 ==> #[trigger] mixed@[a] == before[a],
            decreases 960 - j,
        {
            let v = mixed[j] + frame[j] as i128;
            mixed.set(j, v);
            j = j + 1;
        }
        if has_audio(frame.as_slice()) {
            let bytes = le_bytes_from_samples(frame.as_slice());
            let pcm = standard_encode(bytes.as_slice());
            events.push(NativeEvent::AudioSpeaker { client_id: d.client_id, pcm });
        }
        i = i + 1;
    }
    assert(drains@.take(n as int) =~= drains@);
    let mut out_frame: Vec<i16> = Vec::new();
    let mut j: usize = 0;
    while j < FRAME_SAMPLES
        invariant
            j <= 960,
            mixed@.len() == 960,
            forall|a: int| 0 <= a < 960 ==> #[trigger] mixed@[a] == mix_total(drains@, a),
            out_frame@.len() == j,
            forall|a: int| 0 <= a < j ==> #[trigger] out_frame@[a] == mixed_frame(drains@)[a],
        decreases 960 - j,
    {
        let v = mixed[j];
        let s: i16 = if v > 32767 {
            32767
        } else if v < -32768 {
            -32768
        } else {
            v as i16
        };
        out_frame.push(s);
        j = j + 1;
    }
    assert(out_frame@ =~= mixed_frame(drains@));
    let bytes = le_bytes_from_samples(out_frame.as_slice());
    let pcm = standard_encode(bytes.as_slice());
    events.push(NativeEvent::AudioMixed { pcm });
    TickOutput { events, remove }
}

/// A participant is dropped after a tick exactly when its buffer was seen
/// empty right after that tick's drain.
pub proof fn lemma_removed_iff_drained_empty(d: Seq<SpeakerDrain>, x: u16)
    ensures
        removal_ids(d).contains(x) <==> exists|i: int|
            0 <= i < d.len() && (#[trigger] d[i]).client_id == x && d[i].empty_after,
    decreases d.len(),
{
    if d.len() > 0 {
        let p = d.drop_last();
        lemma_removed_iff_drained_empty(p, x);
        if removal_ids(d).contains(x) {
            if removal_ids(p).contains(x) {
                let i = choose|i: int| 0 <= i < p.len() && (#[trigger] p[i]).client_id == x && p[i].empty_after;
                assert(d[i] == p[i]);
            } else {
                let r = removal_ids(p);
                let k = choose|k: int| 0 <= k < removal_ids(d).len() && removal_ids(d)[k] == x;
                if d.last().empty_after {
                    assert(k == r.len()) by {
                        if k < r.len() {
                            assert(r[k] == x);
                        }
                    }
                    assert(d[d.len() - 1] == d.last());
                } else {
                    assert(r[k] == x);
                }
            }
        }
        if exists|i: int| 0 <= i < d.len() && (#[trigger] d[i]).client_id == x && d[i].empty_after {
            let i = choose|i: int| 0 <= i < d.len() && (#[trigger] d[i]).client_id == x && d[i].empty_after;
            let r = removal_ids(p);
            if i < d.len() - 1 {
                assert(p[i] == d[i]);
                let k = choose|k: int| 0 <= k < r.len() && r[k] == x;
                if d.last().empty_after {
                    assert(removal_ids(d)[k] == x);
                } else {
                    assert(removal_ids(d)[k] == x);
                }
            } else {
                assert(removal_ids(d)[r.len() as int] == x);
            }
        }
    }
}

/// A tick with no participants yields no per-participant event and an
/// all-zero composite frame.
pub proof fn lemma_empty_tick_is_silent(d: Seq<SpeakerDrain>)
    requires
        d.len() == 0,
    ensures
        speaker_events(d).len() == 0,
        mixed_frame(d) == Seq::new(960, |j: int| 0i16),
{
    assert(mixed_frame(d) =~= Seq::new(960, |j: int| 0i16));
}

} // verus!
