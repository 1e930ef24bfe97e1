use vstd::prelude::*;

use crossbeam::queue::ArrayQueue;

use crate::config::{
    build_key_lut, clamp_voice_count, clamped_voice_count, key_lut_entry, AudioConfig, SoundPackConfig, MAX_VOICES,
};
use crate::mixer::{mixer_wf, trigger_state, Mixer, MixerState};
use crate::queue::key_queue_pop;

verus! {

// ---------------------------------------------------------------------------
// Keys to samples
// ---------------------------------------------------------------------------

/// The sample index a keycode plays under a sound pack configuration:
/// keycodes below 256 go through the lookup table that `build_key_lut`
/// builds; a larger keycode has no entry and is an unknown key, which plays
/// the default sample, clamped to 255.
pub open spec fn key_lookup(config: SoundPackConfig, unknown_key_mapping: u32, keycode: u32) -> u8 {
    if keycode < 256 {
        key_lut_entry(config, unknown_key_mapping, keycode as int)
    } else if unknown_key_mapping > 255 {
        255
    } else {
        unknown_key_mapping as u8
    }
}

/// The keycode-to-sample table the audio callback reads.
#[derive(Debug, Clone, Copy)]
pub struct KeyLookup {
    table: [u8; 256],
    unknown: u8,
}

impl KeyLookup {
    /// The sample index this table gives `keycode`.
    pub closed spec fn spec_sample(&self, keycode: u32) -> u8 {
        if keycode < 256 {
            self.table@[keycode as int]
        } else {
            self.unknown
        }
    }

    /// The table for a sound pack configuration and the sample that unknown
    /// keys play.
    pub fn new(config: &SoundPackConfig, unknown_key_mapping: u32) -> (l: KeyLookup)
        ensures
            forall|k: u32| #[trigger] l.spec_sample(k) == key_lookup(*config, unknown_key_mapping, k),
    {
        let table = build_key_lut(config, unknown_key_mapping);
        let unknown: u8 = if unknown_key_mapping > 255 { 255 } else { unknown_key_mapping as u8 };
        let l = KeyLookup { table, unknown };
        assert forall|k: u32| #[trigger] l.spec_sample(k) == key_lookup(*config, unknown_key_mapping, k) by {
            if k < 256 {
                assert(table@[k as int] == key_lut_entry(*config, unknown_key_mapping, k as int));
            }
        }
        l
    }

    /// The sample index `keycode` plays.
    pub fn sample_for_key(&self, keycode: u32) -> (r: u8)
        ensures
            r == self.spec_sample(keycode),
    {
        if keycode < 256 {
            self.table[keycode as usize]
        } else {
            self.unknown
        }
    }
}

/// The mixer after a key press: the key's sample is triggered when the bank
/// has it; a key mapped past the end of the bank plays nothing.
pub open spec fn key_played(m: MixerState, lookup: KeyLookup, keycode: u32, sample_count: usize) -> MixerState {
    let s = lookup.spec_sample(keycode);
    if (s as int) < (sample_count as int) {
        trigger_state(m, s as usize)
    } else {
        m
    }
}

/// The mixer after a run of key presses, in order.
pub open spec fn play_keys(m: MixerState, lookup: KeyLookup, keys: Seq<u32>, sample_count: usize) -> MixerState
    decreases keys.len(),
{
    if keys.len() == 0 {
        m
    } else {
        key_played(play_keys(m, lookup, keys.drop_last(), sample_count), lookup, keys.last(), sample_count)
    }
}

proof fn lemma_trigger_state_wf(m: MixerState, x: usize)
    requires
        mixer_wf(m),
    ensures
        mixer_wf(trigger_state(m, x)),
{
    let c: int = m.voice_count as int;
    assert(0 <= (m.next_voice + 1) % c < c) by (nonlinear_arith) requires c > 0, m.next_voice >= 0;
}

/// Play one key press on the mixer, given the bank's size. Returns whether
/// a sample was triggered.
pub fn trigger_key(mixer: &mut Mixer, lookup: &KeyLookup, keycode: u32, sample_count: usize) -> (played: bool)
    requires
        old(mixer).wf(),
    ensures
        final(mixer).wf(),
        final(mixer)@ == key_played(old(mixer)@, *lookup, keycode, sample_count),
        played == ((lookup.spec_sample(keycode) as int) < (sample_count as int)),
{
    let s: usize = lookup.sample_for_key(keycode) as usize;
    if s < sample_count {
        proof {
            lemma_trigger_state_wf(mixer@, s);
        }
        mixer.trigger(s);
        true
    } else {
        false
    }
}

/// Drain the key queue into the mixer, as the audio callback does before it
/// renders: each keycode popped plays the sample the lookup table gives it,
/// in the order popped, until the queue is empty. Returns how many keys
/// were taken. The keycodes depend on the input thread; whatever they were,
/// the mixer ends as if exactly that run of keys had been pressed. The
/// count bounds the loop; it could only stop it after `u64::MAX` keys in one
/// drain.
pub fn drain_input(queue: &ArrayQueue<u32>, mixer: &mut Mixer, lookup: &KeyLookup, sample_count: usize) -> (n: u64)
    requires
        old(mixer).wf(),
    ensures
        final(mixer).wf(),
        exists|keys: Seq<u32>| #![trigger play_keys(old(mixer)@, *lookup, keys, sample_count)]
            keys.len() == n && final(mixer)@ == play_keys(old(mixer)@, *lookup, keys, sample_count),
{
    let ghost m0 = mixer@;
    let ghost mut keys: Seq<u32> = Seq::empty();
    let mut n: u64 = 0;
    loop
        invariant
            mixer.wf(),
            keys.len() == n,
            mixer@ == play_keys(m0, *lookup, keys, sample_count),
        decreases u64::MAX - n,
    {
        if n == u64::MAX {
            break;
        }
        match key_queue_pop(queue) {
            None => break,
            Some(keycode) => {
                trigger_key(mixer, lookup, keycode, sample_count);
                proof {
                    assert(keys.push(keycode).drop_last() =~= keys);
                    keys = keys.push(keycode);
                }
                n = n + 1;
            },
        }
    }
    n
}

// ---------------------------------------------------------------------------
// Stream configuration
// ---------------------------------------------------------------------------

/// The buffer sizes a device supports for one of its output configurations.
#[derive(Debug, Clone, Copy, PartialEq, Eq, Structural)]
pub enum SupportedBufferSize {
    Range { min: u32, max: u32 },
    Unknown,
}

/// One supported output configuration range of a device.
#[derive(Debug, Clone, Copy, PartialEq, Eq, Structural)]
pub struct SupportedRange {
    pub min_sample_rate: u32,
    pub max_sample_rate: u32,
    pub buffer_size: SupportedBufferSize,
}

/// The buffer size requested from the device.
#[derive(Debug, Clone, Copy, PartialEq, Eq, Structural)]
pub enum BufferSize {
    Default,
    Fixed(u32),
}

/// The output stream configuration to open.
#[derive(Debug, Clone, Copy, PartialEq, Eq, Structural)]
pub struct StreamPlan {
    pub channels: u16,
    pub sample_rate: u32,
    pub buffer_size: BufferSize,
}

/// Some supported range admits the sample rate.
pub open spec fn rate_supported(ranges: Seq<SupportedRange>, rate: u32) -> bool {
    exists|i: int| 0 <= i < ranges.len()
        && #[trigger] ranges[i].min_sample_rate <= rate <= ranges[i].max_sample_rate
}

/// Some supported range admits the buffer size, or leaves it unknown.
pub open spec fn buffer_supported(ranges: Seq<SupportedRange>, size: u32) -> bool {
    exists|i: int| 0 <= i < ranges.len() && match #[trigger] ranges[i].buffer_size {
        SupportedBufferSize::Range { min, max } => min <= size <= max,
        SupportedBufferSize::Unknown => true,
    }
}

/// The stream configuration chosen for the request: a requested sample rate
/// (non-zero) is kept when some supported range admits it, else the
/// device's default rate is used; a requested buffer size (non-zero) is kept
/// when some range admits it or leaves it unknown, else the device chooses.
/// When the supported ranges cannot be listed, the device defaults are used.
/// A zero channel count asks for the device's default.
pub open spec fn planned_stream(
    requested_sample_rate: u32,
    requested_buffer_size: u32,
    requested_channels: u16,
    supported: Option<Seq<SupportedRange>>,
    default_sample_rate: u32,
    default_channels: u16,
) -> StreamPlan {
    StreamPlan {
        channels: if requested_channels > 0 { requested_channels } else { default_channels },
        sample_rate: match supported {
            Some(ranges) => if requested_sample_rate > 0 && rate_supported(ranges, requested_sample_rate) {
                requested_sample_rate
            } else {
                default_sample_rate
            },
            None => default_sample_rate,
        },
        buffer_size: match supported {
            Some(ranges) => if requested_buffer_size > 0 && buffer_supported(ranges, requested_buffer_size) {
                BufferSize::Fixed(requested_buffer_size)
            } else {
                BufferSize::Default
            },
            None => BufferSize::Default,
        },
    }
}

/// The supported ranges, when they could be listed.
pub open spec fn ranges_view(supported: Option<&[SupportedRange]>) -> Option<Seq<SupportedRange>> {
    match supported {
        Some(r) => Some(r@),
        None => None,
    }
}

/// Choose the output stream configuration from the request, the device's
/// supported ranges (`None` when they could not be listed) and its default
/// configuration.
pub fn negotiate_stream(
    requested_sample_rate: u32,
    requested_buffer_size: u32,
    requested_channels: u16,
    supported: Option<&[SupportedRange]>,
    default_sample_rate: u32,
    default_channels: u16,
) -> (plan: StreamPlan)
    ensures
        plan == planned_stream(
            requested_sample_rate,
            requested_buffer_size,
            requested_channels,
            ranges_view(supported),
            default_sample_rate,
            default_channels,
        ),
{
    let channels: u16 = if requested_channels > 0 { requested_channels } else { default_channels };
    match supported {
        None => StreamPlan { channels, sample_rate: default_sample_rate, buffer_size: BufferSize::Default },
        Some(ranges) => {
            let mut sample_rate_ok = requested_sample_rate == 0;
            let mut buffer_size_ok = requested_buffer_size == 0;
            let mut i: usize = 0;
            while i < ranges.len() && !(sample_rate_ok && buffer_size_ok)
                invariant
                    i <= ranges.len(),
                    sample_rate_ok == (requested_sample_rate == 0
                        || rate_supported(ranges@.take(i as int), requested_sample_rate)),
                    buffer_size_ok ==> (requested_buffer_size == 0
                        || buffer_supported(ranges@.take(i as int), requested_buffer_size)),
                    !buffer_size_ok ==> (requested_buffer_size != 0
                        && !buffer_supported(ranges@.take(i as int), requested_buffer_size)),
                    sample_rate_ok && buffer_size_ok ==> (requested_sample_rate == 0
                        || rate_supported(ranges@, requested_sample_rate))
                        && (requested_buffer_size == 0
                        || buffer_supported(ranges@, requested_buffer_size)),
                decreases ranges.len() - i,
            {
                let range = ranges[i];
                proof {
                    assert(ranges@.take(i + 1) =~= ranges@.take(i as int).push(range));
                }
                if !sample_rate_ok && requested_sample_rate > 0 {
                    if range.min_sample_rate <= requested_sample_rate
                        && requested_sample_rate <= range.max_sample_rate {
                        sample_rate_ok = true;
                        assert(ranges@.take(i + 1)[i as int] == range);
                    }
                }
                if !buffer_size_ok && requested_buffer_size > 0 {
                    match range.buffer_size {
                        SupportedBufferSize::Range { min, max } => {
                            if min <= requested_buffer_size && requested_buffer_size <= max {
                                buffer_size_ok = true;
                                assert(ranges@.take(i + 1)[i as int] == range);
                            }
                        },
                        SupportedBufferSize::Unknown => {
                            buffer_size_ok = true;
                            assert(ranges@.take(i + 1)[i as int] == range);
                        },
                    }
                }
                i = i + 1;
            }
            proof {
                assert(i == ranges.len() ==> ranges@.take(i as int) =~= ranges@);
            }
            let sample_rate: u32 = if requested_sample_rate > 0 {
                if sample_rate_ok { requested_sample_rate } else { default_sample_rate }
            } else {
                default_sample_rate
            };
            let buffer_size = if requested_buffer_size > 0 {
                if buffer_size_ok { BufferSize::Fixed(requested_buffer_size) } else { BufferSize::Default }
            } else {
                BufferSize::Default
            };
            StreamPlan { channels, sample_rate, buffer_size }
        },
    }
}


/// How the stream is negotiated, for every request and every list of
/// supported ranges:
/// - the sample rate is the requested one exactly when it is non-zero and
///   lies within the rate bounds of some listed range, and the device's
///   default rate otherwise; it does not depend on the requested buffer
///   size or channel count;
/// - the buffer size is the requested one exactly when it is non-zero and
///   some listed range admits it (between its bounds, or with unknown
///   bounds), and left to the device otherwise; it does not depend on the
///   requested sample rate or channel count;
/// - a non-zero channel count is kept, zero asks for the default;
/// - when the ranges cannot be listed, the default rate and the device's
///   buffer size are used.
pub proof fn lemma_stream_negotiation(
    rate: u32,
    buffer: u32,
    channels: u16,
    ranges: Seq<SupportedRange>,
    default_rate: u32,
    default_channels: u16,
    rate2: u32,
    buffer2: u32,
    channels2: u16,
)
    ensures
        ({
            let plan = planned_stream(rate, buffer, channels, Some(ranges), default_rate, default_channels);
            &&& (rate > 0 && exists|i: int|
                0 <= i < ranges.len() && #[trigger] ranges[i].min_sample_rate <= rate <= ranges[i].max_sample_rate)
                ==> plan.sample_rate == rate
            &&& (rate == 0 || forall|i: int|
                0 <= i < ranges.len() ==> !(#[trigger] ranges[i].min_sample_rate <= rate <= ranges[i].max_sample_rate))
                ==> plan.sample_rate == default_rate
            &&& (buffer > 0 && exists|i: int|
                0 <= i < ranges.len() && match #[trigger] ranges[i].buffer_size {
                    SupportedBufferSize::Range { min, max } => min <= buffer <= max,
                    SupportedBufferSize::Unknown => true,
                }) ==> plan.buffer_size == BufferSize::Fixed(buffer)
            &&& (buffer == 0 || forall|i: int|
                0 <= i < ranges.len() ==> match #[trigger] ranges[i].buffer_size {
                    SupportedBufferSize::Range { min, max } => !(min <= buffer <= max),
                    SupportedBufferSize::Unknown => false,
                }) ==> plan.buffer_size == BufferSize::Default
            &&& plan.channels == if channels > 0 { channels } else { default_channels }
        }),
        planned_stream(rate, buffer, channels, Some(ranges), default_rate, default_channels).sample_rate
            == planned_stream(rate, buffer2, channels2, Some(ranges), default_rate, default_channels).sample_rate,
        planned_stream(rate, buffer, channels, Some(ranges), default_rate, default_channels).buffer_size
            == planned_stream(rate2, buffer, channels2, Some(ranges), default_rate, default_channels).buffer_size,
        planned_stream(rate, buffer, channels, None, default_rate, default_channels) == (StreamPlan {
            channels: if channels > 0 { channels } else { default_channels },
            sample_rate: default_rate,
            buffer_size: BufferSize::Default,
        }),
{
    let plan = planned_stream(rate, buffer, channels, Some(ranges), default_rate, default_channels);
    if rate > 0 && exists|i: int|
        0 <= i < ranges.len() && #[trigger] ranges[i].min_sample_rate <= rate <= ranges[i].max_sample_rate {
        let i = choose|i: int|
            0 <= i < ranges.len() && #[trigger] ranges[i].min_sample_rate <= rate <= ranges[i].max_sample_rate;
        assert(rate_supported(ranges, rate));
    }
    if buffer > 0 && exists|i: int|
        0 <= i < ranges.len() && match #[trigger] ranges[i].buffer_size {
            SupportedBufferSize::Range { min, max } => min <= buffer <= max,
            SupportedBufferSize::Unknown => true,
        } {
        let i = choose|i: int|
            0 <= i < ranges.len() && match #[trigger] ranges[i].buffer_size {
                SupportedBufferSize::Range { min, max } => min <= buffer <= max,
                SupportedBufferSize::Unknown => true,
            };
        assert(buffer_supported(ranges, buffer));
    }
    if buffer > 0 && buffer_supported(ranges, buffer) {
        let i = choose|i: int| 0 <= i < ranges.len() && match #[trigger] ranges[i].buffer_size {
            SupportedBufferSize::Range { min, max } => min <= buffer <= max,
            SupportedBufferSize::Unknown => true,
        };
        assert(match ranges[i].buffer_size {
            SupportedBufferSize::Range { min, max } => min <= buffer <= max,
            SupportedBufferSize::Unknown => true,
        });
    }
}

// ---------------------------------------------------------------------------
// Output device choice
// ---------------------------------------------------------------------------

/// The lowercase form of a string, as `str::to_lowercase` computes it.
pub uninterp spec fn lowercase(s: Seq<char>) -> Seq<char>;

/// `str::to_lowercase`: the lowercase equivalent of the string; its result
/// is a function of the text alone.
#[verifier::external_body]
fn str_to_lowercase(s: &str) -> (r: String)
    ensures
        r@ == lowercase(s@),
{
    s.to_lowercase()
}

/// `pattern` occurs in `text` as a contiguous run of characters.
pub open spec fn contains_text(text: Seq<char>, pattern: Seq<char>) -> bool {
    exists|i: int| 0 <= i <= text.len() - pattern.len()
        && #[trigger] text.subrange(i, i + pattern.len()) == pattern
}

/// Whether `pattern` occurs in `text` as a contiguous run of characters,
/// as `str::contains` answers with a string pattern.
pub fn text_contains(text: &str, pattern: &str) -> (r: bool)
    ensures
        r == contains_text(text@, pattern@),
{
    let n: usize = text.unicode_len();
    let m: usize = pattern.unicode_len();
    if m > n {
        return false;
    }
    let mut i: usize = 0;
    while i <= n - m
        invariant
            n == text@.len(),
            m == pattern@.len(),
            m <= n,
            i <= n - m + 1,
            forall|k: int| 0 <= k < i ==> #[trigger] text@.subrange(k, k + m) != pattern@,
        decreases n - m + 1 - i,
    {
        let mut j: usize = 0;
        let mut same: bool = true;
        while j < m && same
            invariant
                n == text@.len(),
                m == pattern@.len(),
                i + m <= n,
                j <= m,
                same ==> forall|k: int| 0 <= k < j ==> text@[i + k] == pattern@[k],
                !same ==> j > 0 && text@[i + j - 1] != pattern@[j - 1],
            decreases m - j,
        {
            if text.get_char(i + j) != pattern.get_char(j) {
                same = false;
            }
            j = j + 1;
        }
        if same {
            assert(text@.subrange(i as int, i + m) =~= pattern@);
            return true;
        }
        assert(text@.subrange(i as int, i + m)[j - 1] != pattern@[j - 1]);
        i = i + 1;
    }
    false
}

/// A device name matches the preferred name when, both lowercased, the
/// preferred name occurs in it. A device whose name could not be read
/// matches nothing.
pub open spec fn device_matches(name: Option<String>, preferred: Seq<char>) -> bool {
    match name {
        Some(n) => contains_text(lowercase(n@), lowercase(preferred)),
        None => false,
    }
}

/// Choose the output device: the first device, in the order listed, whose
/// name matches the preferred name (`Some` of its index); `None` when no
/// name is preferred or none matches, and the default device is to be used.
pub fn choose_output_device(names: &[Option<String>], preferred: Option<&str>) -> (r: Option<usize>)
    ensures
        preferred is None ==> r is None,
        preferred matches Some(p) ==> match r {
            Some(i) => i < names.len() && device_matches(names@[i as int], p@)
                && forall|j: int| 0 <= j < i ==> !device_matches(#[trigger] names@[j], p@),
            None => forall|j: int| 0 <= j < names.len() ==> !device_matches(#[trigger] names@[j], p@),
        },
{
    match preferred {
        None => None,
        Some(p) => {
            let wanted = str_to_lowercase(p);
            let mut i: usize = 0;
            while i < names.len()
                invariant
                    i <= names.len(),
                    preferred == Some(p),
                    wanted@ == lowercase(p@),
                    forall|j: int| 0 <= j < i ==> !device_matches(#[trigger] names@[j], p@),
                decreases names.len() - i,
            {
                match &names[i] {
                    Some(name) => {
                        let lower = str_to_lowercase(name.as_str());
                        if text_contains(lower.as_str(), wanted.as_str()) {
                            return Some(i);
                        }
                    },
                    None => {},
                }
                i = i + 1;
            }
            None
        },
    }
}


/// The stream configuration retried when the device rejects a fixed buffer
/// size: the same with the device's default buffer size. There is none to
/// retry when the device already chose the buffer size.
pub fn fallback_stream(plan: StreamPlan) -> (r: Option<StreamPlan>)
    ensures
        plan.buffer_size is Default ==> r is None,
        plan.buffer_size is Fixed ==> r == Some(StreamPlan {
            channels: plan.channels,
            sample_rate: plan.sample_rate,
            buffer_size: BufferSize::Default,
        }),
{
    match plan.buffer_size {
        BufferSize::Default => None,
        BufferSize::Fixed(_) => Some(StreamPlan {
            channels: plan.channels,
            sample_rate: plan.sample_rate,
            buffer_size: BufferSize::Default,
        }),
    }
}

/// Why the audio output is not running.
#[derive(Debug, Clone, Copy, PartialEq, Eq, Structural)]
pub enum AudioFault {
    /// No output device was found when opening the stream.
    NoDevice,
    /// A running stream reported an error, such as its device being
    /// unplugged.
    StreamLost,
    /// Opening the stream failed for another reason.
    Other,
}

/// Milliseconds to wait before trying again to find a device at startup.
pub const NO_DEVICE_RETRY_MS: u64 = 5000;

/// Milliseconds to wait before rebuilding a stream that was lost.
pub const STREAM_REBUILD_DELAY_MS: u64 = 1000;

/// How long to wait before opening the audio output again after a fault;
/// `None` when the fault is fatal. Without a device the daemon idles and
/// retries rather than crashing; a lost stream is rebuilt after a pause.
pub fn retry_delay_ms(fault: AudioFault) -> (delay: Option<u64>)
    ensures
        fault is NoDevice ==> delay == Some(NO_DEVICE_RETRY_MS),
        fault is StreamLost ==> delay == Some(STREAM_REBUILD_DELAY_MS),
        fault is Other ==> delay is None,
{
    match fault {
        AudioFault::NoDevice => Some(NO_DEVICE_RETRY_MS),
        AudioFault::StreamLost => Some(STREAM_REBUILD_DELAY_MS),
        AudioFault::Other => None,
    }
}

/// The mixer that an audio stream renders with: all voices idle, the
/// configured master gain, and the configured voice count clamped to
/// `1..=MAX_VOICES`.
pub fn engine_mixer(config: &AudioConfig) -> (m: Mixer)
    ensures
        m.wf(),
        m@.voices == Seq::new(MAX_VOICES as nat, |i: int| crate::mixer::idle_voice()),
        m@.next_voice == 0,
        m@.master_gain == config.master_gain,
        m@.voice_count == clamped_voice_count(config.voice_count),
{
    Mixer::new(config.master_gain, clamp_voice_count(config.voice_count))
}

} // verus!
