use vstd::prelude::*;

use crate::config::{Gain, MAX_VOICES};

verus! {

/// Bit pattern of the IEEE-754 single `1.0`, the gain of a triggered voice.
pub const UNITY_GAIN_BITS: u32 = 0x3F80_0000;

/// What a voice holds: the sample it plays (an index into the sample bank),
/// the next frame to play, whether it plays, and its gain as float bits.
#[derive(Debug, Clone, Copy, PartialEq, Eq, Structural)]
pub struct VoiceState {
    pub sample: Option<usize>,
    pub frame_pos: usize,
    pub active: bool,
    pub gain_bits: u32,
}

/// The outcome of mixing one voice into one output buffer: whether the
/// voice still plays afterwards, and which frames of its sample it added to
/// the first `frames` frames of the buffer (frames `start .. start + frames`).
#[derive(Debug, Clone, Copy, PartialEq, Eq, Structural)]
pub struct MixStep {
    pub active: bool,
    pub start: usize,
    pub frames: usize,
}

/// One voice's contribution to a rendered buffer: frames
/// `start .. start + frames` of sample `sample`, scaled by `gain_bits`, are
/// added to the first `frames` frames of the buffer. A span with no frames
/// adds nothing.
#[derive(Debug, Clone, Copy, PartialEq, Eq, Structural)]
pub struct MixSpan {
    pub sample: usize,
    pub start: usize,
    pub frames: usize,
    pub gain_bits: u32,
}

/// The length of the sample a voice plays, when it names one in the bank.
pub open spec fn sample_len_of(sample: Option<usize>, lens: Seq<usize>) -> Option<usize> {
    match sample {
        Some(i) => if i < lens.len() { Some(lens[i as int]) } else { None },
        None => None,
    }
}

/// Mixing a voice into a buffer of `out_len` frames: an idle voice adds
/// nothing; a voice without a sample stops; otherwise it adds the next
/// `min(out_len, len - frame_pos)` frames of its sample, and stops when it
/// runs past the sample's end within this buffer. A voice whose remaining
/// frames exactly fill the buffer stays active and stops on the next call.
pub open spec fn mix_step(v: VoiceState, out_len: usize, lens: Seq<usize>) -> (VoiceState, MixStep) {
    let stopped = VoiceState { sample: v.sample, frame_pos: v.frame_pos, active: false, gain_bits: v.gain_bits };
    if !v.active {
        (v, MixStep { active: false, start: v.frame_pos, frames: 0 })
    } else {
        match sample_len_of(v.sample, lens) {
            None => (stopped, MixStep { active: false, start: v.frame_pos, frames: 0 }),
            Some(len) => if out_len == 0 {
                (v, MixStep { active: true, start: v.frame_pos, frames: 0 })
            } else if v.frame_pos + out_len <= len {
                (
                    VoiceState { sample: v.sample, frame_pos: (v.frame_pos + out_len) as usize, active: true, gain_bits: v.gain_bits },
                    MixStep { active: true, start: v.frame_pos, frames: out_len },
                )
            } else if v.frame_pos < len {
                (
                    VoiceState { sample: v.sample, frame_pos: len, active: false, gain_bits: v.gain_bits },
                    MixStep { active: false, start: v.frame_pos, frames: (len - v.frame_pos) as usize },
                )
            } else {
                (stopped, MixStep { active: false, start: v.frame_pos, frames: 0 })
            },
        }
    }
}

/// A single playback voice.
#[derive(Debug, Clone, Copy)]
pub struct Voice {
    sample: Option<usize>,
    frame_pos: usize,
    active: bool,
    gain_bits: u32,
}

impl View for Voice {
    type V = VoiceState;

    closed spec fn view(&self) -> VoiceState {
        VoiceState { sample: self.sample, frame_pos: self.frame_pos, active: self.active, gain_bits: self.gain_bits }
    }
}

/// An idle voice with no sample and unity gain.
pub open spec fn idle_voice() -> VoiceState {
    VoiceState { sample: None, frame_pos: 0, active: false, gain_bits: UNITY_GAIN_BITS }
}

/// A voice just triggered on `sample` with gain `gain_bits`.
pub open spec fn triggered_voice(sample: usize, gain_bits: u32) -> VoiceState {
    VoiceState { sample: Some(sample), frame_pos: 0, active: true, gain_bits }
}

impl Voice {
    pub fn new() -> (v: Voice)
        ensures
            v@ == idle_voice(),
    {
        Voice { sample: None, frame_pos: 0, active: false, gain_bits: UNITY_GAIN_BITS }
    }

    /// Start playing `sample` from its first frame with gain `gain_bits`.
    pub fn trigger(&mut self, sample: usize, gain_bits: u32)
        ensures
            final(self)@ == triggered_voice(sample, gain_bits),
    {
        self.sample = Some(sample);
        self.frame_pos = 0;
        self.gain_bits = gain_bits;
        self.active = true;
    }

    pub fn is_active(&self) -> (r: bool)
        ensures
            r == self@.active,
    {
        self.active
    }

    /// Mix this voice into an output buffer of `out_len` frames, given the
    /// lengths of the samples in the bank. Returns what was added and
    /// whether the voice is still active.
    pub fn mix_into(&mut self, out_len: usize, sample_lens: &[usize]) -> (step: MixStep)
        ensures
            (final(self)@, step) == mix_step(old(self)@, out_len, sample_lens@),
    {
        let start: usize = self.frame_pos;
        if !self.active {
            return MixStep { active: false, start, frames: 0 };
        }
        let len: usize = match self.sample {
            Some(i) => {
                if i < sample_lens.len() {
                    sample_lens[i]
                } else {
                    self.active = false;
                    return MixStep { active: false, start, frames: 0 };
                }
            },
            None => {
                self.active = false;
                return MixStep { active: false, start, frames: 0 };
            },
        };
        if out_len == 0 {
            MixStep { active: true, start, frames: 0 }
        } else if start < len && out_len <= len - start {
            self.frame_pos = start + out_len;
            MixStep { active: true, start, frames: out_len }
        } else if start < len {
            self.frame_pos = len;
            self.active = false;
            MixStep { active: false, start, frames: len - start }
        } else {
            self.active = false;
            MixStep { active: false, start, frames: 0 }
        }
    }
}


/// What a mixer holds: its voices, the round-robin cursor, the master gain
/// and the number of voices in use.
pub struct MixerState {
    pub voices: Seq<VoiceState>,
    pub next_voice: usize,
    pub master_gain: Gain,
    pub voice_count: usize,
}

/// A mixer state is well formed when it has `MAX_VOICES` voices, uses
/// between one and all of them, and its cursor points at a used voice.
pub open spec fn mixer_wf(m: MixerState) -> bool {
    &&& m.voices.len() == MAX_VOICES
    &&& 1 <= m.voice_count <= MAX_VOICES
    &&& m.next_voice < m.voice_count
}

/// Triggering `sample`: the voice under the cursor is stolen and restarted
/// on `sample` at unity gain, and the cursor moves to the next used voice.
pub open spec fn trigger_state(m: MixerState, sample: usize) -> MixerState {
    MixerState {
        voices: m.voices.update((m.next_voice % m.voice_count) as int, triggered_voice(sample, UNITY_GAIN_BITS)),
        next_voice: ((m.next_voice + 1) % (m.voice_count as int)) as usize,
        master_gain: m.master_gain,
        voice_count: m.voice_count,
    }
}

/// The span that a voice adds to a buffer, given its mix step.
pub open spec fn span_of(v: VoiceState, step: MixStep) -> MixSpan {
    MixSpan {
        sample: match v.sample { Some(i) => i, None => 0 },
        start: step.start,
        frames: step.frames,
        gain_bits: v.gain_bits,
    }
}

/// Rendering a buffer of `out_len` frames: each used voice takes one mix
/// step; unused voices, the cursor and the gain are left alone.
pub open spec fn render_state(m: MixerState, out_len: usize, lens: Seq<usize>) -> MixerState {
    MixerState {
        voices: Seq::new(m.voices.len(), |i: int|
            if i < m.voice_count { mix_step(m.voices[i], out_len, lens).0 } else { m.voices[i] }),
        next_voice: m.next_voice,
        master_gain: m.master_gain,
        voice_count: m.voice_count,
    }
}

/// The spans that rendering adds to the buffer, one per used voice, in
/// voice order.
pub open spec fn render_spans(m: MixerState, out_len: usize, lens: Seq<usize>) -> Seq<MixSpan> {
    Seq::new(m.voice_count as nat, |i: int| span_of(m.voices[i], mix_step(m.voices[i], out_len, lens).1))
}

/// Fixed-size voice stealer mixer: a fixed pool of `MAX_VOICES` voices of
/// which the first `active_voice_count` are used, stolen round-robin.
pub struct Mixer {
    voices: Vec<Voice>,
    next_voice: usize,
    master_gain: Gain,
    active_voice_count: usize,
}

impl View for Mixer {
    type V = MixerState;

    closed spec fn view(&self) -> MixerState {
        MixerState {
            voices: self.voices@.map_values(|v: Voice| v@),
            next_voice: self.next_voice,
            master_gain: self.master_gain,
            voice_count: self.active_voice_count,
        }
    }
}

impl Mixer {
    /// Whether the mixer is well formed; every mixer made by `new` is, and
    /// every method keeps it so.
    pub open spec fn wf(&self) -> bool {
        mixer_wf(self@)
    }

    /// A mixer with all voices idle, using `active_voice_count` voices
    /// clamped to `1..=MAX_VOICES`.
    pub fn new(master_gain: Gain, active_voice_count: usize) -> (m: Mixer)
        ensures
            m.wf(),
            m@.voices == Seq::new(MAX_VOICES as nat, |i: int| idle_voice()),
            m@.next_voice == 0,
            m@.master_gain == master_gain,
            m@.voice_count == crate::config::clamped_voice_count(active_voice_count),
    {
        let count: usize = crate::config::clamp_voice_count(active_voice_count);
        let mut voices: Vec<Voice> = Vec::new();
        while voices.len() < MAX_VOICES
            invariant
                voices.len() <= MAX_VOICES,
                forall|i: int| 0 <= i < voices.len() ==> #[trigger] voices@[i]@ == idle_voice(),
            decreases MAX_VOICES - voices.len(),
        {
            voices.push(Voice::new());
        }
        let m = Mixer { voices, next_voice: 0, master_gain, active_voice_count: count };
        assert(m@.voices =~= Seq::new(MAX_VOICES as nat, |i: int| idle_voice()));
        m
    }

    /// The gain applied to the mixed buffer.
    pub fn master_gain(&self) -> (g: Gain)
        ensures
            g == self@.master_gain,
    {
        self.master_gain
    }

    /// Trigger a sample on the next voice (round-robin steal).
    pub fn trigger(&mut self, sample: usize)
        requires
            old(self).wf(),
        ensures
            final(self).wf(),
            final(self)@ == trigger_state(old(self)@, sample),
    {
        let idx: usize = self.next_voice % self.active_voice_count;
        self.next_voice = (self.next_voice + 1) % self.active_voice_count;
        let mut voice = self.voices[idx];
        voice.trigger(sample, UNITY_GAIN_BITS);
        self.voices.set(idx, voice);
        assert(self@.voices =~= trigger_state(old(self)@, sample).voices);
    }

    /// Render one output buffer of `out_len` frames, given the lengths of
    /// the samples in the bank: advances every used voice and puts in
    /// `spans`, per used voice in order, the frames it adds (replacing what
    /// `spans` held, so that a buffer reserved once serves every call).
    /// Zeroing the output, scaling the sum by the master gain and clamping
    /// it to `[-1, 1]` are done on the sample data by the caller.
    pub fn render(&mut self, out_len: usize, sample_lens: &[usize], spans: &mut Vec<MixSpan>)
        requires
            old(self).wf(),
        ensures
            final(self).wf(),
            final(self)@ == render_state(old(self)@, out_len, sample_lens@),
            final(spans)@ == render_spans(old(self)@, out_len, sample_lens@),
    {
        let ghost m0 = self@;
        spans.clear();
        let count: usize = self.active_voice_count;
        let mut i: usize = 0;
        while i < count
            invariant
                mixer_wf(m0),
                count == m0.voice_count,
                i <= count,
                self.voices@.len() == MAX_VOICES,
                self.next_voice == m0.next_voice,
                self.master_gain == m0.master_gain,
                self.active_voice_count == m0.voice_count,
                forall|j: int| 0 <= j < MAX_VOICES ==> #[trigger] self.voices@[j]@ ==
                    if j < i { mix_step(m0.voices[j], out_len, sample_lens@).0 } else { m0.voices[j] },
                spans@.len() == i,
                forall|j: int| 0 <= j < i ==> #[trigger] spans@[j] ==
                    span_of(m0.voices[j], mix_step(m0.voices[j], out_len, sample_lens@).1),
            decreases count - i,
        {
            let mut voice = self.voices[i];
            let before = voice;
            let step = voice.mix_into(out_len, sample_lens);
            let sample: usize = match before.sample {
                Some(s) => s,
                None => 0,
            };
            spans.push(MixSpan { sample, start: step.start, frames: step.frames, gain_bits: before.gain_bits });
            self.voices.set(i, voice);
            i = i + 1;
        }
        assert(self@.voices =~= render_state(m0, out_len, sample_lens@).voices);
        assert(spans@ =~= render_spans(m0, out_len, sample_lens@));
    }
}


/// The mixer state after triggering each of `samples` in order.
pub open spec fn trigger_all(m: MixerState, samples: Seq<usize>) -> MixerState
    decreases samples.len(),
{
    if samples.len() == 0 {
        m
    } else {
        trigger_all(trigger_state(m, samples[0]), samples.drop_first())
    }
}

/// How many triggers after the one at the cursor voice `j` is reached.
pub open spec fn steal_distance(m: MixerState, j: int) -> int {
    (j - m.next_voice + m.voice_count) % (m.voice_count as int)
}

proof fn lemma_mod_two_ranges(x: int, c: int)
    requires
        0 < c,
        0 <= x < 2 * c,
    ensures
        x % c == if x < c { x } else { x - c },
{
    if x < c {
        vstd::arithmetic::div_mod::lemma_small_mod(x as nat, c as nat);
    } else {
        vstd::arithmetic::div_mod::lemma_small_mod((x - c) as nat, c as nat);
        vstd::arithmetic::div_mod::lemma_mod_sub_multiples_vanish(x, c);
    }
}

proof fn lemma_steal_distance_step(m: MixerState, sample: usize, j: int)
    requires
        mixer_wf(m),
        0 <= j < m.voice_count,
    ensures
        0 <= steal_distance(m, j) < m.voice_count,
        j == m.next_voice ==> steal_distance(m, j) == 0
            && steal_distance(trigger_state(m, sample), j) == m.voice_count - 1,
        j != m.next_voice ==> steal_distance(m, j) >= 1
            && steal_distance(trigger_state(m, sample), j) == steal_distance(m, j) - 1,
{
    let c: int = m.voice_count as int;
    let n: int = m.next_voice as int;
    let n1: int = trigger_state(m, sample).next_voice as int;
    lemma_mod_two_ranges(n + 1, c);
    lemma_mod_two_ranges(j - n + c, c);
    lemma_mod_two_ranges(j - n1 + c, c);
}

/// Round-robin stealing: starting from any well-formed mixer, a run of at
/// most `voice_count` triggers restarts that many distinct voices, in order
/// from the cursor, each on its own sample at unity gain; every other voice
/// is untouched, and the cursor ends `samples.len()` voices further on.
/// So up to `voice_count` keystrokes sound at once, and a keystroke only
/// cuts off the voice triggered `voice_count` keystrokes before it.
pub proof fn lemma_round_robin_stealing(m: MixerState, samples: Seq<usize>)
    requires
        mixer_wf(m),
        samples.len() <= m.voice_count,
    ensures
        mixer_wf(trigger_all(m, samples)),
        trigger_all(m, samples).voice_count == m.voice_count,
        trigger_all(m, samples).master_gain == m.master_gain,
        trigger_all(m, samples).next_voice == (m.next_voice + samples.len()) % (m.voice_count as int),
        forall|j: int| 0 <= j < MAX_VOICES ==> #[trigger] trigger_all(m, samples).voices[j] ==
            if j < m.voice_count && steal_distance(m, j) < samples.len() {
                triggered_voice(samples[steal_distance(m, j)], UNITY_GAIN_BITS)
            } else {
                m.voices[j]
            },
    decreases samples.len(),
{
    let c: int = m.voice_count as int;
    let n: int = m.next_voice as int;
    lemma_mod_two_ranges(n, c);
    if samples.len() > 0 {
        let m1 = trigger_state(m, samples[0]);
        let rest = samples.drop_first();
        lemma_mod_two_ranges(n + 1, c);
        lemma_round_robin_stealing(m1, rest);
        let r = trigger_all(m1, rest);
        assert(r == trigger_all(m, samples));
        let len: int = samples.len() as int;
        vstd::arithmetic::div_mod::lemma_add_mod_noop(n + 1, len - 1, c);
        lemma_mod_two_ranges(len - 1, c);
        assert(r.next_voice == (n + len) % c);
        assert forall|j: int| 0 <= j < MAX_VOICES implies #[trigger] r.voices[j] ==
            if j < c && steal_distance(m, j) < len {
                triggered_voice(samples[steal_distance(m, j)], UNITY_GAIN_BITS)
            } else {
                m.voices[j]
            } by {
            if j < c {
                lemma_steal_distance_step(m, samples[0], j);
                if j != n {
                    assert(steal_distance(m1, j) == steal_distance(m, j) - 1);
                    if steal_distance(m, j) < len {
                        assert(rest[steal_distance(m1, j)] == samples[steal_distance(m, j)]);
                    }
                }
            }
        }
    }
}

/// A voice plays its sample contiguously and only stops at the sample's
/// end: each mix step starts at the voice's position, moves it forward by
/// exactly the frames added, never past the end of the sample, adds no more
/// frames than the buffer holds, adds at least one frame while frames
/// remain and the buffer is not empty, and a voice that stops has reached
/// the end of its sample.
pub proof fn lemma_voice_plays_to_end(v: VoiceState, out_len: usize, lens: Seq<usize>)
    requires
        v.active,
        sample_len_of(v.sample, lens) is Some,
        v.frame_pos <= sample_len_of(v.sample, lens).unwrap(),
    ensures
        ({
            let len: usize = sample_len_of(v.sample, lens).unwrap();
            let (v2, step) = mix_step(v, out_len, lens);
            &&& step.start == v.frame_pos
            &&& v2.frame_pos == v.frame_pos + step.frames
            &&& v2.frame_pos <= len
            &&& step.frames <= out_len
            &&& (out_len > 0 && v.frame_pos < len ==> step.frames > 0)
            &&& (!v2.active ==> v2.frame_pos == len)
            &&& step.active == v2.active
            &&& v2.sample == v.sample
        }),
{
}

/// An idle voice adds nothing and stays idle and unchanged.
pub proof fn lemma_idle_voice_is_silent(v: VoiceState, out_len: usize, lens: Seq<usize>)
    requires
        !v.active,
    ensures
        mix_step(v, out_len, lens).0 == v,
        mix_step(v, out_len, lens).1.frames == 0,
        !mix_step(v, out_len, lens).1.active,
{
}


/// A key press is heard from the start of its click: after a trigger, the
/// next render adds, for the stolen voice, the first `min(out_len, len)`
/// frames of the triggered sample at unity gain.
pub proof fn lemma_trigger_then_render_plays_from_start(m: MixerState, sample: usize, out_len: usize, lens: Seq<usize>)
    requires
        mixer_wf(m),
        sample < lens.len(),
        out_len > 0,
    ensures
        ({
            let v = m.next_voice as int;
            let span = render_spans(trigger_state(m, sample), out_len, lens)[v];
            &&& span.sample == sample
            &&& span.start == 0
            &&& span.frames == if out_len <= lens[sample as int] { out_len } else { lens[sample as int] }
            &&& span.gain_bits == UNITY_GAIN_BITS
        }),
{
    let c: int = m.voice_count as int;
    lemma_mod_two_ranges(m.next_voice as int, c);
}

proof fn lemma_trigger_all_push(m: MixerState, s: Seq<usize>, x: usize)
    ensures
        trigger_all(m, s.push(x)) == trigger_state(trigger_all(m, s), x),
    decreases s.len(),
{
    if s.len() == 0 {
        assert(s.push(x).drop_first() =~= s);
        assert(s.push(x)[0] == x);
        assert(trigger_all(trigger_state(m, x), Seq::<usize>::empty()) == trigger_state(m, x));
        assert(s =~= Seq::<usize>::empty());
        assert(trigger_all(m, s) == m);
    } else {
        assert(s.push(x)[0] == s[0]);
        assert(s.push(x).drop_first() =~= s.drop_first().push(x));
        lemma_trigger_all_push(trigger_state(m, s[0]), s.drop_first(), x);
    }
}

proof fn lemma_mod_distinct(a: int, b: int, c: int)
    requires
        0 < c,
        0 <= a < b,
        b - a < c,
    ensures
        a % c != b % c,
{
    vstd::arithmetic::div_mod::lemma_mod_equivalence(b, a, c);
    vstd::arithmetic::div_mod::lemma_small_mod((b - a) as nat, c as nat);
}

/// Round-robin stealing for a run of any length: after any run of
/// triggers, the last `voice_count` of them (all of them, for a shorter
/// run) each sound in their own voice, the `i`-th of the run in the voice
/// `i` places after the cursor, from their first frame at unity gain; the
/// cursor ends as many voices further on as there were triggers, and the
/// unused voices are untouched. So exactly the last `min(run, voice_count)`
/// triggered samples sound.
pub proof fn lemma_last_triggers_sound(m: MixerState, samples: Seq<usize>)
    requires
        mixer_wf(m),
    ensures
        mixer_wf(trigger_all(m, samples)),
        trigger_all(m, samples).voice_count == m.voice_count,
        trigger_all(m, samples).master_gain == m.master_gain,
        trigger_all(m, samples).next_voice == (m.next_voice + samples.len()) % (m.voice_count as int),
        forall|i: int| #![trigger samples[i]]
            0 <= i < samples.len() && samples.len() - m.voice_count <= i ==>
            trigger_all(m, samples).voices[(m.next_voice + i) % (m.voice_count as int)]
                == triggered_voice(samples[i], UNITY_GAIN_BITS),
        forall|j: int| m.voice_count <= j < MAX_VOICES ==> #[trigger] trigger_all(m, samples).voices[j] == m.voices[j],
    decreases samples.len(),
{
    let c: int = m.voice_count as int;
    let n: int = m.next_voice as int;
    if samples.len() == 0 {
        lemma_mod_two_ranges(n, c);
        assert(trigger_all(m, samples) == m);
    } else {
        let prefix = samples.drop_last();
        let x = samples.last();
        let len: int = prefix.len() as int;
        lemma_last_triggers_sound(m, prefix);
        assert(prefix.push(x) =~= samples);
        lemma_trigger_all_push(m, prefix, x);
        let r = trigger_all(m, prefix);
        let t: int = (n + len) % c;
        assert(0 <= t < c) by (nonlinear_arith) requires t == (n + len) % c, c > 0, n + len >= 0;
        lemma_mod_two_ranges(t, c);
        assert(r.next_voice as int % c == t);
        let r1 = trigger_state(r, x);
        assert(r1 == trigger_all(m, samples));
        vstd::arithmetic::div_mod::lemma_add_mod_noop(n + len, 1, c);
        lemma_mod_two_ranges(1, c);
        lemma_mod_two_ranges(t + 1, c);
        vstd::arithmetic::div_mod::lemma_mod_twice(n + len + 1, c);
        assert(r1.next_voice == (n + len + 1) % c);
        assert forall|i: int| #![trigger samples[i]]
            0 <= i < samples.len() && samples.len() - c <= i implies
            r1.voices[(n + i) % c] == triggered_voice(samples[i], UNITY_GAIN_BITS) by {
            if i < len {
                lemma_mod_distinct(n + i, n + len, c);
                assert(prefix[i] == samples[i]);
                assert(0 <= (n + i) % c < c) by (nonlinear_arith) requires c > 0, n + i >= 0;
            }
        }
    }
}

/// Rendering does not depend on how the output is split into buffers, for
/// one voice: mixing `n1` frames and then `n2` frames leaves the voice as
/// mixing `n1 + n2` frames at once does; the two spans are consecutive runs
/// of the sample that together make the single span, and the second adds
/// frames only when the first filled its whole buffer.
pub proof fn lemma_voice_mix_split(v: VoiceState, n1: usize, n2: usize, lens: Seq<usize>)
    requires
        n1 + n2 <= usize::MAX,
    ensures
        ({
            let (v1, a) = mix_step(v, n1, lens);
            let (v2, b) = mix_step(v1, n2, lens);
            let (w, c) = mix_step(v, (n1 + n2) as usize, lens);
            &&& v2 == w
            &&& c.start == a.start
            &&& b.start == a.start + a.frames
            &&& c.frames == a.frames + b.frames
            &&& (b.frames > 0 ==> a.frames == n1)
            &&& c.active == b.active
            &&& v1.sample == v.sample && v1.gain_bits == v.gain_bits
        }),
{
}

/// Rendering does not depend on how the output is split into buffers:
/// rendering `n1` frames and then `n2` frames leaves the mixer as rendering
/// `n1 + n2` frames at once does, and for every used voice the spans of the
/// two renders are consecutive runs of the same sample that together make
/// its span in the single render, the second adding frames only when the
/// first filled its whole buffer.
pub proof fn lemma_render_split(m: MixerState, n1: usize, n2: usize, lens: Seq<usize>)
    requires
        mixer_wf(m),
        n1 + n2 <= usize::MAX,
    ensures
        render_state(render_state(m, n1, lens), n2, lens) == render_state(m, (n1 + n2) as usize, lens),
        forall|i: int| 0 <= i < m.voice_count ==> {
            let a = #[trigger] render_spans(m, n1, lens)[i];
            let b = render_spans(render_state(m, n1, lens), n2, lens)[i];
            let c = render_spans(m, (n1 + n2) as usize, lens)[i];
            &&& a.sample == c.sample && b.sample == c.sample
            &&& a.gain_bits == c.gain_bits && b.gain_bits == c.gain_bits
            &&& c.start == a.start
            &&& b.start == a.start + a.frames
            &&& c.frames == a.frames + b.frames
            &&& (b.frames > 0 ==> a.frames == n1)
        },
{
    let m1 = render_state(m, n1, lens);
    let m2 = render_state(m1, n2, lens);
    let mc = render_state(m, (n1 + n2) as usize, lens);
    assert forall|i: int| 0 <= i < m.voices.len() implies #[trigger] m2.voices[i] == mc.voices[i] by {
        if i < m.voice_count {
            lemma_voice_mix_split(m.voices[i], n1, n2, lens);
        }
    }
    assert(m2.voices =~= mc.voices);
    assert forall|i: int| 0 <= i < m.voice_count implies {
        let a = #[trigger] render_spans(m, n1, lens)[i];
        let b = render_spans(m1, n2, lens)[i];
        let c = render_spans(m, (n1 + n2) as usize, lens)[i];
        &&& a.sample == c.sample && b.sample == c.sample
        &&& a.gain_bits == c.gain_bits && b.gain_bits == c.gain_bits
        &&& c.start == a.start
        &&& b.start == a.start + a.frames
        &&& c.frames == a.frames + b.frames
        &&& (b.frames > 0 ==> a.frames == n1)
    } by {
        lemma_voice_mix_split(m.voices[i], n1, n2, lens);
    }
}

} // verus!
