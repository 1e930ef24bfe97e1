use std::collections::HashMap;
use std::path::PathBuf;
use vstd::prelude::*;

verus! {

/// `std::path::PathBuf`, carried unchanged: the configuration never looks
/// inside a path.
#[verifier::external_type_specification]
#[verifier::external_body]
pub struct ExPathBuf(PathBuf);

/// Hard structural invariant: maximum simultaneous voices.
pub const MAX_VOICES: usize = 8;

/// Default sample rate in Hz.
pub const DEFAULT_SAMPLE_RATE: u32 = 48000;

/// Default number of output channels.
pub const DEFAULT_CHANNELS: u16 = 1;

/// Default buffer size; zero lets the device choose.
pub const DEFAULT_BUFFER_SIZE: u32 = 0;

/// Bit pattern of the default master gain, the IEEE-754 single `0.3`.
pub const DEFAULT_MASTER_GAIN_BITS: u32 = 0x3E99_999A;

/// Default number of voices the mixer uses.
pub const DEFAULT_VOICE_COUNT: usize = 8;

/// Key-hold repeats are ignored by default.
pub const DEFAULT_SUPPRESS_REPEAT: bool = true;

/// Sample index that unknown keys map to by default.
pub const DEFAULT_UNKNOWN_KEY_MAPPING: u32 = 0;

/// Default number of click variations in a sound pack.
pub const DEFAULT_VARIATION_COUNT: usize = 8;

/// A gain factor, carried as the bit pattern of an IEEE-754 single.
///
/// The mixer multiplies samples by it outside this crate. The configuration
/// logic only reads `is_default`: whether, in a configuration used as an
/// overlay, the gain counts as not set and leaves the base's gain in place.
/// A gain read from a configuration file counts as not set when it equals
/// the default master gain (within `f32::EPSILON` of `0.3`), which the code
/// that builds a `Gain` from a float records; a gain given on the command
/// line always counts as set (see `config_from_cli`).
#[derive(Debug, Clone, Copy, PartialEq, Eq, Structural)]
pub struct Gain {
    pub bits: u32,
    pub is_default: bool,
}

impl Gain {
    /// The default master gain, `0.3`.
    pub fn default_master() -> (g: Gain)
        ensures
            g.bits == DEFAULT_MASTER_GAIN_BITS,
            g.is_default,
    {
        Gain { bits: DEFAULT_MASTER_GAIN_BITS, is_default: true }
    }
}

pub fn default_sample_rate() -> (r: u32)
    ensures
        r == DEFAULT_SAMPLE_RATE,
{
    DEFAULT_SAMPLE_RATE
}

pub fn default_channels() -> (r: u16)
    ensures
        r == DEFAULT_CHANNELS,
{
    DEFAULT_CHANNELS
}

pub fn default_buffer_size() -> (r: u32)
    ensures
        r == DEFAULT_BUFFER_SIZE,
{
    DEFAULT_BUFFER_SIZE
}

pub fn default_master_gain() -> (r: Gain)
    ensures
        r.bits == DEFAULT_MASTER_GAIN_BITS,
        r.is_default,
{
    Gain::default_master()
}

pub fn default_voice_count() -> (r: usize)
    ensures
        r == DEFAULT_VOICE_COUNT,
{
    DEFAULT_VOICE_COUNT
}

pub fn default_suppress_repeat() -> (r: bool)
    ensures
        r == DEFAULT_SUPPRESS_REPEAT,
{
    DEFAULT_SUPPRESS_REPEAT
}

pub fn default_unknown_key_mapping() -> (r: u32)
    ensures
        r == DEFAULT_UNKNOWN_KEY_MAPPING,
{
    DEFAULT_UNKNOWN_KEY_MAPPING
}

pub fn default_variation_count() -> (r: usize)
    ensures
        r == DEFAULT_VARIATION_COUNT,
{
    DEFAULT_VARIATION_COUNT
}


/// Audio output settings.
#[derive(Debug, Clone, PartialEq)]
pub struct AudioConfig {
    pub sample_rate: u32,
    pub channels: u16,
    pub buffer_size: u32,
    pub master_gain: Gain,
    pub preferred_device: Option<String>,
    pub voice_count: usize,
}

/// Keyboard input settings.
#[derive(Debug, Clone, PartialEq)]
pub struct InputConfig {
    pub suppress_repeat: bool,
    pub unknown_key_mapping: u32,
}

/// Sound pack settings.
#[derive(Debug, Clone, PartialEq)]
pub struct SoundPackConfig {
    pub pack_dir: Option<PathBuf>,
    pub per_key_map: Option<HashMap<u32, usize>>,
    pub default_variation_count: usize,
}

/// The whole daemon configuration.
#[derive(Debug, Clone, PartialEq)]
pub struct Config {
    pub audio: AudioConfig,
    pub input: InputConfig,
    pub sound_pack: SoundPackConfig,
}

/// The default audio settings.
pub open spec fn default_audio_config() -> AudioConfig {
    AudioConfig {
        sample_rate: DEFAULT_SAMPLE_RATE,
        channels: DEFAULT_CHANNELS,
        buffer_size: DEFAULT_BUFFER_SIZE,
        master_gain: Gain { bits: DEFAULT_MASTER_GAIN_BITS, is_default: true },
        preferred_device: None,
        voice_count: DEFAULT_VOICE_COUNT,
    }
}

/// The default input settings.
pub open spec fn default_input_config() -> InputConfig {
    InputConfig {
        suppress_repeat: DEFAULT_SUPPRESS_REPEAT,
        unknown_key_mapping: DEFAULT_UNKNOWN_KEY_MAPPING,
    }
}

/// The default sound pack settings.
pub open spec fn default_sound_pack_config() -> SoundPackConfig {
    SoundPackConfig {
        pack_dir: None,
        per_key_map: None,
        default_variation_count: DEFAULT_VARIATION_COUNT,
    }
}

/// The default configuration.
pub open spec fn default_config() -> Config {
    Config {
        audio: default_audio_config(),
        input: default_input_config(),
        sound_pack: default_sound_pack_config(),
    }
}

impl Default for AudioConfig {
    fn default() -> (r: Self)
        ensures
            r == default_audio_config(),
    {
        AudioConfig {
            sample_rate: DEFAULT_SAMPLE_RATE,
            channels: DEFAULT_CHANNELS,
            buffer_size: DEFAULT_BUFFER_SIZE,
            master_gain: Gain::default_master(),
            preferred_device: None,
            voice_count: DEFAULT_VOICE_COUNT,
        }
    }
}

impl Default for InputConfig {
    fn default() -> (r: Self)
        ensures
            r == default_input_config(),
    {
        InputConfig {
            suppress_repeat: DEFAULT_SUPPRESS_REPEAT,
            unknown_key_mapping: DEFAULT_UNKNOWN_KEY_MAPPING,
        }
    }
}

impl Default for SoundPackConfig {
    fn default() -> (r: Self)
        ensures
            r == default_sound_pack_config(),
    {
        SoundPackConfig {
            pack_dir: None,
            per_key_map: None,
            default_variation_count: DEFAULT_VARIATION_COUNT,
        }
    }
}

impl Default for Config {
    fn default() -> (r: Self)
        ensures
            r == default_config(),
    {
        Config {
            audio: AudioConfig::default(),
            input: InputConfig::default(),
            sound_pack: SoundPackConfig::default(),
        }
    }
}


/// A requested voice count brought into `1..=MAX_VOICES`.
pub open spec fn clamped_voice_count(n: usize) -> usize {
    if n < 1 {
        1
    } else if n > MAX_VOICES {
        MAX_VOICES
    } else {
        n
    }
}

/// Brings a requested voice count into `1..=MAX_VOICES`.
pub fn clamp_voice_count(n: usize) -> (r: usize)
    ensures
        r == clamped_voice_count(n),
        1 <= r <= MAX_VOICES,
{
    if n < 1 {
        1
    } else if n > MAX_VOICES {
        MAX_VOICES
    } else {
        n
    }
}

/// The configuration that `merge_config(base, other)` returns: each field of
/// `other` that differs from its default (a present value, for the optional
/// fields) replaces the field of `base`; a replacing voice count is clamped.
pub open spec fn merged_config(base: Config, other: Config) -> Config {
    Config {
        audio: AudioConfig {
            sample_rate: if other.audio.sample_rate != DEFAULT_SAMPLE_RATE {
                other.audio.sample_rate
            } else {
                base.audio.sample_rate
            },
            channels: if other.audio.channels != DEFAULT_CHANNELS {
                other.audio.channels
            } else {
                base.audio.channels
            },
            buffer_size: if other.audio.buffer_size != DEFAULT_BUFFER_SIZE {
                other.audio.buffer_size
            } else {
                base.audio.buffer_size
            },
            master_gain: if !other.audio.master_gain.is_default {
                other.audio.master_gain
            } else {
                base.audio.master_gain
            },
            preferred_device: if other.audio.preferred_device is Some {
                other.audio.preferred_device
            } else {
                base.audio.preferred_device
            },
            voice_count: if other.audio.voice_count != DEFAULT_VOICE_COUNT {
                clamped_voice_count(other.audio.voice_count)
            } else {
                base.audio.voice_count
            },
        },
        input: InputConfig {
            suppress_repeat: if other.input.suppress_repeat != DEFAULT_SUPPRESS_REPEAT {
                other.input.suppress_repeat
            } else {
                base.input.suppress_repeat
            },
            unknown_key_mapping: if other.input.unknown_key_mapping
                != DEFAULT_UNKNOWN_KEY_MAPPING {
                other.input.unknown_key_mapping
            } else {
                base.input.unknown_key_mapping
            },
        },
        sound_pack: SoundPackConfig {
            pack_dir: if other.sound_pack.pack_dir is Some {
                other.sound_pack.pack_dir
            } else {
                base.sound_pack.pack_dir
            },
            per_key_map: if other.sound_pack.per_key_map is Some {
                other.sound_pack.per_key_map
            } else {
                base.sound_pack.per_key_map
            },
            default_variation_count: if other.sound_pack.default_variation_count
                != DEFAULT_VARIATION_COUNT {
                other.sound_pack.default_variation_count
            } else {
                base.sound_pack.default_variation_count
            },
        },
    }
}

/// Merge `other` into `base`: any non-None / non-default field in `other`
/// overwrites `base`.
pub fn merge_config(base: Config, other: Config) -> (r: Config)
    ensures
        r == merged_config(base, other),
{
    let mut base = base;
    let Config { audio: oa, input: oi, sound_pack: os } = other;
    // audio
    if oa.sample_rate != DEFAULT_SAMPLE_RATE {
        base.audio.sample_rate = oa.sample_rate;
    }
    if oa.channels != DEFAULT_CHANNELS {
        base.audio.channels = oa.channels;
    }
    if oa.buffer_size != DEFAULT_BUFFER_SIZE {
        base.audio.buffer_size = oa.buffer_size;
    }
    if !oa.master_gain.is_default {
        base.audio.master_gain = oa.master_gain;
    }
    if oa.preferred_device.is_some() {
        base.audio.preferred_device = oa.preferred_device;
    }
    if oa.voice_count != DEFAULT_VOICE_COUNT {
        base.audio.voice_count = clamp_voice_count(oa.voice_count);
    }
    // input
    if oi.suppress_repeat != DEFAULT_SUPPRESS_REPEAT {
        base.input.suppress_repeat = oi.suppress_repeat;
    }
    if oi.unknown_key_mapping != DEFAULT_UNKNOWN_KEY_MAPPING {
        base.input.unknown_key_mapping = oi.unknown_key_mapping;
    }
    // sound_pack
    if os.pack_dir.is_some() {
        base.sound_pack.pack_dir = os.pack_dir;
    }
    if os.per_key_map.is_some() {
        base.sound_pack.per_key_map = os.per_key_map;
    }
    if os.default_variation_count != DEFAULT_VARIATION_COUNT {
        base.sound_pack.default_variation_count = os.default_variation_count;
    }
    base
}


/// What the lookup table built by `build_key_lut` holds at keycode `k`.
pub open spec fn key_lut_entry(config: SoundPackConfig, default_sample: u32, k: int) -> u8 {
    match config.per_key_map {
        Some(m) if m@.contains_key(k as u32) => (m@[k as u32] % 256) as u8,
        _ => if default_sample > 255 { 255 } else { default_sample as u8 },
    }
}

/// Build a lookup table mapping keycode (u8) to sample index (u8).
/// Returns a 256-entry array; unknown keys map to `default_sample`, clamped
/// to 255; a mapped sample index keeps its low eight bits.
pub fn build_key_lut(config: &SoundPackConfig, default_sample: u32) -> (lut: [u8; 256])
    ensures
        forall|k: int| 0 <= k < 256 ==> #[trigger] lut@[k] == key_lut_entry(*config, default_sample, k),
{
    broadcast use vstd::std_specs::hash::group_hash_axioms;
    let default: u8 = if default_sample > 255 { 255 } else { default_sample as u8 };
    let mut lut: [u8; 256] = [default; 256];
    match &config.per_key_map {
        None => {
            assert forall|k: int| 0 <= k < 256 implies #[trigger] lut@[k] == key_lut_entry(*config, default_sample, k) by {}
        },
        Some(map) => {
            let ghost m = map@;
            for kv in it: map.iter()
                invariant
                    m == map@,
                    forall|i: int| 0 <= i < it.seq().len() ==> m.contains_key(*(#[trigger] it.seq()[i]).0)
                        && m[*it.seq()[i].0] == *it.seq()[i].1,
                    forall|k: int| 0 <= k < 256 ==> {
                        let seen = exists|i: int| 0 <= i < it.index() && *(#[trigger] it.seq()[i]).0 == k;
                        #[trigger] lut@[k] == if seen { (m[k as u32] % 256) as u8 } else { default }
                    },
            {
                let ghost idx = it.index();
                assert(kv == it.seq()[idx]);
                let (k, v) = kv;
                if *k <= 255 {
                    lut[*k as usize] = (*v % 256) as u8;
                }
                assert forall|k2: int| 0 <= k2 < 256 implies {
                    let seen = exists|i: int| 0 <= i < idx + 1 && *(#[trigger] it.seq()[i]).0 == k2;
                    #[trigger] lut@[k2] == if seen { (m[k2 as u32] % 256) as u8 } else { default }
                } by {
                    if k2 == *k as int {
                        assert(*it.seq()[idx].0 == k2);
                    }
                }
            }
            assert forall|k: int| 0 <= k < 256 implies #[trigger] lut@[k] == key_lut_entry(*config, default_sample, k) by {}
        },
    }
    lut
}


/// The configuration that the command-line options stand for: the device,
/// the gain (when given, marked as set whatever its value, so that it
/// overrides the file; the default when not given), repeat suppression
/// unless turned off, and the sound pack directory; every other field at
/// its default.
pub open spec fn cli_config(device: Option<String>, gain: Option<Gain>, no_repeat_suppress: bool, sound_pack: Option<PathBuf>) -> Config {
    Config {
        audio: AudioConfig {
            preferred_device: device,
            master_gain: match gain {
                Some(g) => Gain { bits: g.bits, is_default: false },
                None => Gain { bits: DEFAULT_MASTER_GAIN_BITS, is_default: true },
            },
            ..default_audio_config()
        },
        input: InputConfig { suppress_repeat: !no_repeat_suppress, ..default_input_config() },
        sound_pack: SoundPackConfig { pack_dir: sound_pack, ..default_sound_pack_config() },
    }
}

/// The configuration carried by the command-line options.
pub fn config_from_cli(device: Option<String>, gain: Option<Gain>, no_repeat_suppress: bool, sound_pack: Option<PathBuf>) -> (r: Config)
    ensures
        r == cli_config(device, gain, no_repeat_suppress, sound_pack),
{
    let master_gain = match gain {
        Some(g) => Gain { bits: g.bits, is_default: false },
        None => Gain::default_master(),
    };
    let mut audio = AudioConfig::default();
    audio.preferred_device = device;
    audio.master_gain = master_gain;
    let mut input = InputConfig::default();
    input.suppress_repeat = !no_repeat_suppress;
    let mut sound_pack_config = SoundPackConfig::default();
    sound_pack_config.pack_dir = sound_pack;
    Config { audio, input, sound_pack: sound_pack_config }
}

/// The configuration the daemon runs with: the defaults, overlaid by the
/// configuration file when one was read, overlaid by the command line, with
/// the voice count finally clamped to `1..=MAX_VOICES`.
pub open spec fn resolved_config(file: Option<Config>, cli: Config) -> Config {
    let with_file = match file {
        Some(f) => merged_config(default_config(), f),
        None => default_config(),
    };
    let merged = merged_config(with_file, cli);
    Config {
        audio: AudioConfig { voice_count: clamped_voice_count(merged.audio.voice_count), ..merged.audio },
        ..merged
    }
}

/// Layer the configuration file (when one was read) and the command-line
/// configuration over the defaults.
pub fn resolve_config(file: Option<Config>, cli: Config) -> (r: Config)
    ensures
        r == resolved_config(file, cli),
        1 <= r.audio.voice_count <= MAX_VOICES,
{
    let mut config = Config::default();
    match file {
        Some(f) => {
            config = merge_config(config, f);
        },
        None => {},
    }
    config = merge_config(config, cli);
    config.audio.voice_count = clamp_voice_count(config.audio.voice_count);
    config
}

/// Merging a configuration that holds only defaults changes nothing.
pub proof fn lemma_merge_default_is_identity(base: Config)
    ensures
        merged_config(base, default_config()) == base,
{
}

/// Merging the same overlay twice is the same as merging it once.
pub proof fn lemma_merge_idempotent(base: Config, other: Config)
    ensures
        merged_config(merged_config(base, other), other) == merged_config(base, other),
{
}

/// Each field that the overlay sets wins over the base, whatever the base
/// holds; each field it leaves at its default (absent, for the optional
/// fields; marked default, for the gain) keeps the base's value. A voice
/// count that wins is brought into `1..=MAX_VOICES` first.
pub proof fn lemma_merge_overlay_wins(base: Config, other: Config)
    ensures
        ({
            let m = merged_config(base, other);
            &&& m.audio.sample_rate == (if other.audio.sample_rate != DEFAULT_SAMPLE_RATE {
                other.audio.sample_rate
            } else {
                base.audio.sample_rate
            })
            &&& other.audio.channels != DEFAULT_CHANNELS ==> m.audio.channels == other.audio.channels
            &&& other.audio.channels == DEFAULT_CHANNELS ==> m.audio.channels == base.audio.channels
            &&& other.audio.buffer_size != DEFAULT_BUFFER_SIZE ==> m.audio.buffer_size == other.audio.buffer_size
            &&& other.audio.buffer_size == DEFAULT_BUFFER_SIZE ==> m.audio.buffer_size == base.audio.buffer_size
            &&& !other.audio.master_gain.is_default ==> m.audio.master_gain == other.audio.master_gain
            &&& other.audio.master_gain.is_default ==> m.audio.master_gain == base.audio.master_gain
            &&& other.audio.preferred_device is Some ==> m.audio.preferred_device
                == other.audio.preferred_device
            &&& other.audio.preferred_device is None ==> m.audio.preferred_device
                == base.audio.preferred_device
            &&& (other.audio.voice_count != DEFAULT_VOICE_COUNT && 1 <= other.audio.voice_count <= MAX_VOICES)
                ==> m.audio.voice_count == other.audio.voice_count
            &&& other.audio.voice_count > MAX_VOICES ==> m.audio.voice_count == MAX_VOICES
            &&& other.audio.voice_count == 0 ==> m.audio.voice_count == 1
            &&& other.audio.voice_count == DEFAULT_VOICE_COUNT ==> m.audio.voice_count == base.audio.voice_count
            &&& other.input.suppress_repeat != DEFAULT_SUPPRESS_REPEAT ==> m.input.suppress_repeat
                == other.input.suppress_repeat
            &&& other.input.suppress_repeat == DEFAULT_SUPPRESS_REPEAT ==> m.input.suppress_repeat
                == base.input.suppress_repeat
            &&& other.input.unknown_key_mapping != DEFAULT_UNKNOWN_KEY_MAPPING ==> m.input.unknown_key_mapping
                == other.input.unknown_key_mapping
            &&& other.input.unknown_key_mapping == DEFAULT_UNKNOWN_KEY_MAPPING ==> m.input.unknown_key_mapping
                == base.input.unknown_key_mapping
            &&& other.sound_pack.pack_dir is Some ==> m.sound_pack.pack_dir == other.sound_pack.pack_dir
            &&& other.sound_pack.pack_dir is None ==> m.sound_pack.pack_dir == base.sound_pack.pack_dir
            &&& other.sound_pack.per_key_map is Some ==> m.sound_pack.per_key_map == other.sound_pack.per_key_map
            &&& other.sound_pack.per_key_map is None ==> m.sound_pack.per_key_map == base.sound_pack.per_key_map
            &&& other.sound_pack.default_variation_count != DEFAULT_VARIATION_COUNT
                ==> m.sound_pack.default_variation_count == other.sound_pack.default_variation_count
            &&& other.sound_pack.default_variation_count == DEFAULT_VARIATION_COUNT
                ==> m.sound_pack.default_variation_count == base.sound_pack.default_variation_count
        }),
{
}

/// Merging keeps the voice count in `1..=MAX_VOICES` when the base has it
/// there: a replacing count is clamped.
pub proof fn lemma_merge_keeps_voice_count_in_range(base: Config, other: Config)
    requires
        1 <= base.audio.voice_count <= MAX_VOICES,
    ensures
        1 <= merged_config(base, other).audio.voice_count <= MAX_VOICES,
{
}

/// Each setting the daemon runs with comes from the command-line
/// configuration when that sets it, else from the configuration file when
/// the file sets it, else from the defaults. A setting counts as set when it
/// differs from its default (for the gain, when it is not marked as the
/// default; for the optional settings, when present).
pub proof fn lemma_cli_over_file_over_default(file: Config, cli: Config)
    ensures
        ({
            let r = resolved_config(Some(file), cli);
            &&& r.audio.sample_rate == if cli.audio.sample_rate != DEFAULT_SAMPLE_RATE {
                cli.audio.sample_rate
            } else {
                file.audio.sample_rate
            }
            &&& r.audio.master_gain == if !cli.audio.master_gain.is_default {
                cli.audio.master_gain
            } else if !file.audio.master_gain.is_default {
                file.audio.master_gain
            } else {
                Gain { bits: DEFAULT_MASTER_GAIN_BITS, is_default: true }
            }
            &&& r.audio.preferred_device == if cli.audio.preferred_device is Some {
                cli.audio.preferred_device
            } else {
                file.audio.preferred_device
            }
            &&& r.input.suppress_repeat == if cli.input.suppress_repeat != DEFAULT_SUPPRESS_REPEAT {
                cli.input.suppress_repeat
            } else {
                file.input.suppress_repeat
            }
            &&& r.sound_pack.pack_dir == if cli.sound_pack.pack_dir is Some {
                cli.sound_pack.pack_dir
            } else {
                file.sound_pack.pack_dir
            }
            &&& r.sound_pack.default_variation_count == if cli.sound_pack.default_variation_count
                != DEFAULT_VARIATION_COUNT {
                cli.sound_pack.default_variation_count
            } else {
                file.sound_pack.default_variation_count
            }
        }),
{
}

/// A gain given on the command line overrides the configuration file,
/// whatever its value, the default `0.3` included: the daemon runs with it.
pub proof fn lemma_cli_gain_overrides_file(
    file: Config,
    device: Option<String>,
    gain: Gain,
    no_repeat_suppress: bool,
    sound_pack: Option<PathBuf>,
)
    ensures
        resolved_config(Some(file), cli_config(device, Some(gain), no_repeat_suppress, sound_pack)).audio.master_gain.bits
            == gain.bits,
        resolved_config(None, cli_config(device, Some(gain), no_repeat_suppress, sound_pack)).audio.master_gain.bits
            == gain.bits,
{
}

/// The text of the configuration file that the daemon writes when none
/// exists yet.
pub open spec fn default_config_text() -> Seq<char> {
    "[audio]\nsample_rate = 48000\nchannels = 1\nbuffer_size = 128\nmaster_gain = 0.3\nvoice_count = 8\n# preferred_device = \"Speakers\"\n\n[input]\nsuppress_repeat = true\nunknown_key_mapping = 0\n\n[sound_pack]\ndefault_variation_count = 8\n# pack_dir = \"C:/Users/Me/sounds\"\n\n# Optional: per-key sound mapping\n# [sound_pack.per_key_map]\n# 0x0D = 0   # Enter -> click 0\n# 0x20 = 1   # Space -> click 1\n"@
}

/// The default configuration file text.
pub fn default_config_toml() -> (s: &'static str)
    ensures
        s@ == default_config_text(),
{
    "[audio]\nsample_rate = 48000\nchannels = 1\nbuffer_size = 128\nmaster_gain = 0.3\nvoice_count = 8\n# preferred_device = \"Speakers\"\n\n[input]\nsuppress_repeat = true\nunknown_key_mapping = 0\n\n[sound_pack]\ndefault_variation_count = 8\n# pack_dir = \"C:/Users/Me/sounds\"\n\n# Optional: per-key sound mapping\n# [sound_pack.per_key_map]\n# 0x0D = 0   # Enter -> click 0\n# 0x20 = 1   # Space -> click 1\n"
}

} // verus!
