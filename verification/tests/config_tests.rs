use std::collections::HashMap;
use std::path::PathBuf;

use tafd::config::{
    build_key_lut, config_from_cli, default_buffer_size, default_channels, default_config_toml,
    default_master_gain, default_sample_rate, default_suppress_repeat, default_unknown_key_mapping,
    default_variation_count, default_voice_count, merge_config, resolve_config, AudioConfig, Config,
    Gain, InputConfig, SoundPackConfig, DEFAULT_MASTER_GAIN_BITS, MAX_VOICES,
};

fn gain(value: f32) -> Gain {
    Gain { bits: value.to_bits(), is_default: (value - 0.3f32).abs() <= f32::EPSILON }
}

#[test]
fn defaults_match_documented_values() {
    let c = Config::default();
    assert_eq!(c.audio.sample_rate, 48000);
    assert_eq!(c.audio.channels, 1);
    assert_eq!(c.audio.buffer_size, 0);
    assert_eq!(c.audio.master_gain.bits, 0.3f32.to_bits());
    assert!(c.audio.master_gain.is_default);
    assert_eq!(c.audio.preferred_device, None);
    assert_eq!(c.audio.voice_count, 8);
    assert!(c.input.suppress_repeat);
    assert_eq!(c.input.unknown_key_mapping, 0);
    assert_eq!(c.sound_pack.pack_dir, None);
    assert_eq!(c.sound_pack.per_key_map, None);
    assert_eq!(c.sound_pack.default_variation_count, 8);
    assert_eq!(MAX_VOICES, 8);
    assert_eq!(DEFAULT_MASTER_GAIN_BITS, 0.3f32.to_bits());
}

#[test]
fn default_value_functions() {
    assert_eq!(default_sample_rate(), 48000);
    assert_eq!(default_channels(), 1);
    assert_eq!(default_buffer_size(), 0);
    assert_eq!(default_master_gain(), gain(0.3));
    assert_eq!(default_voice_count(), 8);
    assert!(default_suppress_repeat());
    assert_eq!(default_unknown_key_mapping(), 0);
    assert_eq!(default_variation_count(), 8);
}

#[test]
fn merge_with_defaults_changes_nothing() {
    let mut base = Config::default();
    base.audio.sample_rate = 44100;
    base.audio.master_gain = gain(0.8);
    base.audio.preferred_device = Some("Speakers".to_string());
    base.sound_pack.pack_dir = Some(PathBuf::from("/sounds"));
    base.audio.voice_count = 3;
    let merged = merge_config(base.clone(), Config::default());
    assert_eq!(merged, base);
}

#[test]
fn merge_overrides_each_non_default_field() {
    let base = Config::default();
    let mut map = HashMap::new();
    map.insert(13u32, 2usize);
    let other = Config {
        audio: AudioConfig {
            sample_rate: 44100,
            channels: 2,
            buffer_size: 256,
            master_gain: gain(1.5),
            preferred_device: Some("USB".to_string()),
            voice_count: 4,
        },
        input: InputConfig { suppress_repeat: false, unknown_key_mapping: 3 },
        sound_pack: SoundPackConfig {
            pack_dir: Some(PathBuf::from("/pack")),
            per_key_map: Some(map.clone()),
            default_variation_count: 5,
        },
    };
    let merged = merge_config(base, other.clone());
    assert_eq!(merged, other);
}

#[test]
fn merge_clamps_replacing_voice_count() {
    let mut other = Config::default();
    other.audio.voice_count = 0;
    assert_eq!(merge_config(Config::default(), other.clone()).audio.voice_count, 1);
    other.audio.voice_count = 100;
    assert_eq!(merge_config(Config::default(), other).audio.voice_count, MAX_VOICES);
}

#[test]
fn merge_keeps_base_when_overlay_gain_is_default() {
    let mut base = Config::default();
    base.audio.master_gain = gain(0.9);
    let mut other = Config::default();
    other.audio.master_gain = Gain { bits: 0.3f32.to_bits() + 2, is_default: true };
    assert_eq!(merge_config(base, other).audio.master_gain, gain(0.9));
}

#[test]
fn merge_twice_is_merge_once() {
    let mut base = Config::default();
    base.audio.channels = 2;
    let mut other = Config::default();
    other.audio.voice_count = 12;
    other.input.unknown_key_mapping = 7;
    let once = merge_config(base.clone(), other.clone());
    let twice = merge_config(once.clone(), other);
    assert_eq!(once, twice);
    assert_eq!(once.audio.voice_count, 8);
    assert_eq!(once.audio.channels, 2);
}

#[test]
fn key_lut_maps_unknown_keys_to_default() {
    let pack = SoundPackConfig::default();
    let lut = build_key_lut(&pack, 3);
    assert!(lut.iter().all(|&v| v == 3));
    let lut = build_key_lut(&pack, 1000);
    assert!(lut.iter().all(|&v| v == 255));
}

#[test]
fn key_lut_uses_per_key_map() {
    let mut map = HashMap::new();
    map.insert(0x0Du32, 0usize);
    map.insert(0x20u32, 1usize);
    map.insert(65u32, 300usize);
    map.insert(1000u32, 5usize);
    let pack = SoundPackConfig { pack_dir: None, per_key_map: Some(map), default_variation_count: 8 };
    let lut = build_key_lut(&pack, 7);
    assert_eq!(lut[0x0D], 0);
    assert_eq!(lut[0x20], 1);
    assert_eq!(lut[65], 44);
    assert_eq!(lut[66], 7);
    assert_eq!(lut.iter().filter(|&&v| v != 7).count(), 3);
}

#[test]
fn cli_options_make_a_partial_config() {
    let c = config_from_cli(Some("Speakers".to_string()), Some(gain(1.5)), true, Some(PathBuf::from("./my-sounds")));
    assert_eq!(c.audio.preferred_device.as_deref(), Some("Speakers"));
    assert_eq!(c.audio.master_gain, gain(1.5));
    assert!(!c.input.suppress_repeat);
    assert_eq!(c.sound_pack.pack_dir, Some(PathBuf::from("./my-sounds")));
    assert_eq!(c.audio.sample_rate, 48000);
    let d = config_from_cli(None, None, false, None);
    assert_eq!(d, Config::default());
}

#[test]
fn cli_overrides_file_overrides_defaults() {
    let mut file = Config::default();
    file.audio.sample_rate = 44100;
    file.audio.master_gain = gain(0.5);
    file.sound_pack.pack_dir = Some(PathBuf::from("/from/file"));
    file.audio.voice_count = 0;
    let cli = config_from_cli(None, Some(gain(1.5)), false, Some(PathBuf::from("/from/cli")));
    let r = resolve_config(Some(file), cli);
    assert_eq!(r.audio.sample_rate, 44100);
    assert_eq!(r.audio.master_gain, gain(1.5));
    assert_eq!(r.sound_pack.pack_dir, Some(PathBuf::from("/from/cli")));
    assert_eq!(r.audio.voice_count, 1);
    assert!(r.input.suppress_repeat);
}

#[test]
fn resolve_without_file_uses_defaults_and_cli() {
    let cli = config_from_cli(Some("Dev".to_string()), None, true, None);
    let r = resolve_config(None, cli);
    assert_eq!(r.audio.preferred_device.as_deref(), Some("Dev"));
    assert!(!r.input.suppress_repeat);
    assert_eq!(r.audio.voice_count, 8);
    assert!(r.audio.master_gain.is_default);
}

#[test]
fn default_config_text_is_valid_toml() {
    let text = default_config_toml();
    let table: toml::Table = text.parse().expect("valid toml");
    let audio = table["audio"].as_table().unwrap();
    assert_eq!(audio["sample_rate"].as_integer(), Some(48000));
    assert_eq!(audio["buffer_size"].as_integer(), Some(128));
    assert_eq!(audio["voice_count"].as_integer(), Some(8));
    assert_eq!(table["input"]["suppress_repeat"].as_bool(), Some(true));
    assert_eq!(table["sound_pack"]["default_variation_count"].as_integer(), Some(8));
    assert!(text.contains("# [sound_pack.per_key_map]"));
}

#[test]
fn cli_gain_overrides_file_even_at_default_value() {
    let mut file = Config::default();
    file.audio.master_gain = gain(1.0);
    let cli = config_from_cli(None, Some(gain(0.3)), false, None);
    let r = resolve_config(Some(file.clone()), cli);
    assert_eq!(r.audio.master_gain.bits, 0.3f32.to_bits());
    let no_gain = config_from_cli(None, None, false, None);
    assert_eq!(resolve_config(Some(file), no_gain).audio.master_gain.bits, 1.0f32.to_bits());
}
