use std::collections::HashMap;

use tafd::config::{AudioConfig, Gain, SoundPackConfig};
use tafd::mixer::{MixSpan, Mixer};
use tafd::engine::{
    choose_output_device, drain_input, engine_mixer, fallback_stream, negotiate_stream,
    retry_delay_ms, text_contains, trigger_key, AudioFault, BufferSize, KeyLookup, StreamPlan, SupportedBufferSize, SupportedRange,
};
use tafd::queue::{enqueue_key, new_input_queue, push_outcome, KeyDelivery, QUEUE_CAP};

fn render(m: &mut Mixer, out_len: usize, lens: &[usize]) -> Vec<MixSpan> {
    let mut spans = Vec::with_capacity(8);
    m.render(out_len, lens, &mut spans);
    spans
}

fn range(min_sr: u32, max_sr: u32, buffer: SupportedBufferSize) -> SupportedRange {
    SupportedRange { min_sample_rate: min_sr, max_sample_rate: max_sr, buffer_size: buffer }
}

fn pack_with(pairs: &[(u32, usize)]) -> SoundPackConfig {
    let mut map = HashMap::new();
    for &(k, v) in pairs {
        map.insert(k, v);
    }
    SoundPackConfig { pack_dir: None, per_key_map: Some(map), default_variation_count: 8 }
}

#[test]
fn keys_go_through_lookup_table() {
    let lookup = KeyLookup::new(&pack_with(&[(0x0D, 2), (0x20, 300)]), 1);
    assert_eq!(lookup.sample_for_key(0x0D), 2);
    assert_eq!(lookup.sample_for_key(0x20), 44);
    assert_eq!(lookup.sample_for_key(0x41), 1);
    assert_eq!(lookup.sample_for_key(0x1FF), 1);
    let plain = KeyLookup::new(&SoundPackConfig::default(), 500);
    assert_eq!(plain.sample_for_key(7), 255);
    assert_eq!(plain.sample_for_key(70000), 255);
}

#[test]
fn key_mapped_past_the_bank_plays_nothing() {
    let lookup = KeyLookup::new(&pack_with(&[(5, 9)]), 0);
    let mut mixer = engine_mixer(&AudioConfig::default());
    assert!(!trigger_key(&mut mixer, &lookup, 5, 8));
    assert!(render(&mut mixer, 4, &[10; 8]).iter().all(|s| s.frames == 0));
    assert!(trigger_key(&mut mixer, &lookup, 6, 8));
    let spans = render(&mut mixer, 4, &[10; 8]);
    assert_eq!(spans[0].sample, 0);
    assert_eq!(spans[0].frames, 4);
}

#[test]
fn queue_has_fixed_capacity_and_drops_when_full() {
    let q = new_input_queue();
    assert_eq!(q.capacity(), QUEUE_CAP);
    assert_eq!(QUEUE_CAP, 64);
    for k in 0..64u32 {
        assert_eq!(enqueue_key(&q, k), KeyDelivery::Enqueued(k));
    }
    assert_eq!(enqueue_key(&q, 99), KeyDelivery::Dropped(99));
    assert_eq!(q.len(), 64);
}

#[test]
fn drain_triggers_each_queued_key_in_order() {
    let q = new_input_queue();
    enqueue_key(&q, 9);
    enqueue_key(&q, 2);
    let config = AudioConfig::default();
    let mut mixer = engine_mixer(&config);
    let lookup = KeyLookup::new(&pack_with(&[(9, 1), (2, 2)]), 0);
    let n = drain_input(&q, &mut mixer, &lookup, 8);
    assert_eq!(n, 2);
    assert!(q.is_empty());
    let spans = render(&mut mixer, 4, &[10; 8]);
    let playing: Vec<(usize, usize)> =
        spans.iter().filter(|s| s.frames > 0).map(|s| (s.sample, s.frames)).collect();
    assert_eq!(playing, vec![(1, 4), (2, 4)]);
    assert_eq!(drain_input(&q, &mut mixer, &lookup, 8), 0);
}

#[test]
fn engine_mixer_uses_clamped_voice_count() {
    let mut config = AudioConfig::default();
    config.voice_count = 20;
    config.master_gain = Gain { bits: 1.0f32.to_bits(), is_default: false };
    let mut m = engine_mixer(&config);
    assert_eq!(render(&mut m, 1, &[]).len(), 8);
    config.voice_count = 2;
    let mut m = engine_mixer(&config);
    assert_eq!(render(&mut m, 1, &[]).len(), 2);
}

#[test]
fn supported_request_is_kept() {
    let ranges = [range(8000, 96000, SupportedBufferSize::Range { min: 64, max: 4096 })];
    let plan = negotiate_stream(48000, 128, 1, Some(&ranges), 44100, 2);
    assert_eq!(plan, StreamPlan { channels: 1, sample_rate: 48000, buffer_size: BufferSize::Fixed(128) });
}

#[test]
fn unsupported_request_falls_back_to_device_defaults() {
    let ranges = [range(8000, 44100, SupportedBufferSize::Range { min: 256, max: 4096 })];
    let plan = negotiate_stream(48000, 128, 0, Some(&ranges), 44100, 2);
    assert_eq!(plan, StreamPlan { channels: 2, sample_rate: 44100, buffer_size: BufferSize::Default });
}

#[test]
fn support_may_come_from_different_ranges() {
    let ranges = [
        range(8000, 22050, SupportedBufferSize::Range { min: 64, max: 512 }),
        range(44100, 48000, SupportedBufferSize::Range { min: 1024, max: 2048 }),
    ];
    let plan = negotiate_stream(48000, 128, 1, Some(&ranges), 44100, 2);
    assert_eq!(plan, StreamPlan { channels: 1, sample_rate: 48000, buffer_size: BufferSize::Fixed(128) });
}

#[test]
fn unknown_buffer_range_accepts_any_size() {
    let ranges = [range(8000, 96000, SupportedBufferSize::Unknown)];
    let plan = negotiate_stream(0, 77, 1, Some(&ranges), 44100, 2);
    assert_eq!(plan, StreamPlan { channels: 1, sample_rate: 44100, buffer_size: BufferSize::Fixed(77) });
}

#[test]
fn unlisted_configs_use_defaults() {
    let plan = negotiate_stream(48000, 128, 1, None, 44100, 2);
    assert_eq!(plan, StreamPlan { channels: 1, sample_rate: 44100, buffer_size: BufferSize::Default });
    let empty: [SupportedRange; 0] = [];
    let plan = negotiate_stream(48000, 0, 0, Some(&empty), 22050, 2);
    assert_eq!(plan, StreamPlan { channels: 2, sample_rate: 22050, buffer_size: BufferSize::Default });
}

#[test]
fn fixed_buffer_has_default_fallback() {
    let plan = StreamPlan { channels: 1, sample_rate: 48000, buffer_size: BufferSize::Fixed(128) };
    assert_eq!(
        fallback_stream(plan),
        Some(StreamPlan { channels: 1, sample_rate: 48000, buffer_size: BufferSize::Default })
    );
    let plan = StreamPlan { channels: 1, sample_rate: 48000, buffer_size: BufferSize::Default };
    assert_eq!(fallback_stream(plan), None);
}

#[test]
fn preferred_device_matches_case_insensitively() {
    let names = vec![
        Some("HDMI Output".to_string()),
        None,
        Some("USB Speakers".to_string()),
        Some("Speakers (Realtek)".to_string()),
    ];
    assert_eq!(choose_output_device(&names, Some("speakers")), Some(2));
    assert_eq!(choose_output_device(&names, Some("REALTEK")), Some(3));
    assert_eq!(choose_output_device(&names, Some("hdmi")), Some(0));
    assert_eq!(choose_output_device(&names, Some("Bluetooth")), None);
    assert_eq!(choose_output_device(&names, None), None);
    assert_eq!(choose_output_device(&names, Some("")), Some(0));
}

#[test]
fn push_result_decides_delivery() {
    assert_eq!(push_outcome(7, Ok(())), KeyDelivery::Enqueued(7));
    assert_eq!(push_outcome(7, Err(5)), KeyDelivery::Dropped(5));
}

#[test]
fn substring_search_over_characters() {
    assert!(text_contains("usb speakers", "speak"));
    assert!(text_contains("abc", ""));
    assert!(text_contains("", ""));
    assert!(!text_contains("ab", "abc"));
    assert!(text_contains("haüs", "üs"));
    assert!(!text_contains("speakers", "Speak"));
    assert!(text_contains("aaab", "aab"));
}

#[test]
fn audio_faults_decide_retry_delay() {
    assert_eq!(retry_delay_ms(AudioFault::NoDevice), Some(5000));
    assert_eq!(retry_delay_ms(AudioFault::StreamLost), Some(1000));
    assert_eq!(retry_delay_ms(AudioFault::Other), None);
}
