use tafd::config::InputConfig;
use tafd::error::TafdError;
use tafd::input::{
    create, deliver_linux_event, deliver_win32_key, eviocgbit, has_keyboard_capability, is_event_node,
    require_input_devices, Backend, DeviceScan, HookState, LinuxInput, MacosInput, Platform, Win32Input,
    linux_key_to_enqueue, EV_KEY, WM_KEYDOWN, WM_KEYUP, WM_SYSKEYDOWN, WM_SYSKEYUP,
};
use tafd::queue::{new_input_queue, KeyDelivery};

#[test]
fn create_picks_platform_backend() {
    let config = InputConfig { suppress_repeat: false, unknown_key_mapping: 0 };
    match create(Platform::Linux, &config) {
        Ok(Backend::Linux(b)) => assert!(!b.suppress_repeat()),
        other => panic!("unexpected {:?}", other),
    }
    match create(Platform::Windows, &InputConfig::default()) {
        Ok(Backend::Win32(b)) => assert!(b.suppress_repeat()),
        other => panic!("unexpected {:?}", other),
    }
    match create(Platform::MacOs, &config) {
        Ok(Backend::Macos(b)) => assert!(!b.suppress_repeat()),
        other => panic!("unexpected {:?}", other),
    }
}

#[test]
fn unsupported_platform_is_refused() {
    match create(Platform::Other, &InputConfig::default()) {
        Err(TafdError::InputInit(m)) => assert_eq!(m, "Unsupported platform"),
        other => panic!("unexpected {:?}", other),
    }
}

#[test]
fn backends_carry_repeat_setting() {
    let config = InputConfig { suppress_repeat: true, unknown_key_mapping: 4 };
    assert!(LinuxInput::new(&config).unwrap().suppress_repeat());
    assert!(MacosInput::new(&config).unwrap().suppress_repeat());
    assert!(Win32Input::new(&config).unwrap().suppress_repeat());
    assert!(HookState::new().suppress_repeat);
}

#[test]
fn eviocgbit_request_numbers() {
    assert_eq!(eviocgbit(0, 4), 0x8004_4520);
    assert_eq!(eviocgbit(EV_KEY as u32, 96), 0x8060_4521);
}

#[test]
fn keyboard_needs_key_events_and_a_letter() {
    let mut keys = [0u8; 96];
    keys[30 / 8] |= 1 << (30 % 8);
    assert!(has_keyboard_capability(1 << EV_KEY, &keys));
    assert!(!has_keyboard_capability(0b1, &keys));
    let mut mouse = [0u8; 96];
    mouse[0x110 / 8] |= 1 << (0x110 % 8);
    assert!(!has_keyboard_capability(1 << EV_KEY, &mouse));
    let mut z_only = [0u8; 96];
    z_only[44 / 8] |= 1 << (44 % 8);
    assert!(has_keyboard_capability(0b11, &z_only));
    let mut below_a = [0u8; 96];
    below_a[29 / 8] |= 1 << (29 % 8);
    below_a[45 / 8] |= 1 << (45 % 8);
    assert!(!has_keyboard_capability(0b11, &below_a));
}

#[test]
fn linux_repeats_follow_the_setting() {
    let q = new_input_queue();
    assert_eq!(deliver_linux_event(&q, EV_KEY, 30, 1, true), KeyDelivery::Enqueued(30));
    assert_eq!(deliver_linux_event(&q, EV_KEY, 30, 2, true), KeyDelivery::Ignored);
    assert_eq!(deliver_linux_event(&q, EV_KEY, 31, 2, false), KeyDelivery::Enqueued(31));
    assert_eq!(deliver_linux_event(&q, EV_KEY, 30, 0, false), KeyDelivery::Ignored);
    assert_eq!(deliver_linux_event(&q, 0x04, 30, 1, false), KeyDelivery::Ignored);
    assert_eq!(q.pop(), Some(30));
    assert_eq!(q.pop(), Some(31));
    assert_eq!(q.pop(), None);
    assert_eq!(linux_key_to_enqueue(EV_KEY, 44, 1, true), Some(44));
    assert_eq!(linux_key_to_enqueue(EV_KEY, 44, 2, true), None);
    assert_eq!(linux_key_to_enqueue(EV_KEY, 44, 2, false), Some(44));
}

#[test]
fn win32_held_key_repeats_are_silent_when_suppressed() {
    let q = new_input_queue();
    let mut state = HookState::new();
    assert!(state.suppress_repeat);
    assert_eq!(deliver_win32_key(&q, &mut state, 0, WM_KEYDOWN, 0x41), KeyDelivery::Enqueued(0x41));
    assert_eq!(deliver_win32_key(&q, &mut state, 0, WM_KEYDOWN, 0x41), KeyDelivery::Ignored);
    assert_eq!(deliver_win32_key(&q, &mut state, 0, WM_SYSKEYDOWN, 0x42), KeyDelivery::Enqueued(0x42));
    assert_eq!(deliver_win32_key(&q, &mut state, 0, WM_KEYUP, 0x41), KeyDelivery::Ignored);
    assert_eq!(deliver_win32_key(&q, &mut state, 0, WM_KEYDOWN, 0x41), KeyDelivery::Enqueued(0x41));
    assert_eq!(deliver_win32_key(&q, &mut state, -1, WM_KEYDOWN, 0x45), KeyDelivery::Ignored);
    assert_eq!(deliver_win32_key(&q, &mut state, 0, WM_SYSKEYUP, 0x42), KeyDelivery::Ignored);
    assert_eq!(deliver_win32_key(&q, &mut state, 0, WM_KEYDOWN, 0x42), KeyDelivery::Enqueued(0x42));
    assert_eq!(q.pop(), Some(0x41));
    assert_eq!(q.pop(), Some(0x42));
    assert_eq!(q.pop(), Some(0x41));
    assert_eq!(q.pop(), Some(0x42));
    assert_eq!(q.pop(), None);
}

#[test]
fn win32_held_key_repeats_sound_when_not_suppressed() {
    let q = new_input_queue();
    let mut state = HookState::new();
    state.suppress_repeat = false;
    assert_eq!(deliver_win32_key(&q, &mut state, 0, WM_KEYDOWN, 0x41), KeyDelivery::Enqueued(0x41));
    assert_eq!(deliver_win32_key(&q, &mut state, 0, WM_KEYDOWN, 0x41), KeyDelivery::Enqueued(0x41));
    assert_eq!(state.key_event(0, 0x0200, 0x41), None);
    assert_eq!(state.key_event(0, WM_KEYDOWN, 0x1000), Some(0x1000));
}

#[test]
fn full_queue_drops_key_presses() {
    let q = new_input_queue();
    for _ in 0..64 {
        assert_eq!(deliver_linux_event(&q, EV_KEY, 31, 1, true), KeyDelivery::Enqueued(31));
    }
    assert_eq!(deliver_linux_event(&q, EV_KEY, 31, 1, true), KeyDelivery::Dropped(31));
    let mut state = HookState::new();
    assert_eq!(deliver_win32_key(&q, &mut state, 0, WM_KEYDOWN, 0x41), KeyDelivery::Dropped(0x41));
}

#[test]
fn event_nodes_are_recognised_by_name() {
    assert!(is_event_node("event0"));
    assert!(is_event_node("event12"));
    assert!(is_event_node("event"));
    assert!(!is_event_node("mouse0"));
    assert!(!is_event_node("even"));
    assert!(!is_event_node("by-id"));
}

#[test]
fn scan_keeps_keyboards_only() {
    let mut scan = DeviceScan::new();
    assert!(scan.record_device(3, true));
    assert!(!scan.record_device(4, false));
    scan.record_open_failure(true);
    assert!(scan.record_device(5, true));
    assert_eq!(scan.finish().unwrap(), vec![3, 5]);
}

#[test]
fn scan_reports_permission_problem_when_nothing_opened() {
    let mut scan = DeviceScan::new();
    scan.record_open_failure(false);
    scan.record_open_failure(true);
    match scan.finish() {
        Err(TafdError::InputPermission(m)) => {
            assert_eq!(m, "Add user to 'input' group or run `sudo setcap cap_evdev+ep ./tafd`.")
        }
        other => panic!("unexpected {:?}", other),
    }
    let mut scan = DeviceScan::new();
    scan.record_open_failure(false);
    assert_eq!(scan.finish().unwrap(), Vec::<i32>::new());
}

#[test]
fn no_devices_is_an_init_error() {
    match require_input_devices(&[]) {
        Err(TafdError::InputInit(m)) => assert_eq!(m, "No input devices found in /dev/input"),
        other => panic!("unexpected {:?}", other),
    }
    assert!(require_input_devices(&[7]).is_ok());
}
