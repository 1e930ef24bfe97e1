use vstd::prelude::*;

use crossbeam::queue::ArrayQueue;

use crate::config::InputConfig;
use crate::error::TafdError;
use crate::queue::{enqueue_key, KeyDelivery};

verus! {

// ---------------------------------------------------------------------------
// Backends
// ---------------------------------------------------------------------------

/// The platform the daemon runs on.
#[derive(Debug, Clone, Copy, PartialEq, Eq, Structural)]
pub enum Platform {
    Windows,
    MacOs,
    Linux,
    Other,
}

/// Linux input backend (evdev).
#[derive(Debug, Clone, Copy, PartialEq, Eq, Structural)]
pub struct LinuxInput {
    suppress_repeat: bool,
}

/// macOS input backend (event tap).
#[derive(Debug, Clone, Copy, PartialEq, Eq, Structural)]
pub struct MacosInput {
    suppress_repeat: bool,
}

/// Windows input backend (low-level keyboard hook).
#[derive(Debug, Clone, Copy, PartialEq, Eq, Structural)]
pub struct Win32Input {
    suppress_repeat: bool,
}

impl LinuxInput {
    pub closed spec fn spec_suppress_repeat(&self) -> bool {
        self.suppress_repeat
    }

    pub fn new(config: &InputConfig) -> (r: Result<Self, TafdError>)
        ensures
            (r matches Ok(b) && b.spec_suppress_repeat() == config.suppress_repeat),
    {
        Ok(LinuxInput { suppress_repeat: config.suppress_repeat })
    }

    pub fn suppress_repeat(&self) -> (r: bool)
        ensures
            r == self.spec_suppress_repeat(),
    {
        self.suppress_repeat
    }
}

impl MacosInput {
    pub closed spec fn spec_suppress_repeat(&self) -> bool {
        self.suppress_repeat
    }

    pub fn new(config: &InputConfig) -> (r: Result<Self, TafdError>)
        ensures
            (r matches Ok(b) && b.spec_suppress_repeat() == config.suppress_repeat),
    {
        Ok(MacosInput { suppress_repeat: config.suppress_repeat })
    }

    pub fn suppress_repeat(&self) -> (r: bool)
        ensures
            r == self.spec_suppress_repeat(),
    {
        self.suppress_repeat
    }
}

impl Win32Input {
    pub closed spec fn spec_suppress_repeat(&self) -> bool {
        self.suppress_repeat
    }

    pub fn new(config: &InputConfig) -> (r: Result<Self, TafdError>)
        ensures
            (r matches Ok(b) && b.spec_suppress_repeat() == config.suppress_repeat),
    {
        Ok(Win32Input { suppress_repeat: config.suppress_repeat })
    }

    pub fn suppress_repeat(&self) -> (r: bool)
        ensures
            r == self.spec_suppress_repeat(),
    {
        self.suppress_repeat
    }
}

/// The input backend of one platform.
#[derive(Debug, Clone, Copy, PartialEq, Eq, Structural)]
pub enum Backend {
    Win32(Win32Input),
    Macos(MacosInput),
    Linux(LinuxInput),
}

/// Create the input backend for the platform: each supported platform gets
/// its own backend, carrying the repeat-suppression setting; any other
/// platform is refused.
pub fn create(platform: Platform, config: &InputConfig) -> (r: Result<Backend, TafdError>)
    ensures
        platform is Windows ==> (r matches Ok(Backend::Win32(b)) && b.spec_suppress_repeat() == config.suppress_repeat),
        platform is MacOs ==> (r matches Ok(Backend::Macos(b)) && b.spec_suppress_repeat() == config.suppress_repeat),
        platform is Linux ==> (r matches Ok(Backend::Linux(b)) && b.spec_suppress_repeat() == config.suppress_repeat),
        platform is Other ==> (r matches Err(TafdError::InputInit(m)) && m@ == "Unsupported platform"@),
{
    match platform {
        Platform::Windows => match Win32Input::new(config) {
            Ok(b) => Ok(Backend::Win32(b)),
            Err(e) => Err(e),
        },
        Platform::MacOs => match MacosInput::new(config) {
            Ok(b) => Ok(Backend::Macos(b)),
            Err(e) => Err(e),
        },
        Platform::Linux => match LinuxInput::new(config) {
            Ok(b) => Ok(Backend::Linux(b)),
            Err(e) => Err(e),
        },
        Platform::Other => Err(TafdError::InputInit(String::from_str("Unsupported platform"))),
    }
}

// ---------------------------------------------------------------------------
// Linux (evdev)
// ---------------------------------------------------------------------------

/// Event type of key events.
pub const EV_KEY: u16 = 0x01;

/// Size in bytes of the buffer for the device's event-type bits.
pub const EVTYPE_BUF_LEN: u32 = 4;

/// Size in bytes of the buffer for the device's key bits.
pub const KEY_BITS_BUF_LEN: u32 = 96;

/// Keycode of the `A` key.
pub const KEY_A: usize = 30;

/// Keycode of the `Z` key.
pub const KEY_Z: usize = 44;

/// The `EVIOCGBIT(ev, len)` request number: read direction, type `'E'`,
/// number `0x20 + ev`, size `len`.
pub open spec fn ioc_number(ev: u32, len: u32) -> u32 {
    (2u32 << 30u32) | (len << 16u32) | (0x45u32 << 8u32) | ((ev + 0x20) as u32)
}

/// The `EVIOCGBIT(ev, len)` ioctl request number. Requires the number
/// `0x20 + ev` not to overflow.
pub fn eviocgbit(ev: u32, len: u32) -> (r: u64)
    requires
        ev <= u32::MAX - 0x20,
    ensures
        r == ioc_number(ev, len),
        len < 0x4000 && ev < 0xE0 ==> r == 0x8000_0000 + len * 0x1_0000 + 0x4500 + 0x20 + ev,
{
    let n: u32 = (2u32 << 30u32) | (len << 16u32) | (0x45u32 << 8u32) | (0x20 + ev);
    proof {
        let e: u32 = (ev + 0x20) as u32;
        assert(len < 0x4000 && e < 0x100 ==> (2u32 << 30u32) | (len << 16u32) | (0x45u32 << 8u32) | e
            == 0x8000_0000 + len * 0x1_0000 + 0x4500 + e) by (bit_vector);
    }
    n as u64
}

/// Whether bit `bit` of `bits` is set.
pub open spec fn bit_set_u32(bits: u32, bit: u32) -> bool {
    bits & (1u32 << bit) != 0
}

/// Whether the key bitmap marks keycode `code` as present.
pub open spec fn key_bit_set(key_bits: Seq<u8>, code: int) -> bool {
    key_bits[code / 8] & (1u8 << ((code % 8) as u8)) != 0
}

/// A device is a keyboard when it reports key events and has at least one
/// of the letter keys `A` to `Z`.
pub open spec fn keyboard_capability(evtype_bits: u32, key_bits: Seq<u8>) -> bool {
    &&& bit_set_u32(evtype_bits, EV_KEY as u32)
    &&& exists|code: int| KEY_A <= code <= KEY_Z && #[trigger] key_bit_set(key_bits, code)
}

/// Whether a device with these event-type bits and key bits is a keyboard.
/// The key bitmap must cover the letter keys.
pub fn has_keyboard_capability(evtype_bits: u32, key_bits: &[u8]) -> (r: bool)
    requires
        key_bits.len() > KEY_Z / 8,
    ensures
        r == keyboard_capability(evtype_bits, key_bits@),
{
    if evtype_bits & (1u32 << (EV_KEY as u32)) == 0 {
        return false;
    }
    let mut code: usize = KEY_A;
    while code <= KEY_Z
        invariant
            KEY_A <= code <= KEY_Z + 1,
            key_bits.len() > KEY_Z / 8,
            bit_set_u32(evtype_bits, EV_KEY as u32),
            forall|c: int| KEY_A <= c < code ==> !#[trigger] key_bit_set(key_bits@, c),
        decreases KEY_Z + 1 - code,
    {
        if key_bits[code / 8] & (1u8 << ((code % 8) as u8)) != 0 {
            assert(key_bit_set(key_bits@, code as int));
            return true;
        }
        code = code + 1;
    }
    false
}

/// The keycode an evdev event makes sound for: a key press (value 1)
/// always sounds; an auto-repeat (value 2) sounds only when repeat
/// suppression is off; a release (value 0) and every other event do not.
pub open spec fn linux_event_key(type_: u16, code: u16, value: i32, suppress_repeat: bool) -> Option<u32> {
    if type_ == EV_KEY && (value == 1 || (value == 2 && !suppress_repeat)) {
        Some(code as u32)
    } else {
        None
    }
}

/// The keycode to push for an evdev event, if it makes a sound.
pub fn linux_key_to_enqueue(type_: u16, code: u16, value: i32, suppress_repeat: bool) -> (r: Option<u32>)
    ensures
        r == linux_event_key(type_, code, value, suppress_repeat),
{
    if type_ == EV_KEY && (value == 1 || (value == 2 && !suppress_repeat)) {
        Some(code as u32)
    } else {
        None
    }
}

/// Hand one evdev event to the key queue: the keycode of an event that makes
/// a sound is pushed (or dropped when the queue is full); any other event is
/// ignored.
pub fn deliver_linux_event(queue: &ArrayQueue<u32>, type_: u16, code: u16, value: i32, suppress_repeat: bool) -> (r: KeyDelivery)
    ensures
        linux_event_key(type_, code, value, suppress_repeat) matches Some(k) ==> r == KeyDelivery::Enqueued(k)
            || r == KeyDelivery::Dropped(k),
        linux_event_key(type_, code, value, suppress_repeat) is None ==> r == KeyDelivery::Ignored,
{
    match linux_key_to_enqueue(type_, code, value, suppress_repeat) {
        Some(k) => enqueue_key(queue, k),
        None => KeyDelivery::Ignored,
    }
}

/// Whether a directory entry name is an evdev event node (`event*`).
pub fn is_event_node(name: &str) -> (r: bool)
    ensures
        r == (name@.len() >= 5 && name@.subrange(0, 5) == seq!['e', 'v', 'e', 'n', 't']),
{
    if name.unicode_len() < 5 {
        return false;
    }
    let r = name.get_char(0) == 'e' && name.get_char(1) == 'v' && name.get_char(2) == 'e'
        && name.get_char(3) == 'n' && name.get_char(4) == 't';
    assert(r == (name@.subrange(0, 5) =~= seq!['e', 'v', 'e', 'n', 't']));
    r
}

/// What a scan of the input device directory has found so far: the open
/// keyboard devices and whether some device refused access.
pub struct DeviceScan {
    fds: Vec<i32>,
    had_eacces: bool,
}

/// The state of a device scan.
pub struct DeviceScanState {
    pub fds: Seq<i32>,
    pub had_eacces: bool,
}

impl View for DeviceScan {
    type V = DeviceScanState;

    closed spec fn view(&self) -> DeviceScanState {
        DeviceScanState { fds: self.fds@, had_eacces: self.had_eacces }
    }
}

/// Message of the error returned when every device refused access.
pub open spec fn permission_hint() -> Seq<char> {
    "Add user to 'input' group or run `sudo setcap cap_evdev+ep ./tafd`."@
}

impl DeviceScan {
    pub fn new() -> (s: DeviceScan)
        ensures
            s@.fds == Seq::<i32>::empty(),
            !s@.had_eacces,
    {
        DeviceScan { fds: Vec::new(), had_eacces: false }
    }

    /// A device could not be opened; `permission_denied` when access was
    /// refused.
    pub fn record_open_failure(&mut self, permission_denied: bool)
        ensures
            final(self)@.fds == old(self)@.fds,
            final(self)@.had_eacces == (old(self)@.had_eacces || permission_denied),
    {
        self.had_eacces = self.had_eacces || permission_denied;
    }

    /// A device was opened as `fd`. A keyboard is kept (returns `true`);
    /// any other device is not, and its descriptor is to be closed.
    pub fn record_device(&mut self, fd: i32, is_keyboard: bool) -> (keep: bool)
        ensures
            keep == is_keyboard,
            final(self)@.fds == if is_keyboard { old(self)@.fds.push(fd) } else { old(self)@.fds },
            final(self)@.had_eacces == old(self)@.had_eacces,
    {
        if is_keyboard {
            self.fds.push(fd);
        }
        is_keyboard
    }

    /// The keyboards found; a permission error when none was found and some
    /// device refused access.
    pub fn finish(self) -> (r: Result<Vec<i32>, TafdError>)
        ensures
            self@.fds.len() == 0 && self@.had_eacces ==> (r matches Err(TafdError::InputPermission(m))
                && m@ == permission_hint()),
            !(self@.fds.len() == 0 && self@.had_eacces) ==> (r matches Ok(fds) && fds@ == self@.fds),
    {
        if self.fds.len() == 0 && self.had_eacces {
            Err(TafdError::InputPermission(String::from_str("Add user to 'input' group or run `sudo setcap cap_evdev+ep ./tafd`.")))
        } else {
            Ok(self.fds)
        }
    }
}

/// The backend cannot run without a device to read.
pub fn require_input_devices(fds: &[i32]) -> (r: Result<(), TafdError>)
    ensures
        fds.len() == 0 ==> (r matches Err(TafdError::InputInit(m)) && m@ == "No input devices found in /dev/input"@),
        fds.len() > 0 ==> r is Ok,
{
    if fds.len() == 0 {
        Err(TafdError::InputInit(String::from_str("No input devices found in /dev/input")))
    } else {
        Ok(())
    }
}

// ---------------------------------------------------------------------------
// Windows (low-level keyboard hook)
// ---------------------------------------------------------------------------

/// Window message of a key press.
pub const WM_KEYDOWN: u32 = 0x0100;

/// Window message of a key press with Alt held (or F10).
pub const WM_SYSKEYDOWN: u32 = 0x0104;

/// Window message of a key release.
pub const WM_KEYUP: u32 = 0x0101;

/// Window message of a key release with Alt held (or F10).
pub const WM_SYSKEYUP: u32 = 0x0105;

/// Number of virtual-key codes the hook tracks; virtual-key codes are
/// below 256.
pub const VK_COUNT: usize = 256;

/// What the keyboard hook knows: whether repeats are suppressed, and which
/// virtual keys are down (a key-down for a key already down is a repeat of
/// a held key).
pub struct HookView {
    pub suppress_repeat: bool,
    pub held: Seq<bool>,
}

/// Whether the virtual key `vk` is down in the hook's view. A code outside
/// the tracked range is never held.
pub open spec fn key_held(h: HookView, vk: u32) -> bool {
    vk < VK_COUNT && h.held[vk as int]
}

/// One keyboard hook call: the hook's next view, and the virtual-key code
/// to push, if the call makes a sound. A negative hook code is passed on
/// untouched. A key-down marks the key as held and sounds unless the key
/// was already held and repeats are suppressed; a key-up marks it as
/// released; other messages change nothing.
pub open spec fn hook_event(h: HookView, code: i32, msg: u32, vk: u32) -> (HookView, Option<u32>) {
    if code < 0 {
        (h, None)
    } else if msg == WM_KEYDOWN || msg == WM_SYSKEYDOWN {
        let next = HookView {
            suppress_repeat: h.suppress_repeat,
            held: if vk < VK_COUNT { h.held.update(vk as int, true) } else { h.held },
        };
        (next, if h.suppress_repeat && key_held(h, vk) { None } else { Some(vk) })
    } else if msg == WM_KEYUP || msg == WM_SYSKEYUP {
        let next = HookView {
            suppress_repeat: h.suppress_repeat,
            held: if vk < VK_COUNT { h.held.update(vk as int, false) } else { h.held },
        };
        (next, None)
    } else {
        (h, None)
    }
}

/// State the keyboard hook keeps between calls.
pub struct HookState {
    pub suppress_repeat: bool,
    held: Vec<bool>,
}

impl View for HookState {
    type V = HookView;

    closed spec fn view(&self) -> HookView {
        HookView { suppress_repeat: self.suppress_repeat, held: self.held@ }
    }
}

impl HookState {
    /// The state tracks every virtual key; every state made by `new` does,
    /// and `key_event` keeps it so.
    pub closed spec fn wf(&self) -> bool {
        self.held@.len() == VK_COUNT
    }

    /// Repeats suppressed, no key down.
    pub fn new() -> (s: HookState)
        ensures
            s.wf(),
            s@.suppress_repeat,
            forall|vk: u32| !key_held(s@, vk),
    {
        let mut held: Vec<bool> = Vec::new();
        while held.len() < VK_COUNT
            invariant
                held.len() <= VK_COUNT,
                forall|i: int| 0 <= i < held.len() ==> !#[trigger] held@[i],
            decreases VK_COUNT - held.len(),
        {
            held.push(false);
        }
        HookState { suppress_repeat: true, held }
    }

    /// Take one keyboard hook call; returns the virtual-key code to push,
    /// if the call makes a sound.
    pub fn key_event(&mut self, code: i32, msg: u32, vk_code: u32) -> (key: Option<u32>)
        requires
            old(self).wf(),
        ensures
            final(self).wf(),
            (final(self)@, key) == hook_event(old(self)@, code, msg, vk_code),
    {
        if code < 0 {
            return None;
        }
        if msg == WM_KEYDOWN || msg == WM_SYSKEYDOWN {
            let mut was_held = false;
            if (vk_code as usize) < VK_COUNT {
                was_held = self.held[vk_code as usize];
                self.held.set(vk_code as usize, true);
            }
            if self.suppress_repeat && was_held {
                None
            } else {
                Some(vk_code)
            }
        } else if msg == WM_KEYUP || msg == WM_SYSKEYUP {
            if (vk_code as usize) < VK_COUNT {
                self.held.set(vk_code as usize, false);
            }
            None
        } else {
            None
        }
    }
}

/// Hand one keyboard hook call to the key queue: the virtual-key code of a
/// call that makes a sound (see `hook_event`) is pushed (or dropped when the
/// queue is full); anything else is ignored. The hook state is updated.
pub fn deliver_win32_key(queue: &ArrayQueue<u32>, state: &mut HookState, code: i32, msg: u32, vk_code: u32) -> (r: KeyDelivery)
    requires
        old(state).wf(),
    ensures
        final(state).wf(),
        final(state)@ == hook_event(old(state)@, code, msg, vk_code).0,
        hook_event(old(state)@, code, msg, vk_code).1 matches Some(k) ==> r == KeyDelivery::Enqueued(k)
            || r == KeyDelivery::Dropped(k),
        hook_event(old(state)@, code, msg, vk_code).1 is None ==> r == KeyDelivery::Ignored,
{
    match state.key_event(code, msg, vk_code) {
        Some(k) => enqueue_key(queue, k),
        None => KeyDelivery::Ignored,
    }
}

/// Repeats of a held key make no sound when suppression is on, and do when
/// it is off: on Linux an auto-repeat event sounds exactly when suppression
/// is off; on Windows a key-down of a key already down sounds exactly when
/// suppression is off, and a first key-down always sounds.
pub proof fn lemma_repeats_follow_the_setting(h: HookView, code: i32, msg: u32, vk: u32, key: u16)
    requires
        code >= 0,
        msg == WM_KEYDOWN || msg == WM_SYSKEYDOWN,
    ensures
        linux_event_key(EV_KEY, key, 2, true) is None,
        linux_event_key(EV_KEY, key, 2, false) == Some(key as u32),
        linux_event_key(EV_KEY, key, 1, true) == Some(key as u32),
        key_held(h, vk) && h.suppress_repeat ==> hook_event(h, code, msg, vk).1 is None,
        key_held(h, vk) && !h.suppress_repeat ==> hook_event(h, code, msg, vk).1 == Some(vk),
        !key_held(h, vk) ==> hook_event(h, code, msg, vk).1 == Some(vk),
{
}

/// A held key sounds again once it has been released: after a key-up, the
/// next key-down of that key is a first press.
pub proof fn lemma_release_rearms_key(h: HookView, code: i32, vk: u32)
    requires
        code >= 0,
        h.held.len() == VK_COUNT,
    ensures
        !key_held(hook_event(h, code, WM_KEYUP, vk).0, vk),
        hook_event(hook_event(h, code, WM_KEYUP, vk).0, code, WM_KEYDOWN, vk).1 == Some(vk),
{
}

/// How evdev key events sound, for every keycode and either setting: a key
/// press (value 1) always sounds its own keycode, suppression on or off; an
/// auto-repeat (value 2) sounds its keycode exactly when suppression is
/// off; a release (value 0) never sounds; an event that is not a key event,
/// or has any other value, never sounds; and whatever sounds is the event's
/// own keycode.
pub proof fn lemma_linux_key_events(type_: u16, code: u16, value: i32, suppress_repeat: bool)
    ensures
        linux_event_key(EV_KEY, code, 1, suppress_repeat) == Some(code as u32),
        linux_event_key(EV_KEY, code, 2, suppress_repeat) == (if suppress_repeat {
            None
        } else {
            Some(code as u32)
        }),
        linux_event_key(type_, code, 0, suppress_repeat) is None,
        type_ != EV_KEY ==> linux_event_key(type_, code, value, suppress_repeat) is None,
        value != 1 && value != 2 ==> linux_event_key(type_, code, value, suppress_repeat) is None,
        linux_event_key(type_, code, value, suppress_repeat) is Some ==> linux_event_key(
            type_,
            code,
            value,
            suppress_repeat,
        ) == Some(code as u32),
        linux_event_key(EV_KEY, code, 1, true) == linux_event_key(EV_KEY, code, 1, false),
{
}

/// The hook tracks which keys are down. A key-down of either kind
/// (`WM_KEYDOWN`, or `WM_SYSKEYDOWN` with Alt) marks the key held, and a
/// key-up of either kind marks it released; no other key changes, and the
/// suppression setting never changes. So, with suppression on, a second
/// key-down of a key, of either kind, with no key-up between is silent,
/// while with it off it sounds again.
pub proof fn lemma_hook_tracks_held_keys(h: HookView, code: i32, msg: u32, msg2: u32, vk: u32, other: u32)
    requires
        code >= 0,
        h.held.len() == VK_COUNT,
        vk < VK_COUNT,
        other != vk,
    ensures
        msg == WM_KEYDOWN || msg == WM_SYSKEYDOWN ==> key_held(hook_event(h, code, msg, vk).0, vk),
        msg == WM_KEYUP || msg == WM_SYSKEYUP ==> !key_held(hook_event(h, code, msg, vk).0, vk),
        key_held(hook_event(h, code, msg, vk).0, other) == key_held(h, other),
        hook_event(h, code, msg, vk).0.suppress_repeat == h.suppress_repeat,
        hook_event(h, code, msg, vk).0.held.len() == VK_COUNT,
        (msg == WM_KEYDOWN || msg == WM_SYSKEYDOWN) && (msg2 == WM_KEYDOWN || msg2 == WM_SYSKEYDOWN)
            ==> hook_event(hook_event(h, code, msg, vk).0, code, msg2, vk).1 == (if h.suppress_repeat {
            None
        } else {
            Some(vk)
        }),
{
}

} // verus!
