//! Windows text injection through `SendInput`: the keyboard events that type a text as
//! Unicode code units, the Ctrl+V shortcut, and the checks on how many events the system
//! accepted. The clipboard fallback follows [`super::Flavor::Windows`].

use vstd::prelude::*;

use super::{start_injection, Flavor, Injection, InjectAction, inject_start};
use crate::text::{chars_of, decimal, push_decimal};

verus! {

/// One keyboard event as `KEYBDINPUT` describes it: a virtual key or a Unicode code unit
/// (`KEYEVENTF_UNICODE`), pressed or released (`KEYEVENTF_KEYUP`).
#[derive(Debug, Clone, Copy, PartialEq, Eq, Structural)]
pub struct KeyInput {
    /// Virtual-key code (`wVk`); 0 for Unicode events.
    pub vk: u16,
    /// Scan code (`wScan`); the UTF-16 code unit for Unicode events.
    pub scan: u16,
    /// `KEYEVENTF_UNICODE`.
    pub unicode: bool,
    /// `KEYEVENTF_KEYUP`.
    pub key_up: bool,
}

/// `VK_CONTROL`.
pub const VK_CONTROL: u16 = 0x11;

/// The virtual-key code of `V`.
pub const VK_V: u16 = 0x56;

/// How many events are handed to `SendInput` at once.
pub const CHUNK: usize = 2000;

/// The UTF-16 code units of one character.
pub open spec fn utf16_of(c: char) -> Seq<u16> {
    let v = c as u32;
    if v < 0x10000 {
        seq![v as u16]
    } else {
        seq![(0xD800 + (v - 0x10000) / 1024) as u16, (0xDC00 + (v - 0x10000) % 1024) as u16]
    }
}

/// The UTF-16 code units of a text (what `str::encode_utf16` yields).
pub open spec fn utf16(s: Seq<char>) -> Seq<u16>
    decreases s.len(),
{
    if s.len() == 0 {
        seq![]
    } else {
        utf16(s.drop_last()) + utf16_of(s.last())
    }
}

/// The UTF-16 code units of `text`.
pub fn encode_utf16(text: &str) -> (r: Vec<u16>)
    ensures
        r@ == utf16(text@),
{
    let v = chars_of(text);
    let mut out: Vec<u16> = Vec::new();
    let mut i: usize = 0;
    while i < v.len()
        invariant
            i <= v.len(),
            out@ == utf16(v@.take(i as int)),
        decreases v.len() - i,
    {
        let c = v[i];
        let code = c as u32;
        if code < 0x10000 {
            out.push(code as u16);
        } else {
            let w = code - 0x10000;
            out.push((0xD800 + w / 1024) as u16);
            out.push((0xDC00 + w % 1024) as u16);
        }
        assert(v@.take(i + 1).drop_last() == v@.take(i as int));
        assert(out@ =~= utf16(v@.take(i + 1)));
        i = i + 1;
    }
    assert(v@.take(v.len() as int) == v@);
    out
}

/// A Unicode key event for one code unit.
pub open spec fn unicode_event(unit: u16, key_up: bool) -> KeyInput {
    KeyInput { vk: 0, scan: unit, unicode: true, key_up }
}

/// A virtual-key event.
pub open spec fn vk_event(vk: u16, key_up: bool) -> KeyInput {
    KeyInput { vk, scan: 0, unicode: false, key_up }
}

/// The event for one UTF-16 code unit, down or up.
pub fn unicode_input(code_unit: u16, key_up: bool) -> (r: KeyInput)
    ensures
        r == unicode_event(code_unit, key_up),
{
    KeyInput { vk: 0, scan: code_unit, unicode: true, key_up }
}

/// The event for a virtual key, down or up.
pub fn vk_input(vk: u16, key_up: bool) -> (r: KeyInput)
    ensures
        r == vk_event(vk, key_up),
{
    KeyInput { vk, scan: 0, unicode: false, key_up }
}

/// A key-down and a key-up for every code unit, in order.
pub open spec fn unicode_events(units: Seq<u16>) -> Seq<KeyInput>
    decreases units.len(),
{
    if units.len() == 0 {
        seq![]
    } else {
        unicode_events(units.drop_last()) + seq![
            unicode_event(units.last(), false),
            unicode_event(units.last(), true),
        ]
    }
}

/// The events that type `text`: each UTF-16 code unit pressed and released.
pub fn unicode_inputs(text: &str) -> (r: Vec<KeyInput>)
    ensures
        r@ == unicode_events(utf16(text@)),
{
    let units = encode_utf16(text);
    let mut out: Vec<KeyInput> = Vec::new();
    let mut i: usize = 0;
    while i < units.len()
        invariant
            i <= units.len(),
            out@ == unicode_events(units@.take(i as int)),
        decreases units.len() - i,
    {
        out.push(unicode_input(units[i], false));
        out.push(unicode_input(units[i], true));
        assert(units@.take(i + 1).drop_last() == units@.take(i as int));
        assert(out@ =~= unicode_events(units@.take(i + 1)));
        i = i + 1;
    }
    assert(units@.take(units.len() as int) == units@);
    out
}

/// Ctrl down, V down, V up, Ctrl up.
pub fn ctrl_v_inputs() -> (r: Vec<KeyInput>)
    ensures
        r@ == seq![
            vk_event(VK_CONTROL, false),
            vk_event(VK_V, false),
            vk_event(VK_V, true),
            vk_event(VK_CONTROL, true),
        ],
{
    let mut v: Vec<KeyInput> = Vec::new();
    v.push(vk_input(VK_CONTROL, false));
    v.push(vk_input(VK_V, false));
    v.push(vk_input(VK_V, true));
    v.push(vk_input(VK_CONTROL, true));
    assert(v@ =~= seq![
        vk_event(VK_CONTROL, false),
        vk_event(VK_V, false),
        vk_event(VK_V, true),
        vk_event(VK_CONTROL, true),
    ]);
    v
}

/// The end of the chunk of events that starts at `start`.
pub fn chunk_end(start: usize, total: usize) -> (r: usize)
    requires
        start <= total,
    ensures
        r as int == if total - start <= CHUNK {
            total as int
        } else {
            start + CHUNK
        },
{
    if total - start <= CHUNK {
        total
    } else {
        start + CHUNK
    }
}

/// `"SendInput injected {sent}/{expected} events (input may be blocked)"`.
pub open spec fn blocked_message(sent: u32, expected: usize) -> Seq<char> {
    "SendInput injected "@ + decimal(sent as nat) + "/"@ + decimal(expected as nat)
        + " events (input may be blocked)"@
}

/// Checks that `SendInput` accepted every event of a chunk.
pub fn check_sent(sent: u32, expected: usize) -> (r: Result<(), String>)
    ensures
        match r {
            Ok(()) => sent as int == expected as int,
            Err(m) => sent as int != expected as int && m@ == blocked_message(sent, expected),
        },
{
    if sent as usize == expected && (sent as u64) == (expected as u64) {
        return Ok(());
    }
    let mut m = "SendInput injected ".to_owned();
    push_decimal(&mut m, sent as u64);
    m.append("/");
    push_decimal(&mut m, expected as u64);
    m.append(" events (input may be blocked)");
    Err(m)
}

/// `"SendInput sent {sent}/4 events for Ctrl+V"`.
pub open spec fn ctrl_v_message(sent: u32) -> Seq<char> {
    "SendInput sent "@ + decimal(sent as nat) + "/4 events for Ctrl+V"@
}

/// Checks that `SendInput` accepted the four Ctrl+V events.
pub fn check_ctrl_v_sent(sent: u32) -> (r: Result<(), String>)
    ensures
        match r {
            Ok(()) => sent == 4,
            Err(m) => sent != 4 && m@ == ctrl_v_message(sent),
        },
{
    if sent == 4 {
        return Ok(());
    }
    let mut m = "SendInput sent ".to_owned();
    push_decimal(&mut m, sent as u64);
    m.append("/4 events for Ctrl+V");
    Err(m)
}

/// Types `text` with `SendInput`, falling back to a clipboard paste: the first action.
pub fn type_text(text: &str) -> (r: (Injection, InjectAction))
    ensures
        (r.0@, r.1@) == inject_start(Flavor::Windows, text@),
{
    start_injection(Flavor::Windows, text)
}

} // verus!
