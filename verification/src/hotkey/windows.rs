//! The Windows low-level keyboard hook, as decisions: which virtual-key codes a hotkey
//! watches, and how each key event moves the push-to-talk state and whether the
//! keystroke is swallowed. Installing the hook and pumping messages belong to the
//! application.
//!
//! Push-to-talk semantics: `Pressed` fires when the main key goes down while the required
//! modifiers are held; `Released` fires when the main key goes up. The main key's events
//! are swallowed while active so the focused application never receives the keystroke.

use vstd::prelude::*;

use super::{HotkeyError, HotkeyEvent};
use crate::config::Hotkey;
use crate::text::{
    ascii_lowercase, ascii_upper, chars_of, is_ascii_alpha, is_ascii_digit, is_ascii_lower,
    same_text, to_ascii_lowercase,
};

verus! {

/// The virtual-key code of a modifier name (any ASCII case): Alt is `VK_MENU`, either
/// Ctrl spelling `VK_CONTROL`, Shift `VK_SHIFT`, and the Windows key names `VK_LWIN`.
pub open spec fn vk_modifier(name: Seq<char>) -> Option<u32> {
    let l = ascii_lowercase(name);
    if l == "alt"@ {
        Some(0x12u32)
    } else if l == "ctrl"@ || l == "control"@ {
        Some(0x11u32)
    } else if l == "shift"@ {
        Some(0x10u32)
    } else if l == "win"@ || l == "super"@ || l == "meta"@ {
        Some(0x5Bu32)
    } else {
        None
    }
}

/// Maps a modifier name to its virtual-key code.
pub fn vk_for_modifier(name: &str) -> (r: Option<u32>)
    ensures
        r == vk_modifier(name@),
{
    let lower = to_ascii_lowercase(name);
    let l = lower.as_str();
    if same_text(l, "alt") {
        Some(0x12)
    } else if same_text(l, "ctrl") || same_text(l, "control") {
        Some(0x11)
    } else if same_text(l, "shift") {
        Some(0x10)
    } else if same_text(l, "win") || same_text(l, "super") || same_text(l, "meta") {
        Some(0x5B)
    } else {
        None
    }
}

/// The value of a string of ASCII digits.
pub open spec fn digits_value(d: Seq<char>) -> nat
    decreases d.len(),
{
    if d.len() == 0 {
        0
    } else {
        digits_value(d.drop_last()) * 10 + (d.last() as u32 - 48) as nat
    }
}

pub open spec fn all_digits(d: Seq<char>) -> bool {
    forall|i: int| 0 <= i < d.len() ==> is_ascii_digit(#[trigger] d[i])
}

/// What `str::parse::<u32>` accepts: an optional `+`, then one or more ASCII digits whose
/// value fits in 32 bits.
pub open spec fn parsed_u32(s: Seq<char>) -> Option<nat> {
    let body = if s.len() > 0 && s[0] == '+' {
        s.drop_first()
    } else {
        s
    };
    if body.len() > 0 && all_digits(body) && digits_value(body) < 0x1_0000_0000 {
        Some(digits_value(body))
    } else {
        None
    }
}

/// The virtual-key code of a key name (any ASCII case): space, enter, tab, backslash,
/// caps lock (`VK_CAPITAL`) and grave or backtick (`VK_OEM_3`) by name; a single letter or
/// digit by its ASCII capital; `f1` to `f12` as `VK_F1` to `VK_F12`.
pub open spec fn vk_key(name: Seq<char>) -> Option<u32> {
    let l = ascii_lowercase(name);
    if l == "space"@ {
        Some(0x20u32)
    } else if l == "enter"@ {
        Some(0x0Du32)
    } else if l == "tab"@ {
        Some(0x09u32)
    } else if l == "backslash"@ {
        Some(0xDCu32)
    } else if l == "capslock"@ {
        Some(0x14u32)
    } else if l == "grave"@ || l == "backtick"@ {
        Some(0xC0u32)
    } else if l.len() == 1 && is_ascii_alpha(l[0]) {
        Some(ascii_upper(l[0]) as u32)
    } else if l.len() == 1 && is_ascii_digit(l[0]) {
        Some(l[0] as u32)
    } else if l.len() >= 1 && l[0] == 'f' && parsed_u32(l.drop_first()) is Some {
        let n = parsed_u32(l.drop_first()).unwrap();
        if 1 <= n <= 12 {
            Some((0x70 + n - 1) as u32)
        } else {
            None
        }
    } else {
        None
    }
}

/// The number that `d` spells when it is at most 12 and parses; 13 stands for "parses to
/// something larger", and `None` for "does not parse".
fn small_number(v: &Vec<char>, from: usize) -> (r: Option<u32>)
    requires
        from <= v.len(),
    ensures
        ({
            let s = v@.skip(from as int);
            match r {
                Some(n) => n <= 13 && (n < 13 ==> parsed_u32(s) == Some(n as nat)) && (n == 13
                    ==> (parsed_u32(s) is None || parsed_u32(s).unwrap() >= 13)),
                None => parsed_u32(s) is None,
            }
        }),
{
    let ghost s = v@.skip(from as int);
    let mut start = from;
    if start < v.len() && v[start] == '+' {
        start = start + 1;
    }
    let ghost body = v@.skip(start as int);
    assert(body == if s.len() > 0 && s[0] == '+' {
        s.drop_first()
    } else {
        s
    });
    if start == v.len() {
        return None;
    }
    let mut value: u32 = 0;
    let mut i = start;
    while i < v.len()
        invariant
            start <= i <= v.len(),
            start < v.len(),
            body == v@.skip(start as int),
            s == v@.skip(from as int),
            body == if s.len() > 0 && s[0] == '+' {
                s.drop_first()
            } else {
                s
            },
            value <= 13,
            value == if digits_value(v@.subrange(start as int, i as int)) < 13 {
                digits_value(v@.subrange(start as int, i as int))
            } else {
                13
            },
            all_digits(v@.subrange(start as int, i as int)),
        decreases v.len() - i,
    {
        let c = v[i];
        let cu = c as u32;
        if cu < 48 || cu > 57 {
            assert(body[i - start] == c);
            assert(!is_ascii_digit(c));
            assert(!all_digits(body));
            return None;
        }
        let d: u32 = cu - 48;
        assert(v@.subrange(start as int, i + 1).drop_last() == v@.subrange(start as int, i as int));
        let next = value * 10 + d;
        value = if next < 13 {
            next
        } else {
            13
        };
        i = i + 1;
    }
    assert(v@.subrange(start as int, v.len() as int) == body);
    Some(value)
}

/// Maps a key name to its virtual-key code.
pub fn vk_for_key_name(name: &str) -> (r: Option<u32>)
    ensures
        r == vk_key(name@),
{
    let lower = to_ascii_lowercase(name);
    let l = lower.as_str();
    if same_text(l, "space") {
        return Some(0x20);
    }
    if same_text(l, "enter") {
        return Some(0x0D);
    }
    if same_text(l, "tab") {
        return Some(0x09);
    }
    if same_text(l, "backslash") {
        return Some(0xDC);
    }
    if same_text(l, "capslock") {
        return Some(0x14);
    }
    if same_text(l, "grave") || same_text(l, "backtick") {
        return Some(0xC0);
    }
    let v = chars_of(l);
    if v.len() == 1 && (('a' <= v[0] && v[0] <= 'z') || ('A' <= v[0] && v[0] <= 'Z')) {
        let c = v[0];
        let code: u32 = if 'a' <= c && c <= 'z' {
            (c as u32) - 32
        } else {
            c as u32
        };
        return Some(code);
    }
    if v.len() == 1 && '0' <= v[0] && v[0] <= '9' {
        return Some(v[0] as u32);
    }
    if v.len() >= 1 && v[0] == 'f' {
        assert(v@.skip(1) == v@.drop_first());
        match small_number(&v, 1) {
            Some(n) => {
                if 1 <= n && n <= 12 {
                    return Some(0x70 + n - 1);
                }
                return None;
            },
            None => return None,
        }
    }
    None
}

/// The virtual-key codes of the modifier names that have one, in order (unknown names
/// are skipped).
pub open spec fn modifier_vks(ms: Seq<Seq<char>>) -> Seq<u32>
    decreases ms.len(),
{
    if ms.len() == 0 {
        seq![]
    } else {
        match vk_modifier(ms.last()) {
            Some(vk) => modifier_vks(ms.drop_last()).push(vk),
            None => modifier_vks(ms.drop_last()),
        }
    }
}

/// The virtual-key codes of the modifiers a hotkey names (unknown names are skipped).
pub fn modifier_vks_for(hotkey: &Hotkey) -> (r: Vec<u32>)
    ensures
        r@ == modifier_vks(hotkey@.modifiers),
{
    let ghost ms = hotkey@.modifiers;
    let mut r: Vec<u32> = Vec::new();
    let mut i: usize = 0;
    while i < hotkey.modifiers.len()
        invariant
            i <= hotkey.modifiers.len(),
            ms == hotkey@.modifiers,
            ms.len() == hotkey.modifiers@.len(),
            r@ == modifier_vks(ms.take(i as int)),
        decreases hotkey.modifiers.len() - i,
    {
        assert(ms[i as int] == hotkey.modifiers@[i as int]@);
        assert(ms.take(i + 1).drop_last() == ms.take(i as int));
        assert(ms.take(i + 1).last() == ms[i as int]);
        match vk_for_modifier(hotkey.modifiers[i].as_str()) {
            Some(vk) => r.push(vk),
            None => {},
        }
        i = i + 1;
    }
    assert(ms.take(hotkey.modifiers.len() as int) == ms);
    r
}

/// What the hook watches: the main key, the modifiers that must be held, and whether the
/// combination is currently considered held.
pub struct HookState {
    /// Virtual-key code of the main (trigger) key.
    pub main_vk: u32,
    /// Modifier virtual-key codes that must be held for a valid press.
    pub modifier_vks: Vec<u32>,
    /// Whether the combination is currently considered held.
    pub active: bool,
}

impl HookState {
    /// The state for a newly installed listener: the hotkey's codes, not held. Fails when
    /// the main key has no virtual-key code.
    pub fn for_hotkey(hotkey: &Hotkey) -> (r: Result<HookState, HotkeyError>)
        ensures
            match r {
                Ok(s) => vk_key(hotkey@.key) == Some(s.main_vk) && s.modifier_vks@ == modifier_vks(
                    hotkey@.modifiers,
                ) && !s.active,
                Err(e) => vk_key(hotkey@.key) is None && e@ == super::HotkeyErrorView::UnsupportedKey(
                    hotkey@.key,
                ),
            },
    {
        match vk_for_key_name(hotkey.key.as_str()) {
            Some(vk) => Ok(HookState {
                main_vk: vk,
                modifier_vks: modifier_vks_for(hotkey),
                active: false,
            }),
            None => Err(HotkeyError::UnsupportedKey(hotkey.key.clone())),
        }
    }
}

/// Points a running listener at a new combination without restarting it. A hotkey whose
/// main key has no virtual-key code, or a listener that is not running, is left as is.
pub fn update_hotkey(state: &mut Option<HookState>, hotkey: &Hotkey)
    ensures
        match (*old(state), vk_key(hotkey@.key)) {
            (Some(_), Some(vk)) => match *final(state) {
                Some(s) => s.main_vk == vk && s.modifier_vks@ == modifier_vks(hotkey@.modifiers)
                    && !s.active,
                None => false,
            },
            _ => *final(state) == *old(state),
        },
{
    match state {
        Some(s) => {
            match vk_for_key_name(hotkey.key.as_str()) {
                Some(vk) => {
                    s.main_vk = vk;
                    s.modifier_vks = modifier_vks_for(hotkey);
                    s.active = false;
                },
                None => {},
            }
        },
        None => {},
    }
}

/// One key event as the hook sees it.
#[derive(Debug, Clone, Copy)]
pub struct KeyStroke {
    /// Virtual-key code of the key.
    pub vk: u32,
    /// A key-down (`WM_KEYDOWN` / `WM_SYSKEYDOWN`).
    pub is_down: bool,
    /// A key-up (`WM_KEYUP` / `WM_SYSKEYUP`).
    pub is_up: bool,
    /// Whether every required modifier is down at this moment.
    pub modifiers_held: bool,
}

/// What the hook does with a key event.
#[derive(Debug, Clone, Copy)]
pub struct KeyDecision {
    /// The edge to report, if any.
    pub event: Option<HotkeyEvent>,
    /// Whether to keep the keystroke from the focused application.
    pub swallow: bool,
}

/// One hook step: the new "held" flag, the edge reported, and whether the keystroke is
/// swallowed.
pub open spec fn key_step(active: bool, main_vk: u32, k: KeyStroke) -> (bool, Option<HotkeyEvent>, bool) {
    if k.vk == main_vk {
        if k.is_down && !active && k.modifiers_held {
            (true, Some(HotkeyEvent::Pressed), true)
        } else if k.is_down && active {
            (true, None, true)
        } else if k.is_up && active {
            (false, Some(HotkeyEvent::Released), true)
        } else {
            (active, None, false)
        }
    } else {
        (active, None, false)
    }
}

/// True when every required modifier is down.
pub fn modifiers_held(held: &[bool]) -> (r: bool)
    ensures
        r == forall|i: int| 0 <= i < held@.len() ==> held@[i],
{
    let mut i: usize = 0;
    while i < held.len()
        invariant
            i <= held.len(),
            forall|k: int| 0 <= k < i ==> held@[k],
        decreases held.len() - i,
    {
        if !held[i] {
            return false;
        }
        i = i + 1;
    }
    true
}

/// Handles one key event: updates whether the combination is held and says which edge
/// to report and whether to swallow the keystroke.
pub fn on_key(state: &mut HookState, key: KeyStroke) -> (d: KeyDecision)
    ensures
        final(state).main_vk == old(state).main_vk,
        final(state).modifier_vks@ == old(state).modifier_vks@,
        (final(state).active, d.event, d.swallow) == key_step(old(state).active, old(state).main_vk, key),
{
    let mut decision = KeyDecision { event: None, swallow: false };
    if key.vk == state.main_vk {
        if key.is_down && !state.active && key.modifiers_held {
            state.active = true;
            decision = KeyDecision { event: Some(HotkeyEvent::Pressed), swallow: true };
        } else if key.is_down && state.active {
            decision = KeyDecision { event: None, swallow: true };
        } else if key.is_up && state.active {
            state.active = false;
            decision = KeyDecision { event: Some(HotkeyEvent::Released), swallow: true };
        }
    }
    decision
}

/// Only the main key matters: any other key (a modifier let go first, a letter typed
/// meanwhile) leaves the held flag as it was, reports no edge and passes through to the
/// focused application. An edge needs the main key: `Pressed` when it goes down with the
/// modifiers held while not already held, `Released` when it goes up while held; and the
/// main key is swallowed exactly while the combination is (or becomes) held.
pub proof fn lemma_only_main_key_counts(active: bool, main_vk: u32, k: KeyStroke)
    ensures
        k.vk != main_vk ==> key_step(active, main_vk, k) == (active, None::<HotkeyEvent>, false),
        key_step(active, main_vk, k).1 == Some(HotkeyEvent::Pressed) ==> k.vk == main_vk && k.is_down
            && k.modifiers_held && !active && key_step(active, main_vk, k).0,
        key_step(active, main_vk, k).1 == Some(HotkeyEvent::Released) ==> k.vk == main_vk && active
            && !key_step(active, main_vk, k).0,
        key_step(active, main_vk, k).2 ==> k.vk == main_vk && (active || key_step(active, main_vk, k).0),
        k.vk == main_vk && k.is_up && !k.is_down && active ==> key_step(active, main_vk, k) == (
            false,
            Some(HotkeyEvent::Released),
            true,
        ),
{
}

/// The edges reported over a run of key events, with the final "held" flag.
pub open spec fn hook_run(active: bool, main_vk: u32, keys: Seq<KeyStroke>) -> (bool, Seq<HotkeyEvent>)
    decreases keys.len(),
{
    if keys.len() == 0 {
        (active, seq![])
    } else {
        let (b, evs) = hook_run(active, main_vk, keys.drop_last());
        let (c, e, _) = key_step(b, main_vk, keys.last());
        (
            c,
            match e {
                Some(x) => evs.push(x),
                None => evs,
            },
        )
    }
}

/// The edge expected at position `i` of the reported edges when the run starts with the
/// combination held (`active`) or not.
pub open spec fn expected_edge(i: int, active: bool) -> HotkeyEvent {
    if (i % 2 == 0) == !active {
        HotkeyEvent::Pressed
    } else {
        HotkeyEvent::Released
    }
}

/// Edges alternate: starting from "not held", the hook reports Pressed, Released,
/// Pressed, … and never two of a kind in a row; the final "held" flag says whether the
/// last edge was a press.
pub proof fn lemma_edges_alternate(active: bool, main_vk: u32, keys: Seq<KeyStroke>)
    ensures
        ({
            let (a, evs) = hook_run(active, main_vk, keys);
            &&& forall|i: int| 0 <= i < evs.len() ==> evs[i] == expected_edge(i, active)
            &&& a == (active != (evs.len() % 2 == 1))
        }),
    decreases keys.len(),
{
    if keys.len() > 0 {
        lemma_edges_alternate(active, main_vk, keys.drop_last());
        let (b, evs) = hook_run(active, main_vk, keys.drop_last());
        let (c, e, _) = key_step(b, main_vk, keys.last());
        match e {
            Some(x) => {
                let evs2 = evs.push(x);
                assert forall|i: int| 0 <= i < evs2.len() implies evs2[i] == expected_edge(i, active) by {
                    if i < evs.len() {
                        assert(evs2[i] == evs[i]);
                    }
                }
            },
            None => {},
        }
    }
}

} // verus!
