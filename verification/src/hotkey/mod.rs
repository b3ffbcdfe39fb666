//! Global push-to-talk hotkey: which key and modifier names are understood, and how a
//! configured [`Hotkey`] becomes a `global_hotkey` registration. The application owns
//! the listener thread and the OS registration.

use vstd::prelude::*;
use vstd::string::*;

use global_hotkey::hotkey::{Code, HotKey, Modifiers};

use crate::config::Hotkey;
use crate::text::{
    ascii_lower, ascii_lowercase, ascii_upper, chars_of, concat_str, is_ascii_digit, is_ascii_lower, push_char,
    same_text, string_views, to_ascii_lowercase, trimmed, is_blank,
};

pub mod windows;

verus! {

/// Edge event emitted by the listener.
#[derive(Debug, Clone, Copy, PartialEq, Eq, Structural)]
pub enum HotkeyEvent {
    /// The full combination just became held.
    Pressed,
    /// The combination was released.
    Released,
}

/// A modifier key that a hotkey may require.
#[derive(Debug, Clone, Copy, PartialEq, Eq, Structural)]
pub enum ModifierKey {
    Alt,
    Control,
    Shift,
    Meta,
}

/// Why a configured hotkey cannot be registered.
#[derive(Debug)]
pub enum HotkeyError {
    /// The main key name is not one the listener knows.
    UnsupportedKey(String),
    /// A modifier name is not one the listener knows.
    UnsupportedModifier(String),
}

/// The abstract content of a [`HotkeyError`].
pub enum HotkeyErrorView {
    UnsupportedKey(Seq<char>),
    UnsupportedModifier(Seq<char>),
}

impl View for HotkeyError {
    type V = HotkeyErrorView;

    open spec fn view(&self) -> HotkeyErrorView {
        match self {
            HotkeyError::UnsupportedKey(k) => HotkeyErrorView::UnsupportedKey(k@),
            HotkeyError::UnsupportedModifier(m) => HotkeyErrorView::UnsupportedModifier(m@),
        }
    }
}

pub open spec fn hotkey_error_message(e: HotkeyErrorView) -> Seq<char> {
    match e {
        HotkeyErrorView::UnsupportedKey(k) => "unsupported hotkey main key: "@ + k,
        HotkeyErrorView::UnsupportedModifier(m) => "unsupported hotkey modifier: "@ + m,
    }
}

impl HotkeyError {
    /// The user-facing description.
    pub fn message(&self) -> (r: String)
        ensures
            r@ == hotkey_error_message(self@),
    {
        match self {
            HotkeyError::UnsupportedKey(k) => concat_str("unsupported hotkey main key: ", k.as_str()),
            HotkeyError::UnsupportedModifier(m) => concat_str("unsupported hotkey modifier: ", m.as_str()),
        }
    }
}

/// The edge a listener reports for a hotkey event: events of other hotkeys are ignored;
/// ours become `Pressed` or `Released`.
pub fn listener_edge(event_id: u32, target_id: u32, pressed: bool) -> (r: Option<HotkeyEvent>)
    ensures
        r == if event_id != target_id {
            None
        } else if pressed {
            Some(HotkeyEvent::Pressed)
        } else {
            Some(HotkeyEvent::Released)
        },
{
    if event_id != target_id {
        None
    } else if pressed {
        Some(HotkeyEvent::Pressed)
    } else {
        Some(HotkeyEvent::Released)
    }
}

/// Whether a hotkey is usable: its main key is not blank. Modifiers are optional.
pub fn is_valid(hk: &Hotkey) -> (r: bool)
    ensures
        r == (trimmed(hk@.key).len() > 0),
{
    !is_blank(hk.key.as_str())
}

/// Changing the combination of a running `global_hotkey` listener is not supported: the
/// listener is restarted instead, so this leaves everything as it is.
pub fn update_hotkey(_hotkey: &Hotkey) {
}

/// The modifier a (case-insensitive) name denotes.
pub open spec fn modifier_named(name: Seq<char>) -> Option<ModifierKey> {
    let l = ascii_lowercase(name);
    if l == "alt"@ {
        Some(ModifierKey::Alt)
    } else if l == "ctrl"@ || l == "control"@ {
        Some(ModifierKey::Control)
    } else if l == "shift"@ {
        Some(ModifierKey::Shift)
    } else if l == "win"@ || l == "super"@ || l == "meta"@ || l == "cmd"@ || l == "command"@ {
        Some(ModifierKey::Meta)
    } else {
        None
    }
}

/// Maps a modifier name (any ASCII case) to the modifier.
pub fn modifier_for_name(name: &str) -> (r: Option<ModifierKey>)
    ensures
        r == modifier_named(name@),
{
    let l = to_ascii_lowercase(name);
    let l = l.as_str();
    if same_text(l, "alt") {
        Some(ModifierKey::Alt)
    } else if same_text(l, "ctrl") || same_text(l, "control") {
        Some(ModifierKey::Control)
    } else if same_text(l, "shift") {
        Some(ModifierKey::Shift)
    } else if same_text(l, "win") || same_text(l, "super") || same_text(l, "meta")
        || same_text(l, "cmd") || same_text(l, "command") {
        Some(ModifierKey::Meta)
    } else {
        None
    }
}

/// A function-key number written as `"1"` to `"12"`.
pub open spec fn fkey_suffix(d: Seq<char>) -> bool {
    (d.len() == 1 && 49 <= d[0] as u32 <= 57) || d == "10"@ || d == "11"@ || d == "12"@
}

/// The W3C `KeyboardEvent.code` name of a VoiceForge key name (any ASCII case), e.g.
/// `"space"` → `"Space"`, `"a"` → `"KeyA"`, `"7"` → `"Digit7"`, `"f5"` → `"F5"`.
pub open spec fn key_code_name(name: Seq<char>) -> Option<Seq<char>> {
    let l = ascii_lowercase(name);
    if l == "space"@ {
        Some("Space"@)
    } else if l == "enter"@ {
        Some("Enter"@)
    } else if l == "tab"@ {
        Some("Tab"@)
    } else if l == "backslash"@ {
        Some("Backslash"@)
    } else if l == "capslock"@ {
        Some("CapsLock"@)
    } else if l == "grave"@ || l == "backtick"@ {
        Some("Backquote"@)
    } else if l.len() == 1 && is_ascii_lower(l[0]) {
        Some("Key"@ + seq![ascii_upper(l[0])])
    } else if l.len() == 1 && is_ascii_digit(l[0]) {
        Some("Digit"@ + l)
    } else if l.len() >= 2 && l[0] == 'f' && fkey_suffix(l.drop_first()) {
        Some(seq!['F'] + l.drop_first())
    } else {
        None
    }
}

/// The code names [`key_code_name`] produces.
pub open spec fn known_code_name(w: Seq<char>) -> bool {
    ||| w == "Space"@
    ||| w == "Enter"@
    ||| w == "Tab"@
    ||| w == "Backslash"@
    ||| w == "CapsLock"@
    ||| w == "Backquote"@
    ||| (w.len() == 4 && w.take(3) == "Key"@ && 65 <= w[3] as u32 <= 90)
    ||| (w.len() == 6 && w.take(5) == "Digit"@ && is_ascii_digit(w[5]))
    ||| (w.len() >= 2 && w[0] == 'F' && fkey_suffix(w.drop_first()))
}

/// Maps a VoiceForge key name (any ASCII case) to its W3C code name.
pub fn code_name_for_key(name: &str) -> (r: Option<String>)
    ensures
        match r {
            Some(w) => key_code_name(name@) == Some(w@),
            None => key_code_name(name@) is None,
        },
{
    let lower = to_ascii_lowercase(name);
    let l = lower.as_str();
    if same_text(l, "space") {
        return Some(String::from_str("Space"));
    }
    if same_text(l, "enter") {
        return Some(String::from_str("Enter"));
    }
    if same_text(l, "tab") {
        return Some(String::from_str("Tab"));
    }
    if same_text(l, "backslash") {
        return Some(String::from_str("Backslash"));
    }
    if same_text(l, "capslock") {
        return Some(String::from_str("CapsLock"));
    }
    if same_text(l, "grave") || same_text(l, "backtick") {
        return Some(String::from_str("Backquote"));
    }
    let v = chars_of(l);
    if v.len() == 1 && 'a' <= v[0] && v[0] <= 'z' {
        let mut w = String::from_str("Key");
        let b: u8 = v[0] as u8;
        push_char(&mut w, (b - 32) as char);
        return Some(w);
    }
    if v.len() == 1 && '0' <= v[0] && v[0] <= '9' {
        return Some(concat_str("Digit", l));
    }
    if v.len() >= 2 && v[0] == 'f' {
        let ok = (v.len() == 2 && '1' <= v[1] && v[1] <= '9') || (v.len() == 3 && v[1] == '1'
            && '0' <= v[2] && v[2] <= '2');
        proof {
            reveal_strlit("10");
            reveal_strlit("11");
            reveal_strlit("12");
            let d = v@.drop_first();
            if v.len() == 3 && v[1] == '1' && v[2] == '0' {
                assert(d =~= "10"@);
            }
            if v.len() == 3 && v[1] == '1' && v[2] == '1' {
                assert(d =~= "11"@);
            }
            if v.len() == 3 && v[1] == '1' && v[2] == '2' {
                assert(d =~= "12"@);
            }
        }
        if ok {
            let mut w = String::from_str("F");
            proof {
                reveal_strlit("F");
                assert(w@ =~= seq!['F'] + v@.subrange(1, 1));
            }
            let mut i: usize = 1;
            while i < v.len()
                invariant
                    1 <= i <= v.len(),
                    w@ == seq!['F'] + v@.subrange(1, i as int),
                decreases v.len() - i,
            {
                push_char(&mut w, v[i]);
                assert(v@.subrange(1, i + 1) == v@.subrange(1, i as int).push(v@[i as int]));
                i = i + 1;
            }
            proof {
                reveal_strlit("F");
                assert(v@.subrange(1, v.len() as int) == v@.drop_first());
            }
            return Some(w);
        }
        proof {
            let d = v@.drop_first();
            assert(d.len() == v.len() - 1);
            if d.len() == 2 {
                assert(d[0] == v[1] && d[1] == v[2]);
            }
            assert("10"@.len() == 2 && "10"@[0] == '1' && "10"@[1] == '0');
            assert("11"@.len() == 2 && "11"@[0] == '1' && "11"@[1] == '1');
            assert("12"@.len() == 2 && "12"@[0] == '1' && "12"@[1] == '2');
            assert(!fkey_suffix(d));
        }
    }
    None
}

/// The bit `keyboard_types::Modifiers` uses for a modifier.
pub open spec fn modifier_flag(m: ModifierKey) -> u32 {
    match m {
        ModifierKey::Alt => 0x01,
        ModifierKey::Control => 0x08,
        ModifierKey::Shift => 0x200,
        ModifierKey::Meta => 0x40,
    }
}

/// Reads the bits of `Modifiers::ALT`, `CONTROL`, `SHIFT` and `META`. Claimed: they are
/// 0x01, 0x08, 0x200 and 0x40, as keyboard-types defines them.
#[verifier::external_body]
fn modifier_bits(m: ModifierKey) -> (b: u32)
    ensures
        b == modifier_flag(m),
{
    match m {
        ModifierKey::Alt => Modifiers::ALT.bits(),
        ModifierKey::Control => Modifiers::CONTROL.bits(),
        ModifierKey::Shift => Modifiers::SHIFT.bits(),
        ModifierKey::Meta => Modifiers::META.bits(),
    }
}

#[verifier::external_type_specification]
#[verifier::external_body]
pub struct ExCode(Code);

#[verifier::external_type_specification]
#[verifier::external_body]
pub struct ExHotKey(HotKey);

/// What `<Code as FromStr>::from_str` yields for a W3C code name (`None` when it fails).
pub uninterp spec fn code_parsed(name: Seq<char>) -> Option<Code>;

/// Calls `<keyboard_types::Code as FromStr>::from_str`. Claimed: the result is
/// `code_parsed(name)`, and every name of [`known_code_name`] parses (each is an arm of
/// the crate's match).
#[verifier::external_body]
fn parse_code(name: &str) -> (r: Option<Code>)
    ensures
        r == code_parsed(name@),
        known_code_name(name@) ==> r is Some,
{
    name.parse::<Code>().ok()
}

/// What `HotKey::new(Some(Modifiers::from_bits_truncate(bits)), code)` returns.
pub uninterp spec fn hotkey_value(bits: u32, code: Code) -> HotKey;

/// Calls `global_hotkey::hotkey::HotKey::new` with the modifiers of `bits`. Claimed: the
/// result is `hotkey_value(bits, code)`.
#[verifier::external_body]
fn new_hotkey(bits: u32, code: Code) -> (r: HotKey)
    ensures
        r == hotkey_value(bits, code),
{
    HotKey::new(Some(Modifiers::from_bits_truncate(bits)), code)
}

/// The modifier bits of a list of modifier names, or the first name that is not a
/// modifier.
pub open spec fn modifiers_bits(ms: Seq<Seq<char>>) -> Result<u32, Seq<char>>
    decreases ms.len(),
{
    if ms.len() == 0 {
        Ok(0u32)
    } else {
        match modifiers_bits(ms.drop_last()) {
            Err(e) => Err(e),
            Ok(b) => match modifier_named(ms.last()) {
                None => Err(ms.last()),
                Some(k) => Ok(b | modifier_flag(k)),
            },
        }
    }
}

proof fn lemma_modifiers_error_sticks(ms: Seq<Seq<char>>, i: int)
    requires
        0 <= i <= ms.len(),
        modifiers_bits(ms.take(i)) is Err,
    ensures
        modifiers_bits(ms) == modifiers_bits(ms.take(i)),
    decreases ms.len() - i,
{
    if i < ms.len() {
        assert(ms.take(i + 1).drop_last() == ms.take(i));
        lemma_modifiers_error_sticks(ms, i + 1);
    } else {
        assert(ms.take(i) == ms);
    }
}

/// The registration a configured hotkey describes, or why there is none: an unknown
/// main key is reported first, then the first unknown modifier in order.
pub open spec fn hotkey_registration(hk: crate::config::HotkeyView) -> Result<HotKey, HotkeyErrorView> {
    match key_code_name(hk.key) {
        None => Err(HotkeyErrorView::UnsupportedKey(hk.key)),
        Some(w) => match modifiers_bits(hk.modifiers) {
            Err(m) => Err(HotkeyErrorView::UnsupportedModifier(m)),
            Ok(bits) => Ok(hotkey_value(bits, code_parsed(w).unwrap())),
        },
    }
}

/// Builds the `global_hotkey` registration for a configured hotkey.
pub fn build_hotkey(hotkey: &Hotkey) -> (r: Result<HotKey, HotkeyError>)
    ensures
        match (r, hotkey_registration(hotkey@)) {
            (Ok(h), Ok(g)) => h == g,
            (Err(e), Err(f)) => e@ == f,
            _ => false,
        },
{
    let w = match code_name_for_key(hotkey.key.as_str()) {
        Some(w) => w,
        None => return Err(HotkeyError::UnsupportedKey(hotkey.key.clone())),
    };
    proof {
        lemma_code_name_known(hotkey@.key);
    }
    let code = match parse_code(w.as_str()) {
        Some(c) => c,
        None => return Err(HotkeyError::UnsupportedKey(hotkey.key.clone())),
    };
    match modifier_mask(&hotkey.modifiers) {
        Ok(bits) => Ok(new_hotkey(bits, code)),
        Err(e) => Err(e),
    }
}

/// The modifier bits of a list of modifier names, or the first name that is not a
/// modifier.
pub fn modifier_mask(modifiers: &Vec<String>) -> (r: Result<u32, HotkeyError>)
    ensures
        match (r, modifiers_bits(string_views(modifiers@))) {
            (Ok(b), Ok(c)) => b == c,
            (Err(e), Err(m)) => e@ == HotkeyErrorView::UnsupportedModifier(m),
            _ => false,
        },
{
    let ghost ms = string_views(modifiers@);
    let mut bits: u32 = 0;
    let mut i: usize = 0;
    while i < modifiers.len()
        invariant
            i <= modifiers.len(),
            ms == string_views(modifiers@),
            ms.len() == modifiers@.len(),
            modifiers_bits(ms.take(i as int)) == Ok::<u32, Seq<char>>(bits),
        decreases modifiers.len() - i,
    {
        let m = &modifiers[i];
        assert(ms[i as int] == m@);
        assert(ms.take(i + 1).drop_last() == ms.take(i as int));
        match modifier_for_name(m.as_str()) {
            Some(k) => {
                bits = bits | modifier_bits(k);
            },
            None => {
                proof {
                    assert(ms.take(i + 1).last() == ms[i as int]);
                    assert(modifiers_bits(ms.take(i + 1)) == Err::<u32, Seq<char>>(ms[i as int]));
                    lemma_modifiers_error_sticks(ms, i + 1);
                }
                let name = m.clone();
                return Err(HotkeyError::UnsupportedModifier(name));
            },
        }
        i = i + 1;
    }
    assert(ms.take(modifiers.len() as int) == ms);
    Ok(bits)
}

/// The default hotkey, Alt + Space, can always be registered: its key has a code name and
/// its modifier is known.
pub proof fn lemma_default_hotkey_registers()
    ensures
        hotkey_registration(crate::config::default_config().hotkey) is Ok,
{
    let hk = crate::config::default_config().hotkey;
    reveal_strlit("space");
    reveal_strlit("alt");
    assert(ascii_lowercase(hk.key) =~= "space"@);
    assert(hk.modifiers.drop_last() =~= Seq::<Seq<char>>::empty());
    assert(ascii_lowercase(hk.modifiers.last()) =~= "alt"@);
    assert(modifiers_bits(hk.modifiers.drop_last()) == Ok::<u32, Seq<char>>(0u32));
}

/// The key a (lower-case) name denotes: `backtick` is another name for `grave`.
pub open spec fn key_alias(l: Seq<char>) -> Seq<char> {
    if l == "backtick"@ {
        "grave"@
    } else {
        l
    }
}

/// The lower-case key name a code name stands for.
spec fn key_of_code(w: Seq<char>) -> Seq<char> {
    if w == "Space"@ {
        "space"@
    } else if w == "Enter"@ {
        "enter"@
    } else if w == "Tab"@ {
        "tab"@
    } else if w == "Backslash"@ {
        "backslash"@
    } else if w == "CapsLock"@ {
        "capslock"@
    } else if w == "Backquote"@ {
        "grave"@
    } else if w.len() == 4 && w.take(3) == "Key"@ {
        seq![ascii_lower(w[3])]
    } else if w.len() == 6 && w.take(5) == "Digit"@ {
        seq![w[5]]
    } else if w.len() >= 2 && w[0] == 'F' {
        seq!['f'] + w.drop_first()
    } else {
        seq![]
    }
}

proof fn lemma_code_decodes(name: Seq<char>)
    ensures
        key_code_name(name) matches Some(w) ==> key_of_code(w) == key_alias(ascii_lowercase(name)),
{
    reveal_strlit("space");
    reveal_strlit("enter");
    reveal_strlit("tab");
    reveal_strlit("backslash");
    reveal_strlit("capslock");
    reveal_strlit("grave");
    reveal_strlit("backtick");
    reveal_strlit("Space");
    reveal_strlit("Enter");
    reveal_strlit("Tab");
    reveal_strlit("Backslash");
    reveal_strlit("CapsLock");
    reveal_strlit("Backquote");
    reveal_strlit("Key");
    reveal_strlit("Digit");
    let l = ascii_lowercase(name);
    assert("Backquote"@[4] != "Backslash"@[4]);
    assert("Space"@[0] != "Enter"@[0]);
    assert("grave"@ != "backtick"@) by {
        assert("grave"@.len() != "backtick"@.len());
    }
    assert("capslock"@ != "backtick"@) by {
        assert("capslock"@[0] != "backtick"@[0]);
    }
    let (sp, en, tb, bs, cl) = ("Space"@, "Enter"@, "Tab"@, "Backslash"@, "CapsLock"@);
    assert(sp != en);
    assert(tb != sp && tb != en) by {
        assert(tb.len() == 3);
    }
    assert(bs != sp && bs != en && bs != tb) by {
        assert(bs.len() == 9);
    }
    assert(cl != sp && cl != en && cl != tb && cl != bs) by {
        assert(cl.len() == 8);
    }
    if l == "space"@ {
        assert(key_of_code(sp) == "space"@);
        assert(l != "backtick"@) by {
            assert(l.len() == 5);
        }
    } else if l == "enter"@ {
        assert(key_of_code(en) == "enter"@);
        assert(l != "backtick"@) by {
            assert(l.len() == 5);
        }
    } else if l == "tab"@ {
        assert(key_of_code(tb) == "tab"@);
        assert(l != "backtick"@) by {
            assert(l.len() == 3);
        }
    } else if l == "backslash"@ {
        assert(key_of_code(bs) == "backslash"@);
        assert(l != "backtick"@) by {
            assert(l.len() == 9);
        }
    } else if l == "capslock"@ {
        assert(key_of_code(cl) == "capslock"@);
    } else if l == "grave"@ || l == "backtick"@ {
        assert(key_code_name(name) == Some("Backquote"@));
        let bq = "Backquote"@;
        assert(bq != "Backslash"@) by {
            assert(bq[4] != "Backslash"@[4]);
        }
        assert(bq != "Space"@ && bq != "Enter"@ && bq != "Tab"@ && bq != "CapsLock"@) by {
            assert(bq.len() == 9);
        }
        assert(key_of_code(bq) == "grave"@);
    } else if l.len() == 1 && is_ascii_lower(l[0]) {
        let w = "Key"@ + seq![ascii_upper(l[0])];
        assert(key_code_name(name) == Some(w));
        assert(w.len() == 4);
        assert(w.take(3) =~= "Key"@);
        assert(w[3] == ascii_upper(l[0]));
        let c = l[0];
        assert((c as u32 - 32) as char as u32 == c as u32 - 32);
        assert(ascii_lower(ascii_upper(c)) == c);
        assert(seq![ascii_lower(w[3])] =~= l);
        assert(key_of_code(w) == l);
        assert(l != "backtick"@);
    } else if l.len() == 1 && is_ascii_digit(l[0]) {
        let w = "Digit"@ + l;
        assert(key_code_name(name) == Some(w));
        assert(w.len() == 6);
        assert(w.take(5) =~= "Digit"@);
        assert(seq![w[5]] =~= l);
        assert(key_of_code(w) == l);
        assert(l != "backtick"@);
    } else if l.len() >= 2 && l[0] == 'f' && fkey_suffix(l.drop_first()) {
        let w = seq!['F'] + l.drop_first();
        reveal_strlit("10");
        reveal_strlit("11");
        reveal_strlit("12");
        assert(key_code_name(name) == Some(w));
        assert(w[0] == 'F');
        assert(w.len() == 2 || w.len() == 3);
        assert(w != "Tab"@) by {
            assert("Tab"@[0] == 'T');
        }
        assert(w.drop_first() =~= l.drop_first());
        assert(seq!['f'] + w.drop_first() =~= l);
        assert(key_of_code(w) == l);
        assert(l != "backtick"@) by {
            assert("backtick"@[0] == 'b');
        }
    }
}

/// Different keys get different codes: two key names receive the same code only when
/// they name the same key (the same name in another ASCII case, or `grave` and
/// `backtick`).
pub proof fn lemma_distinct_keys_distinct_codes(a: Seq<char>, b: Seq<char>)
    ensures
        key_code_name(a) is Some && key_code_name(a) == key_code_name(b) ==> key_alias(ascii_lowercase(a))
            == key_alias(ascii_lowercase(b)),
{
    lemma_code_decodes(a);
    lemma_code_decodes(b);
}

/// Every code name that [`key_code_name`] produces is one the code parser knows.
pub proof fn lemma_code_name_known(name: Seq<char>)
    ensures
        key_code_name(name) matches Some(w) ==> known_code_name(w),
{
    reveal_strlit("Key");
    reveal_strlit("Digit");
    let l = ascii_lowercase(name);
    if l.len() == 1 && is_ascii_lower(l[0]) {
        let w = "Key"@ + seq![ascii_upper(l[0])];
        assert(w.take(3) =~= "Key"@);
    }
    if l.len() == 1 && is_ascii_digit(l[0]) {
        let w = "Digit"@ + l;
        assert(w.take(5) =~= "Digit"@);
        assert(w[5] == l[0]);
    }
    if l.len() >= 2 && l[0] == 'f' && fkey_suffix(l.drop_first()) {
        let w = seq!['F'] + l.drop_first();
        assert(w.drop_first() =~= l.drop_first());
    }
}

} // verus!
