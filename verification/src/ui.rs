//! The settings window's decisions: the hotkey presets and how a hotkey is recognized
//! among them, the labels of the providers, and the hotkey read from the keys held
//! while capturing. Drawing the window belongs to the application.

use vstd::prelude::*;

use crate::app::Status;
use crate::config::{hotkey_label, Hotkey, HotkeyView, Provider};
use crate::text::{ascii_lowercase, concat_str, eq_ignore_ascii_case, string_views, trim, trimmed};

verus! {

/// Two names are equal ignoring ASCII case.
pub open spec fn ci_eq(a: Seq<char>, b: Seq<char>) -> bool {
    ascii_lowercase(a) == ascii_lowercase(b)
}

/// `name` occurs in `list`, ignoring ASCII case.
pub open spec fn has_ci(list: Seq<Seq<char>>, name: Seq<char>) -> bool {
    exists|j: int| 0 <= j < list.len() && ci_eq(name, #[trigger] list[j])
}

/// Two hotkeys denote the same combination: the same main key and the same number of
/// modifiers, each modifier of `a` among those of `b` (ignoring ASCII case).
pub open spec fn same_hotkey(a: HotkeyView, b: HotkeyView) -> bool {
    &&& ci_eq(a.key, b.key)
    &&& a.modifiers.len() == b.modifiers.len()
    &&& forall|i: int| 0 <= i < a.modifiers.len() ==> #[trigger] has_ci(b.modifiers, a.modifiers[i])
}

/// Every hotkey denotes the same combination as itself.
pub proof fn lemma_hotkey_matches_itself(h: HotkeyView)
    ensures
        same_hotkey(h, h),
{
    assert forall|i: int| 0 <= i < h.modifiers.len() implies #[trigger] has_ci(h.modifiers, h.modifiers[i]) by {
        assert(ci_eq(h.modifiers[i], h.modifiers[i]));
    }
}

/// Each preset is shown under its own label.
pub proof fn lemma_presets_label_themselves(i: int)
    requires
        0 <= i < presets().len(),
    ensures
        preset_label_from(presets()[i].1, 0) == presets()[i].0,
{
    reveal_strlit("alt");
    reveal_strlit("ctrl");
    reveal_strlit("space");
    reveal_strlit("capslock");
    reveal_strlit("grave");
    let ps = presets();
    lemma_hotkey_matches_itself(ps[i].1);
    assert(ascii_lowercase("alt"@) =~= "alt"@);
    assert(ascii_lowercase("ctrl"@) =~= "ctrl"@);
    assert(ascii_lowercase("space"@) =~= "space"@);
    assert(ascii_lowercase("capslock"@) =~= "capslock"@);
    assert(ascii_lowercase("grave"@) =~= "grave"@);
    assert("alt"@ != "ctrl"@) by {
        assert("alt"@[0] != "ctrl"@[0]);
    }
    assert("space"@ != "capslock"@) by {
        assert("space"@.len() != "capslock"@.len());
    }
    assert("space"@ != "grave"@) by {
        assert("space"@[0] != "grave"@[0]);
    }
    assert("capslock"@ != "grave"@) by {
        assert("capslock"@.len() != "grave"@.len());
    }
    if i >= 1 {
        assert(!same_hotkey(ps[i].1, ps[0].1)) by {
            if i == 1 {
                if has_ci(ps[0].1.modifiers, ps[1].1.modifiers[0]) {
                    assert(ps[0].1.modifiers[0] == "alt"@);
                }
            }
        }
    }
    if i >= 2 {
        assert(!same_hotkey(ps[i].1, ps[1].1));
    }
    if i >= 3 {
        assert(!same_hotkey(ps[i].1, ps[2].1));
    }
    reveal_with_fuel(preset_label_from, 5);
}

fn contains_ci(list: &Vec<String>, name: &str) -> (r: bool)
    ensures
        r == has_ci(string_views(list@), name@),
{
    let mut j: usize = 0;
    while j < list.len()
        invariant
            j <= list.len(),
            forall|k: int| 0 <= k < j ==> !ci_eq(name@, #[trigger] string_views(list@)[k]),
        decreases list.len() - j,
    {
        assert(string_views(list@)[j as int] == list@[j as int]@);
        if eq_ignore_ascii_case(name, list[j].as_str()) {
            return true;
        }
        j = j + 1;
    }
    false
}

/// Whether two hotkeys denote the same combination.
pub fn hotkey_matches(a: &Hotkey, b: &Hotkey) -> (r: bool)
    ensures
        r == same_hotkey(a@, b@),
{
    if !eq_ignore_ascii_case(a.key.as_str(), b.key.as_str()) {
        return false;
    }
    assert(a@.modifiers.len() == a.modifiers@.len());
    assert(b@.modifiers.len() == b.modifiers@.len());
    if a.modifiers.len() != b.modifiers.len() {
        return false;
    }
    let mut i: usize = 0;
    while i < a.modifiers.len()
        invariant
            i <= a.modifiers.len(),
            a@.modifiers.len() == a.modifiers@.len(),
            b@.modifiers.len() == b.modifiers@.len(),
            a.modifiers@.len() == b.modifiers@.len(),
            ci_eq(a@.key, b@.key),
            forall|k: int| 0 <= k < i ==> #[trigger] has_ci(b@.modifiers, a@.modifiers[k]),
        decreases a.modifiers.len() - i,
    {
        assert(a@.modifiers[i as int] == a.modifiers@[i as int]@);
        let found = contains_ci(&b.modifiers, a.modifiers[i].as_str());
        if !found {
            assert(!has_ci(b@.modifiers, a@.modifiers[i as int]));
            return false;
        }
        i = i + 1;
    }
    true
}

fn hotkey_of(mods: &[&str], key: &str) -> (r: Hotkey)
    ensures
        r@.key == key@,
        r@.modifiers == mods@.map_values(|m: &str| m@),
{
    let mut v: Vec<String> = Vec::new();
    let mut i: usize = 0;
    while i < mods.len()
        invariant
            i <= mods.len(),
            v@.len() == i,
            string_views(v@) == mods@.take(i as int).map_values(|m: &str| m@),
        decreases mods.len() - i,
    {
        let ghost before = v@;
        v.push(mods[i].to_owned());
        assert forall|k: int| 0 <= k < i + 1 implies #[trigger] string_views(v@)[k] == mods@.take(i + 1).map_values(|m: &str| m@)[k] by {
            if k < i {
                assert(v@[k] == before[k]);
                assert(string_views(before)[k] == mods@.take(i as int).map_values(|m: &str| m@)[k]);
            }
        }
        assert(string_views(v@) =~= mods@.take(i + 1).map_values(|m: &str| m@));
        i = i + 1;
    }
    assert(mods@.take(mods.len() as int) == mods@);
    Hotkey { modifiers: v, key: key.to_owned() }
}

/// The built-in hotkey choices: their labels and combinations.
pub open spec fn presets() -> Seq<(Seq<char>, HotkeyView)> {
    seq![
        ("Alt + Space"@, HotkeyView { modifiers: seq!["alt"@], key: "space"@ }),
        ("Ctrl + Space"@, HotkeyView { modifiers: seq!["ctrl"@], key: "space"@ }),
        ("Caps Lock"@, HotkeyView { modifiers: seq![], key: "capslock"@ }),
        ("` (backtick)"@, HotkeyView { modifiers: seq![], key: "grave"@ }),
    ]
}

/// Built-in hotkey choices offered in Settings, alongside a "Custom…" capture option.
pub fn hotkey_presets() -> (r: Vec<(String, Hotkey)>)
    ensures
        r@.len() == presets().len(),
        forall|i: int| 0 <= i < r@.len() ==> (#[trigger] r@[i]).0@ == presets()[i].0 && r@[i].1@ == presets()[i].1,
{
    let mut v: Vec<(String, Hotkey)> = Vec::new();
    let a: [&str; 1] = ["alt"];
    let c: [&str; 1] = ["ctrl"];
    let none: [&str; 0] = [];
    v.push(("Alt + Space".to_owned(), hotkey_of(&a, "space")));
    v.push(("Ctrl + Space".to_owned(), hotkey_of(&c, "space")));
    v.push(("Caps Lock".to_owned(), hotkey_of(&none, "capslock")));
    v.push(("` (backtick)".to_owned(), hotkey_of(&none, "grave")));
    assert(a@.map_values(|m: &str| m@) =~= seq!["alt"@]);
    assert(c@.map_values(|m: &str| m@) =~= seq!["ctrl"@]);
    assert(none@.map_values(|m: &str| m@) =~= Seq::<Seq<char>>::empty());
    v
}

/// The label of the first preset matching `hk`, or `"Custom (…)"` around its label.
pub open spec fn preset_label_from(hk: HotkeyView, i: int) -> Seq<char>
    decreases presets().len() - i,
{
    if i < 0 || i >= presets().len() {
        "Custom ("@ + hotkey_label(hk) + ")"@
    } else if same_hotkey(hk, presets()[i].1) {
        presets()[i].0
    } else {
        preset_label_from(hk, i + 1)
    }
}

/// The label shown for a hotkey: its preset's name, or `"Custom (Alt + K)"` and the like.
pub fn hotkey_preset_label(hk: &Hotkey) -> (r: String)
    ensures
        r@ == preset_label_from(hk@, 0),
{
    let ps = hotkey_presets();
    let mut i: usize = 0;
    while i < ps.len()
        invariant
            i <= ps.len(),
            ps@.len() == presets().len(),
            forall|k: int| 0 <= k < ps@.len() ==> (#[trigger] ps@[k]).0@ == presets()[k].0 && ps@[k].1@ == presets()[k].1,
            preset_label_from(hk@, 0) == preset_label_from(hk@, i as int),
        decreases ps.len() - i,
    {
        assert(ps@[i as int].1@ == presets()[i as int].1);
        if hotkey_matches(hk, &ps[i].1) {
            return ps[i].0.clone();
        }
        i = i + 1;
    }
    let mut s = "Custom (".to_owned();
    let label = hk.display();
    s.append(label.as_str());
    s.append(")");
    s
}

/// Human-friendly label for a provider in the dropdown.
pub open spec fn provider_text(p: Provider) -> Seq<char> {
    match p {
        Provider::Whisper => "Local Whisper (offline)"@,
        Provider::Openai => "OpenAI"@,
        Provider::Deepgram => "Deepgram"@,
        Provider::Mock => "Mock (offline test)"@,
    }
}

/// Human-friendly label for a provider.
pub fn provider_label(p: Provider) -> (r: &'static str)
    ensures
        r@ == provider_text(p),
{
    match p {
        Provider::Whisper => "Local Whisper (offline)",
        Provider::Openai => "OpenAI",
        Provider::Deepgram => "Deepgram",
        Provider::Mock => "Mock (offline test)",
    }
}

/// The caption of the API-key field for a provider.
pub open spec fn api_key_text(p: Provider) -> Seq<char> {
    match p {
        Provider::Openai => "OpenAI API key"@,
        Provider::Deepgram => "Deepgram API key"@,
        Provider::Whisper => "API key (not needed \u{2014} Whisper runs offline)"@,
        Provider::Mock => "API key (not needed for Mock)"@,
    }
}

/// The caption of the API-key field for a provider.
pub fn api_key_label(p: Provider) -> (r: &'static str)
    ensures
        r@ == api_key_text(p),
{
    match p {
        Provider::Openai => "OpenAI API key",
        Provider::Deepgram => "Deepgram API key",
        Provider::Whisper => "API key (not needed \u{2014} Whisper runs offline)",
        Provider::Mock => "API key (not needed for Mock)",
    }
}

/// The tabs of the window.
#[derive(Debug, Clone, Copy, PartialEq, Eq, Structural)]
pub enum Tab {
    Dashboard,
    Settings,
    About,
}

/// The microphone list is read again when the Settings tab is entered, so devices plugged
/// in since show up.
pub fn entering_settings(prev: Tab, now: Tab) -> (r: bool)
    ensures
        r == (prev != Tab::Settings && now == Tab::Settings),
{
    prev != Tab::Settings && now == Tab::Settings
}

/// What the window does on a frame.
#[derive(Debug, Clone, Copy)]
pub struct FrameCommands {
    /// Make the window visible and minimize it at once (the first frame: the window
    /// starts out of sight in the tray).
    pub first_show: bool,
    /// Refuse the close request: the window hides instead of closing.
    pub cancel_close: bool,
    /// Minimize the window (how it hides to the tray), one frame after a refused close.
    pub hide: bool,
}

/// The window's memory between frames.
#[derive(Debug, Clone, Copy)]
pub struct WindowState {
    pub first_frame: bool,
    pub pending_hide: bool,
}

impl WindowState {
    /// A window that has not drawn a frame yet.
    pub fn new() -> (r: WindowState)
        ensures
            r.first_frame && !r.pending_hide,
    {
        WindowState { first_frame: true, pending_hide: false }
    }

    /// Decides a frame's window commands. A close request is refused unless the tray asked
    /// to quit; the window is then hidden on the next frame, apart from the close
    /// sequence, so that it survives to be shown again.
    pub fn on_frame(&mut self, close_requested: bool, quitting: bool) -> (r: FrameCommands)
        ensures
            r.first_show == old(self).first_frame,
            r.cancel_close == (close_requested && !quitting),
            r.hide == old(self).pending_hide,
            !final(self).first_frame,
            final(self).pending_hide == (close_requested && !quitting),
    {
        let first_show = self.first_frame;
        self.first_frame = false;
        let cancel_close = close_requested && !quitting;
        let hide = self.pending_hide;
        self.pending_hide = cancel_close;
        FrameCommands { first_show, cancel_close, hide }
    }
}

/// The colour of the status dot on the dashboard, as red, green and blue.
pub open spec fn status_rgb(s: Status) -> (u8, u8, u8) {
    match s {
        Status::Idle => (0x2f, 0x6f, 0xed),
        Status::Listening => (0xe0, 0x3b, 0x3b),
        Status::Injecting => (0xe0, 0x8b, 0x00),
        Status::Downloading { .. } => (0x00, 0x9a, 0x9a),
        Status::Error(_) => (0xc0, 0x00, 0x00),
    }
}

/// The colour of the status dot on the dashboard.
pub fn status_color(s: &Status) -> (r: (u8, u8, u8))
    ensures
        r == status_rgb(*s),
{
    match s {
        Status::Idle => (0x2f, 0x6f, 0xed),
        Status::Listening => (0xe0, 0x3b, 0x3b),
        Status::Injecting => (0xe0, 0x8b, 0x00),
        Status::Downloading { .. } => (0x00, 0x9a, 0x9a),
        Status::Error(_) => (0xc0, 0x00, 0x00),
    }
}

/// The key stored when "Save key" is clicked: the input trimmed; `None`, and nothing is
/// stored, when the input is blank.
pub fn key_to_save(input: &str) -> (r: Option<String>)
    ensures
        match r {
            Some(k) => k@ == trimmed(input@) && k@.len() > 0,
            None => trimmed(input@).len() == 0,
        },
{
    let k = trim(input);
    if k.as_str().is_empty() {
        None
    } else {
        Some(k)
    }
}

/// The note shown after the API key was stored, or failed to be.
pub fn key_saved_note(outcome: &Result<(), String>) -> (r: String)
    ensures
        match outcome {
            Ok(()) => r@ == "Saved to Windows Credential Manager."@,
            Err(e) => r@ == "Failed: "@ + e@,
        },
{
    match outcome {
        Ok(()) => "Saved to Windows Credential Manager.".to_owned(),
        Err(e) => concat_str("Failed: ", e.as_str()),
    }
}

/// The note shown after the settings were saved, or failed to be.
pub fn settings_saved_note(outcome: &Result<(), String>) -> (r: String)
    ensures
        match outcome {
            Ok(()) => r@ == "Settings saved."@,
            Err(e) => r@ == "Save failed: "@ + e@,
        },
{
    match outcome {
        Ok(()) => "Settings saved.".to_owned(),
        Err(e) => concat_str("Save failed: ", e.as_str()),
    }
}

/// The first held key that has a name, if any.
pub open spec fn first_named(keys: Seq<Option<Seq<char>>>) -> Option<Seq<char>>
    decreases keys.len(),
{
    if keys.len() == 0 {
        None
    } else if keys[0] is Some {
        keys[0]
    } else {
        first_named(keys.drop_first())
    }
}

/// The modifiers held, in the order alt, ctrl, shift.
pub open spec fn held_modifiers(alt: bool, ctrl: bool, shift: bool) -> Seq<Seq<char>> {
    (if alt { seq!["alt"@] } else { seq![] }) + (if ctrl { seq!["ctrl"@] } else { seq![] }) + (
    if shift {
        seq!["shift"@]
    } else {
        seq![]
    })
}

/// The hotkey read while capturing: the held modifiers and the first held key that can
/// be a push-to-talk key (`key_names` holds each held key's name, `None` for keys that
/// cannot be one); `None` until such a key is held.
pub fn captured_hotkey(alt: bool, ctrl: bool, shift: bool, key_names: &Vec<Option<String>>) -> (r: Option<Hotkey>)
    ensures
        match first_named(key_names@.map_values(|k: Option<String>| match k {
            Some(s) => Some(s@),
            None => None,
        })) {
            Some(k) => r matches Some(h) && h@.key == k && h@.modifiers == held_modifiers(alt, ctrl, shift),
            None => r is None,
        },
{
    let ghost names = key_names@.map_values(|k: Option<String>| match k {
        Some(s) => Some(s@),
        None => None,
    });
    let mut i: usize = 0;
    assert(names.skip(0) == names);
    while i < key_names.len()
        invariant
            i <= key_names.len(),
            names == key_names@.map_values(|k: Option<String>| match k {
                Some(s) => Some(s@),
                None => None,
            }),
            first_named(names) == first_named(names.skip(i as int)),
        decreases key_names.len() - i,
    {
        assert(names.skip(i as int).drop_first() == names.skip(i + 1));
        match &key_names[i] {
            Some(name) => {
                let mut modifiers: Vec<String> = Vec::new();
                if alt {
                    modifiers.push("alt".to_owned());
                }
                if ctrl {
                    modifiers.push("ctrl".to_owned());
                }
                if shift {
                    modifiers.push("shift".to_owned());
                }
                assert(string_views(modifiers@) =~= held_modifiers(alt, ctrl, shift));
                return Some(Hotkey { modifiers, key: name.clone() });
            },
            None => {},
        }
        i = i + 1;
    }
    None
}

} // verus!
