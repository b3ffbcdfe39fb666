//! User preferences. The file format (TOML) and the disk access belong to the
//! application; this module holds the values, their defaults, how a stored file is
//! interpreted, and the human-readable hotkey label.

use vstd::prelude::*;
use vstd::string::*;

use crate::text::{push_chars, chars_of, string_views, to_uppercase, uppercase_of};

verus! {

/// Which speech-to-text backend to use.
#[derive(Debug, Clone, Copy, PartialEq, Eq, Structural)]
pub enum Provider {
    /// Local Whisper (whisper.cpp), fully offline after the model is downloaded once.
    Whisper,
    /// OpenAI audio transcription; requires an API key.
    Openai,
    /// Deepgram streaming API; requires an API key.
    Deepgram,
    /// Offline mock provider that emits fixed text.
    Mock,
}

impl Default for Provider {
    fn default() -> (r: Self)
        ensures
            r == Provider::Whisper,
    {
        Provider::Whisper
    }
}

/// A push-to-talk hotkey: modifier names plus a main key name, e.g. `["alt"]` + `"space"`.
#[derive(Debug, Clone)]
pub struct Hotkey {
    /// Modifier names, e.g. `["alt"]` or `["ctrl", "shift"]`.
    pub modifiers: Vec<String>,
    /// Main key name, e.g. `"space"`.
    pub key: String,
}

/// The abstract content of a [`Hotkey`].
pub struct HotkeyView {
    pub modifiers: Seq<Seq<char>>,
    pub key: Seq<char>,
}

impl View for Hotkey {
    type V = HotkeyView;

    open spec fn view(&self) -> HotkeyView {
        HotkeyView { modifiers: string_views(self.modifiers@), key: self.key@ }
    }
}

/// Copies a list of strings, keeping every element.
pub fn copy_strings(v: &Vec<String>) -> (r: Vec<String>)
    ensures
        string_views(r@) == string_views(v@),
{
    let mut r: Vec<String> = Vec::new();
    let mut i: usize = 0;
    while i < v.len()
        invariant
            i <= v.len(),
            r@.len() == i,
            string_views(r@) == string_views(v@.take(i as int)),
        decreases v.len() - i,
    {
        let x = v[i].clone();
        assert(x@ == v@[i as int]@);
        let ghost old_r = r@;
        r.push(x);
        assert(v@.take(i + 1) == v@.take(i as int).push(v@[i as int]));
        assert forall|k: int| 0 <= k < i + 1 implies #[trigger] string_views(r@)[k]
            == string_views(v@.take(i + 1))[k] by {
            if k < i {
                assert(r@[k] == old_r[k]);
                assert(string_views(old_r)[k] == string_views(v@.take(i as int))[k]);
            }
        }
        assert(string_views(r@) =~= string_views(v@.take(i + 1)));
        i = i + 1;
    }
    assert(v@.take(v.len() as int) == v@);
    r
}

impl Hotkey {
    /// A copy with the same modifier and key names.
    pub fn duplicate(&self) -> (r: Hotkey)
        ensures
            r@ == self@,
    {
        Hotkey { modifiers: copy_strings(&self.modifiers), key: self.key.clone() }
    }

    /// The label shown to the user, e.g. `"Alt + Space"`: every modifier title-cased and
    /// followed by `" + "`, then the title-cased key.
    pub fn display(&self) -> (r: String)
        ensures
            r@ == hotkey_label(self@),
    {
        let mut out = String::new();
        let mut i: usize = 0;
        while i < self.modifiers.len()
            invariant
                i <= self.modifiers.len(),
                out@ == modifiers_label(self@.modifiers.take(i as int)),
            decreases self.modifiers.len() - i,
        {
            let t = title_case(self.modifiers[i].as_str());
            out.append(t.as_str());
            out.append(" + ");
            proof {
                let ms = self@.modifiers;
                assert(ms.take(i + 1).drop_last() == ms.take(i as int));
                assert(ms[i as int] == self.modifiers@[i as int]@);
                reveal_strlit(" + ");
            }
            i = i + 1;
        }
        assert(self@.modifiers.take(self.modifiers.len() as int) == self@.modifiers);
        let k = title_case(self.key.as_str());
        out.append(k.as_str());
        out
    }
}

impl Default for Hotkey {
    fn default() -> (r: Self)
        ensures
            r@.modifiers == seq![seq!['a', 'l', 't']],
            r@.key == seq!['s', 'p', 'a', 'c', 'e'],
    {
        let mut modifiers: Vec<String> = Vec::new();
        let alt = String::from_str("alt");
        let key = String::from_str("space");
        proof {
            reveal_strlit("alt");
            reveal_strlit("space");
            assert(alt@ =~= seq!['a', 'l', 't']);
            assert(key@ =~= seq!['s', 'p', 'a', 'c', 'e']);
        }
        modifiers.push(alt);
        assert(string_views(modifiers@) =~= seq![seq!['a', 'l', 't']]);
        Hotkey { modifiers, key }
    }
}

/// `s` with its first character replaced by the characters `char::to_uppercase` yields
/// for it.
pub open spec fn title(s: Seq<char>) -> Seq<char> {
    if s.len() == 0 {
        seq![]
    } else {
        uppercase_of(s[0]) + s.drop_first()
    }
}

/// Each modifier's title followed by `" + "`.
pub open spec fn modifiers_label(ms: Seq<Seq<char>>) -> Seq<char>
    decreases ms.len(),
{
    if ms.len() == 0 {
        seq![]
    } else {
        modifiers_label(ms.drop_last()) + title(ms.last()) + seq![' ', '+', ' ']
    }
}

/// The label of a hotkey, e.g. `"Ctrl + Shift + K"`.
pub open spec fn hotkey_label(h: HotkeyView) -> Seq<char> {
    modifiers_label(h.modifiers) + title(h.key)
}

/// Upper-cases the first character of `s` (Unicode-aware) and keeps the rest.
pub fn title_case(s: &str) -> (r: String)
    ensures
        r@ == title(s@),
{
    let v = chars_of(s);
    if v.len() == 0 {
        return String::new();
    }
    let mut r = to_uppercase(v[0]);
    push_chars(&mut r, &v, 1, v.len());
    assert(v@.subrange(1, v.len() as int) == v@.drop_first());
    r
}

/// Top-level user configuration.
#[derive(Debug, Clone)]
pub struct Config {
    /// Whether dictation is globally enabled (the tray toggle).
    pub enabled: bool,
    /// Selected microphone device name, or `None` for the system default.
    pub microphone: Option<String>,
    /// BCP-47 language code passed to the speech provider, e.g. `"en"`, `"en-US"`.
    pub language: String,
    /// Push-to-talk hotkey.
    pub hotkey: Hotkey,
    /// Launch VoiceForge automatically at sign-in.
    pub autostart: bool,
    /// Active speech provider.
    pub provider: Provider,
    /// Local Whisper model name, e.g. `"base"`, `"base.en"`, `"small"`.
    pub whisper_model: String,
}

/// The abstract content of a [`Config`].
pub struct ConfigView {
    pub enabled: bool,
    pub microphone: Option<Seq<char>>,
    pub language: Seq<char>,
    pub hotkey: HotkeyView,
    pub autostart: bool,
    pub provider: Provider,
    pub whisper_model: Seq<char>,
}

impl View for Config {
    type V = ConfigView;

    open spec fn view(&self) -> ConfigView {
        ConfigView {
            enabled: self.enabled,
            microphone: match self.microphone {
                Some(m) => Some(m@),
                None => None,
            },
            language: self.language@,
            hotkey: self.hotkey@,
            autostart: self.autostart,
            provider: self.provider,
            whisper_model: self.whisper_model@,
        }
    }
}

/// The configuration used when none is stored: enabled, system microphone, English,
/// Alt + Space, no autostart, local Whisper with the `base` model.
pub open spec fn default_config() -> ConfigView {
    ConfigView {
        enabled: true,
        microphone: None,
        language: seq!['e', 'n'],
        hotkey: HotkeyView {
            modifiers: seq![seq!['a', 'l', 't']],
            key: seq!['s', 'p', 'a', 'c', 'e'],
        },
        autostart: false,
        provider: Provider::Whisper,
        whisper_model: seq!['b', 'a', 's', 'e'],
    }
}

impl Default for Config {
    fn default() -> (r: Self)
        ensures
            r@ == default_config(),
    {
        let language = String::from_str("en");
        let whisper_model = String::from_str("base");
        proof {
            reveal_strlit("en");
            reveal_strlit("base");
            assert(language@ =~= seq!['e', 'n']);
            assert(whisper_model@ =~= seq!['b', 'a', 's', 'e']);
        }
        Config {
            enabled: true,
            microphone: None,
            language,
            hotkey: Hotkey::default(),
            autostart: false,
            provider: Provider::default(),
            whisper_model,
        }
    }
}

/// What was found where the configuration file should be.
pub enum StoredConfig {
    /// No file yet.
    Missing,
    /// A file whose text does not parse as a configuration.
    Corrupt,
    /// A file that parsed.
    Parsed(Config),
}

/// The configuration to use after looking at the stored file, and whether that
/// configuration must be written back (it was missing or corrupt).
pub struct Loaded {
    pub config: Config,
    pub write_back: bool,
}

impl Config {
    /// A copy with the same content.
    pub fn duplicate(&self) -> (r: Config)
        ensures
            r@ == self@,
    {
        Config {
            enabled: self.enabled,
            microphone: match &self.microphone {
                Some(m) => Some(m.clone()),
                None => None,
            },
            language: self.language.clone(),
            hotkey: self.hotkey.duplicate(),
            autostart: self.autostart,
            provider: self.provider,
            whisper_model: self.whisper_model.clone(),
        }
    }

    /// Decides what a load yields: a parsed file is used as is; a missing or corrupt
    /// file is replaced by the defaults, which must then be saved.
    pub fn from_stored(stored: StoredConfig) -> (r: Loaded)
        ensures
            match stored {
                StoredConfig::Parsed(c) => r.config@ == c@ && !r.write_back,
                _ => r.config@ == default_config() && r.write_back,
            },
    {
        match stored {
            StoredConfig::Parsed(c) => Loaded { config: c, write_back: false },
            _ => Loaded { config: Config::default(), write_back: true },
        }
    }

    /// Full path of the configuration file inside the data directory `data_dir`.
    pub fn config_path(data_dir: &str) -> (r: String)
        ensures
            r@ == path_joined(data_dir@, "config.toml"@),
    {
        join_path(data_dir, "config.toml")
    }
}

/// The text of `Path::new(dir).join(name)` (as `to_string_lossy` gives it).
pub uninterp spec fn path_joined(dir: Seq<char>, name: Seq<char>) -> Seq<char>;

/// Calls `Path::join` and turns the joined path back into text. Claimed: the result is
/// `path_joined(dir, name)`.
#[verifier::external_body]
pub(crate) fn join_path(dir: &str, name: &str) -> (r: String)
    ensures
        r@ == path_joined(dir@, name@),
{
    std::path::Path::new(dir).join(name).to_string_lossy().into_owned()
}

} // verus!
