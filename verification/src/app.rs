//! Central application state: the configuration, the runtime status shown in the tray
//! and dashboard, whether an API key is stored, and the last transcript. The application
//! shares one value of [`SharedState`] between its threads behind a lock.

use vstd::prelude::*;
use vstd::string::*;

use crate::config::{Config, ConfigView};

verus! {

/// High-level runtime status, surfaced in the tray glyph and dashboard.
#[derive(Debug, Clone)]
pub enum Status {
    /// Idle in the background, waiting for the hotkey.
    Idle,
    /// Hotkey held: capturing audio and streaming to the provider.
    Listening,
    /// Injecting the recognized text into the focused application.
    Injecting,
    /// Fetching a local model. `percent` (0 to 100) is `None` while the size is unknown or
    /// the step has no numeric progress.
    Downloading { message: String, percent: Option<u8> },
    /// A recoverable error occurred; the message is shown to the user.
    Error(String),
}

/// The abstract content of a [`Status`].
pub enum StatusView {
    Idle,
    Listening,
    Injecting,
    Downloading { message: Seq<char>, percent: Option<u8> },
    Error(Seq<char>),
}

impl View for Status {
    type V = StatusView;

    open spec fn view(&self) -> StatusView {
        match self {
            Status::Idle => StatusView::Idle,
            Status::Listening => StatusView::Listening,
            Status::Injecting => StatusView::Injecting,
            Status::Downloading { message, percent } => StatusView::Downloading {
                message: message@,
                percent: *percent,
            },
            Status::Error(m) => StatusView::Error(m@),
        }
    }
}

/// `"Listening"` followed by an ellipsis.
pub open spec fn listening_label() -> Seq<char> {
    seq!['L', 'i', 's', 't', 'e', 'n', 'i', 'n', 'g', '\u{2026}']
}

/// `"Typing"` followed by an ellipsis.
pub open spec fn typing_label() -> Seq<char> {
    seq!['T', 'y', 'p', 'i', 'n', 'g', '\u{2026}']
}

/// The short label displayed for a status.
pub open spec fn status_label(s: StatusView) -> Seq<char> {
    match s {
        StatusView::Idle => seq!['I', 'd', 'l', 'e'],
        StatusView::Listening => listening_label(),
        StatusView::Injecting => typing_label(),
        StatusView::Downloading { message, .. } => message,
        StatusView::Error(m) => seq!['E', 'r', 'r', 'o', 'r', ':', ' '] + m,
    }
}

impl Status {
    /// Short label for display: `"Idle"`, `"Listening…"`, `"Typing…"`, the download
    /// message, or `"Error: "` followed by the error message.
    pub fn label(&self) -> (r: String)
        ensures
            r@ == status_label(self@),
    {
        match self {
            Status::Idle => {
                let s = String::from_str("Idle");
                proof {
                    reveal_strlit("Idle");
                    assert(s@ =~= seq!['I', 'd', 'l', 'e']);
                }
                s
            },
            Status::Listening => {
                let s = String::from_str("Listening\u{2026}");
                proof {
                    reveal_strlit("Listening\u{2026}");
                    assert(s@ =~= listening_label());
                }
                s
            },
            Status::Injecting => {
                let s = String::from_str("Typing\u{2026}");
                proof {
                    reveal_strlit("Typing\u{2026}");
                    assert(s@ =~= typing_label());
                }
                s
            },
            Status::Downloading { message, .. } => message.clone(),
            Status::Error(m) => {
                let s = String::from_str("Error: ");
                proof {
                    reveal_strlit("Error: ");
                    assert(s@ =~= seq!['E', 'r', 'r', 'o', 'r', ':', ' ']);
                }
                s.concat(m.as_str())
            },
        }
    }

    /// A copy with the same content.
    pub fn duplicate(&self) -> (r: Status)
        ensures
            r@ == self@,
    {
        match self {
            Status::Idle => Status::Idle,
            Status::Listening => Status::Listening,
            Status::Injecting => Status::Injecting,
            Status::Downloading { message, percent } => Status::Downloading {
                message: message.clone(),
                percent: *percent,
            },
            Status::Error(m) => Status::Error(m.clone()),
        }
    }
}

/// The application state that every component reads and updates.
pub struct SharedState {
    config: Config,
    status: Status,
    /// Whether an API key is present in the credential vault (cached so the vault is not
    /// queried on every UI frame).
    api_key_present: bool,
    /// Last transcript produced, for display on the dashboard.
    last_transcript: String,
}

/// The abstract content of a [`SharedState`].
pub struct SharedStateView {
    pub config: ConfigView,
    pub status: StatusView,
    pub api_key_present: bool,
    pub last_transcript: Seq<char>,
}

impl View for SharedState {
    type V = SharedStateView;

    closed spec fn view(&self) -> SharedStateView {
        SharedStateView {
            config: self.config@,
            status: self.status@,
            api_key_present: self.api_key_present,
            last_transcript: self.last_transcript@,
        }
    }
}

impl SharedState {
    /// Fresh state: the given configuration, idle, no transcript yet.
    pub fn new(config: Config, api_key_present: bool) -> (r: SharedState)
        ensures
            r@ == (SharedStateView {
                config: config@,
                status: StatusView::Idle,
                api_key_present,
                last_transcript: Seq::empty(),
            }),
    {
        SharedState { config, status: Status::Idle, api_key_present, last_transcript: String::new() }
    }

    /// A copy of the current configuration.
    pub fn config(&self) -> (r: Config)
        ensures
            r@ == self@.config,
    {
        self.config.duplicate()
    }

    /// Replaces the configuration (the application persists it first).
    pub fn update_config(&mut self, cfg: Config)
        ensures
            final(self)@ == (SharedStateView { config: cfg@, ..old(self)@ }),
    {
        self.config = cfg;
    }

    /// The current status.
    pub fn status(&self) -> (r: Status)
        ensures
            r@ == self@.status,
    {
        self.status.duplicate()
    }

    /// Replaces the status.
    pub fn set_status(&mut self, status: Status)
        ensures
            final(self)@ == (SharedStateView { status: status@, ..old(self)@ }),
    {
        self.status = status;
    }

    /// Whether an API key is stored.
    pub fn api_key_present(&self) -> (r: bool)
        ensures
            r == self@.api_key_present,
    {
        self.api_key_present
    }

    /// Records whether an API key is stored.
    pub fn set_api_key_present(&mut self, present: bool)
        ensures
            final(self)@ == (SharedStateView { api_key_present: present, ..old(self)@ }),
    {
        self.api_key_present = present;
    }

    /// The last transcript produced.
    pub fn last_transcript(&self) -> (r: String)
        ensures
            r@ == self@.last_transcript,
    {
        self.last_transcript.clone()
    }

    /// Replaces the last transcript.
    pub fn set_last_transcript(&mut self, text: String)
        ensures
            final(self)@ == (SharedStateView { last_transcript: text@, ..old(self)@ }),
    {
        self.last_transcript = text;
    }
}

} // verus!
