//! The tray's decisions: which menu item was clicked, which icon reflects the status,
//! and when the "Enabled" check mark must change. The tray icon, its menu and its thread
//! belong to the application.

use vstd::prelude::*;

use crate::app::{Status, StatusView};
use crate::config::{Config, ConfigView};
use crate::text::same_text;

verus! {

/// The tray's tooltip.
pub const TOOLTIP: &'static str = "VoiceForge \u{2014} hold the hotkey to dictate";

/// Which menu action was clicked.
#[derive(Debug, Clone, Copy, PartialEq, Eq, Structural)]
pub enum TrayAction {
    ToggleEnabled,
    OpenSettings,
    Quit,
}

/// The identifiers of the menu items that trigger actions.
#[derive(Debug, Clone)]
pub struct TrayMenuIds {
    pub enabled: String,
    pub settings: String,
    pub quit: String,
}

impl TrayMenuIds {
    /// The action of the clicked item `id` (checked in the order Enabled, Settings, Quit).
    pub fn match_event(&self, id: &str) -> (r: Option<TrayAction>)
        ensures
            r == if id@ == self.enabled@ {
                Some(TrayAction::ToggleEnabled)
            } else if id@ == self.settings@ {
                Some(TrayAction::OpenSettings)
            } else if id@ == self.quit@ {
                Some(TrayAction::Quit)
            } else {
                None
            },
    {
        if same_text(id, self.enabled.as_str()) {
            Some(TrayAction::ToggleEnabled)
        } else if same_text(id, self.settings.as_str()) {
            Some(TrayAction::OpenSettings)
        } else if same_text(id, self.quit.as_str()) {
            Some(TrayAction::Quit)
        } else {
            None
        }
    }
}

/// Whether a status is shown with the "listening" icon: while listening and while typing.
pub open spec fn listening_icon(s: StatusView) -> bool {
    s is Listening || s is Injecting
}

/// Whether the status is shown with the "listening" icon.
pub fn shows_listening(status: &Status) -> (r: bool)
    ensures
        r == listening_icon(status@),
{
    match status {
        Status::Listening | Status::Injecting => true,
        _ => false,
    }
}

/// Which icon the tray currently shows.
#[derive(Debug, Clone, Copy)]
pub struct TrayIconState {
    pub current_listening: bool,
}

impl TrayIconState {
    /// The tray starts with the idle icon.
    pub fn new() -> (r: TrayIconState)
        ensures
            !r.current_listening,
    {
        TrayIconState { current_listening: false }
    }

    /// Follows the status; returns the icon to switch to (`true`: listening) when it
    /// differs from the one shown, and `None` when the icon stays.
    pub fn set_status(&mut self, status: &Status) -> (r: Option<bool>)
        ensures
            final(self).current_listening == listening_icon(status@),
            r == if listening_icon(status@) != old(self).current_listening {
                Some(listening_icon(status@))
            } else {
                None
            },
    {
        let listening = shows_listening(status);
        if listening != self.current_listening {
            self.current_listening = listening;
            Some(listening)
        } else {
            None
        }
    }
}

/// Whether the "Enabled" check mark must be changed to show `checked`.
pub fn needs_check_update(current: bool, checked: bool) -> (r: bool)
    ensures
        r == (current != checked),
{
    current != checked
}

/// A configuration with `enabled` flipped and everything else kept.
pub open spec fn toggled(c: ConfigView) -> ConfigView {
    ConfigView { enabled: !c.enabled, ..c }
}

/// Toggling Enabled twice gives back the configuration it started from.
pub proof fn lemma_toggle_twice(c: ConfigView)
    ensures
        toggled(toggled(c)) == c,
{
}

/// The configuration after the tray's Enabled toggle: the same, with `enabled` flipped.
pub fn toggle_enabled(cfg: &Config) -> (r: Config)
    ensures
        r@ == toggled(cfg@),
{
    let mut c = cfg.duplicate();
    c.enabled = !cfg.enabled;
    c
}

} // verus!
