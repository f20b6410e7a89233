use vstd::prelude::*;

use crate::menu::MenuAction;

verus! {

/// The entries of the settings menu.
#[derive(Clone, Copy, Debug, PartialEq, Eq, Structural, Default)]
pub enum SettingsMenu {
    #[default]
    DebugMode,
    Back,
}

/// The settings and the entry shown in their menu.
pub struct Settings {
    pub menu: SettingsMenu,
    pub debug_mode: bool,
}

/// The other entry of the two-entry settings menu.
pub open spec fn other_entry(m: SettingsMenu) -> SettingsMenu {
    match m {
        SettingsMenu::DebugMode => SettingsMenu::Back,
        SettingsMenu::Back => SettingsMenu::DebugMode,
    }
}

impl Settings {
    /// Settings with debug mode off, showing their first entry.
    pub fn new() -> (s: Settings)
        ensures
            s.menu == SettingsMenu::DebugMode,
            !s.debug_mode,
    {
        Settings { menu: SettingsMenu::DebugMode, debug_mode: false }
    }

    /// Moves to the previous entry.
    pub fn prev(&mut self)
        ensures
            final(self).menu == other_entry(old(self).menu),
            final(self).debug_mode == old(self).debug_mode,
    {
        self.menu = match self.menu {
            SettingsMenu::DebugMode => SettingsMenu::Back,
            SettingsMenu::Back => SettingsMenu::DebugMode,
        };
    }

    /// Moves to the next entry.
    pub fn next(&mut self)
        ensures
            final(self).menu == other_entry(old(self).menu),
            final(self).debug_mode == old(self).debug_mode,
    {
        self.menu = match self.menu {
            SettingsMenu::DebugMode => SettingsMenu::Back,
            SettingsMenu::Back => SettingsMenu::DebugMode,
        };
    }

    /// Confirms the entry shown: toggles debug mode, or leaves the settings
    /// and rewinds their menu.
    pub fn action(&mut self) -> (a: MenuAction)
        ensures
            old(self).menu == SettingsMenu::DebugMode ==> a == MenuAction::Update
                && final(self).debug_mode == !old(self).debug_mode && final(self).menu
                == old(self).menu,
            old(self).menu == SettingsMenu::Back ==> a == MenuAction::Exit && final(self).debug_mode
                == old(self).debug_mode && final(self).menu == SettingsMenu::DebugMode,
    {
        match self.menu {
            SettingsMenu::DebugMode => {
                self.debug_mode = !self.debug_mode;
                MenuAction::Update
            },
            SettingsMenu::Back => {
                self.menu = SettingsMenu::DebugMode;
                MenuAction::Exit
            },
        }
    }
}

impl Default for Settings {
    fn default() -> (s: Settings)
        ensures
            s.menu == SettingsMenu::DebugMode,
            !s.debug_mode,
    {
        Settings::new()
    }
}

} // verus!
