//! The values that the viewer keeps between runs or reads at startup, and
//! what they are when nothing was kept.

use vstd::prelude::*;

verus! {

/// Where the window stands and how large it is.
#[derive(Clone, Copy, Debug)]
pub struct WindowState {
    pub x: i32,
    pub y: i32,
    pub width: u32,
    pub height: u32,
}

impl Default for WindowState {
    /// The window of a first run: 900 by 700, at (100, 100).
    fn default() -> (r: Self)
        ensures
            r.x == 100,
            r.y == 100,
            r.width == 900,
            r.height == 700,
    {
        WindowState { x: 100, y: 100, width: 900, height: 700 }
    }
}

/// The optional features.
#[derive(Clone, Copy, Debug)]
pub struct ExtensionsConfig {
    /// Whether diagrams are rendered.
    pub plantuml: bool,
}

impl Default for ExtensionsConfig {
    /// Every optional feature is off.
    fn default() -> (r: Self)
        ensures
            !r.plantuml,
    {
        ExtensionsConfig { plantuml: false }
    }
}

/// The settings read at startup.
#[derive(Clone, Copy, Debug)]
pub struct AppConfig {
    /// Whether large documents are shown whole.
    pub no_truncate: bool,
    pub extensions: ExtensionsConfig,
}

impl Default for AppConfig {
    /// Large documents are sectioned, and every optional feature is off.
    fn default() -> (r: Self)
        ensures
            !r.no_truncate,
            !r.extensions.plantuml,
    {
        AppConfig { no_truncate: false, extensions: ExtensionsConfig::default() }
    }
}

impl AppConfig {
    /// The settings to run with: those that were read, or the defaults where
    /// there was no settings file or it could not be understood.
    pub fn resolve(parsed: Option<AppConfig>) -> (r: AppConfig)
        ensures
            r == (match parsed {
                Some(config) => config,
                None => (AppConfig {
                    no_truncate: false,
                    extensions: ExtensionsConfig { plantuml: false },
                }),
            }),
    {
        match parsed {
            Some(config) => config,
            None => AppConfig::default(),
        }
    }

    /// Whether large documents are shown whole in this run: the command line
    /// asks for it, or the settings do.
    pub fn shows_whole(&self, flag: bool) -> (r: bool)
        ensures
            r == (flag || self.no_truncate),
    {
        flag || self.no_truncate
    }
}

impl WindowState {
    /// The window to open with: the one that was kept, or the default where
    /// none was kept or it could not be understood.
    pub fn resolve(kept: Option<WindowState>) -> (r: WindowState)
        ensures
            r == (match kept {
                Some(state) => state,
                None => (WindowState { x: 100, y: 100, width: 900, height: 700 }),
            }),
    {
        match kept {
            Some(state) => state,
            None => WindowState::default(),
        }
    }
}

} // verus!
