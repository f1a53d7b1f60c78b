//! Project and window configuration, and the window settings derived from
//! it.
//!
//! The application layer parses the persisted project file and hands the
//! values over; deriving the native window builder's settings from the
//! configured mode is verified here.

use vstd::prelude::*;

use crate::backend::Backend;
use crate::version::Version;

verus! {

/// A window size in physical pixels.
#[derive(Clone, Copy, Debug, PartialEq, Eq, Structural)]
pub struct Resolution {
    pub width: u32,
    pub height: u32,
}

/// How the window is presented: borderless fullscreen on the primary
/// monitor, or windowed at a size with a resizability choice.
#[derive(Clone, Copy, Debug, PartialEq, Eq, Structural)]
pub enum Mode {
    FullScreen,
    Windowed { size: Resolution, resizable: bool },
}

/// The configured window: title, preferred resolution, visibility, mode,
/// and the backend to render with.
#[derive(Clone, Debug)]
pub struct WindowConf {
    pub title: String,
    pub res: Resolution,
    pub visible: bool,
    pub mode: Mode,
    pub render_backend: Backend,
}

/// The project description the application layer reads from the persisted
/// configuration: its identity and its window.  Paths are carried as
/// plain text.
#[derive(Clone, Debug)]
pub struct ProjectInfo {
    pub name: String,
    pub version: Version,
    pub asset_root: String,
    pub main_scene: String,
    pub window: WindowConf,
}

/// Everything the native window builder is configured with.
#[derive(Clone, Debug)]
pub struct WindowSettings {
    pub title: String,
    pub visible: bool,
    pub fullscreen: bool,
    pub width: u32,
    pub height: u32,
    pub resizable: bool,
}

/// Derives the native window settings from a window configuration: the
/// title and visibility always carry over; fullscreen mode sizes the
/// window to the configured resolution and leaves it resizable (the
/// builder's default); windowed mode sizes it to the mode's own size and
/// applies the mode's resizability.
pub fn window_settings(conf: &WindowConf) -> (s: WindowSettings)
    ensures
        s.title@ == conf.title@,
        s.visible == conf.visible,
        conf.mode == Mode::FullScreen ==> s.fullscreen && s.width == conf.res.width && s.height
            == conf.res.height && s.resizable,
        conf.mode matches Mode::Windowed { size, resizable } ==> !s.fullscreen && s.width
            == size.width && s.height == size.height && s.resizable == resizable,
{
    let title = conf.title.clone();
    match conf.mode {
        Mode::FullScreen => WindowSettings {
            title,
            visible: conf.visible,
            fullscreen: true,
            width: conf.res.width,
            height: conf.res.height,
            resizable: true,
        },
        Mode::Windowed { size, resizable } => WindowSettings {
            title,
            visible: conf.visible,
            fullscreen: false,
            width: size.width,
            height: size.height,
            resizable,
        },
    }
}

} // verus!
