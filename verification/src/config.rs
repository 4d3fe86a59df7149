//! Start-up options for an application window: target frame rate, window
//! geometry, title and vertical synchronisation.

use vstd::prelude::*;
use vstd::string::StringExecFns;

verus! {

pub struct ApplicationGDXConfig {
    pub fps: u8,
    pub resizable: bool,
    pub screen_size: (u32, u32),
    pub title: String,
    pub vsync: bool,
}

impl ApplicationGDXConfig {
    /// The default configuration: 60 frames per second, an 800 by 600
    /// non-resizable window and vertical synchronisation switched on.
    pub fn new() -> (r: Self)
        ensures
            r.fps == 60u8,
            r.resizable == false,
            r.screen_size == (800u32, 600u32),
            r.title@ == "Rust GDX Launcher"@,
            r.vsync == true,
    {
        ApplicationGDXConfig {
            fps: 60,
            screen_size: (800, 600),
            resizable: false,
            title: String::from_str("Rust GDX Launcher"),
            vsync: true,
        }
    }

    pub fn with_fps(self, fps: u8) -> (r: Self)
        ensures
            r == (Self { fps, ..self }),
    {
        Self { fps, ..self }
    }

    pub fn fps(&self) -> (r: u8)
        ensures
            r == self.fps,
    {
        self.fps
    }

    pub fn with_resizable(self, resizable: bool) -> (r: Self)
        ensures
            r == (Self { resizable, ..self }),
    {
        Self { resizable, ..self }
    }

    pub fn resizable(&self) -> (r: bool)
        ensures
            r == self.resizable,
    {
        self.resizable
    }

    pub fn with_screen_size(self, screen_size: (u32, u32)) -> (r: Self)
        ensures
            r == (Self { screen_size, ..self }),
    {
        Self { screen_size, ..self }
    }

    pub fn screen_size(&self) -> (r: (u32, u32))
        ensures
            r == self.screen_size,
    {
        self.screen_size
    }

    pub fn with_title(self, title: &str) -> (r: Self)
        ensures
            r.title@ == title@,
            r.fps == self.fps,
            r.resizable == self.resizable,
            r.screen_size == self.screen_size,
            r.vsync == self.vsync,
    {
        Self { title: String::from_str(title), ..self }
    }

    pub fn title(&self) -> (r: &str)
        ensures
            r@ == self.title@,
    {
        self.title.as_str()
    }

    pub fn with_vsync(self, vsync: bool) -> (r: Self)
        ensures
            r == (Self { vsync, ..self }),
    {
        Self { vsync, ..self }
    }

    pub fn vsync(&self) -> (r: bool)
        ensures
            r == self.vsync,
    {
        self.vsync
    }
}

} // verus!
