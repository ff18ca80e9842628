//! Audio playback engine: decoded sources, a block resampling pipeline,
//! real-time-safe playback state with transport controls, and output device
//! configuration ranking.

use vstd::prelude::*;

pub mod buffer;
pub mod clock;
pub mod device;
pub mod error;
pub mod resample;
pub mod source;
pub mod state;

verus! {

/// Window configuration handed to the application shell.
pub struct AppConfig {
    pub width: u32,
    pub height: u32,
    pub title: String,
}

impl Default for AppConfig {
    fn default() -> (r: Self)
        ensures
            r.width == 1200,
            r.height == 800,
            r.title@ == "App"@,
    {
        Self { width: 1200, height: 800, title: "App".to_owned() }
    }
}

} // verus!
