//! The decision core of a small tiling window manager for X11.
//!
//! Everything that talks to the X server lives outside this crate; here
//! live the layouts, the client list, the handling of each event and the
//! requests that answer it, all with their contracts.

use vstd::prelude::*;

pub mod geometry;
pub mod x11;
pub mod wm;
pub mod laws;

verus! {

/// Keycode that launches the browser.
pub const KEY_ENTER: u8 = 36;

/// Keycode that toggles between the split and master-stack layouts.
pub const KEY_E: u8 = 26;

/// Keycode that toggles the monocle (full-screen) layout.
pub const KEY_F: u8 = 41;

/// Most clients the manager frames at once; further map requests are refused.
pub const MAX_CLIENTS: usize = 256;

/// Height of the titlebar drawn on top of every framed window.
pub const TITLEBAR_HEIGHT: u16 = 28;

/// Colour of the titlebar and of the frame border.
pub const BG_COLOR: u32 = 0x2B3E75F;

/// Width of the frame border.
pub const BORDER_WIDTH: u16 = 2;

} // verus!
