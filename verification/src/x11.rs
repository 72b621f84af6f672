//! Plain-value forms of the X11 requests and events that the manager
//! decides on, and the call into `x11rb` that computes on them.

use vstd::prelude::*;

verus! {

/// Bit of a configure value mask that says the x coordinate is given.
pub const CONFIG_WINDOW_X: u16 = 0x01;

/// Bit of a configure value mask that says the y coordinate is given.
pub const CONFIG_WINDOW_Y: u16 = 0x02;

/// Bit of a configure value mask that says the width is given.
pub const CONFIG_WINDOW_WIDTH: u16 = 0x04;

/// Bit of a configure value mask that says the height is given.
pub const CONFIG_WINDOW_HEIGHT: u16 = 0x08;

/// Bit of a configure value mask that says the border width is given.
pub const CONFIG_WINDOW_BORDER_WIDTH: u16 = 0x10;

/// Bit of a configure value mask that says the sibling is given.
pub const CONFIG_WINDOW_SIBLING: u16 = 0x20;

/// Bit of a configure value mask that says the stack mode is given.
pub const CONFIG_WINDOW_STACK_MODE: u16 = 0x40;

/// Stack mode that puts a window on top of its siblings.
pub const STACK_MODE_ABOVE: u32 = 0;

/// Stack mode that puts a window below its siblings.
pub const STACK_MODE_BELOW: u32 = 1;

/// Map state of a window that is not mapped.
pub const MAP_STATE_UNMAPPED: u8 = 0;

/// A configure request that a client sent for one of its windows, field
/// for field as the X server delivers it.
#[derive(PartialEq, Eq, Structural, Debug, Copy, Clone)]
pub struct ConfigureRequest {
    pub response_type: u8,
    pub stack_mode: u32,
    pub sequence: u16,
    pub parent: u32,
    pub window: u32,
    pub sibling: u32,
    pub x: i16,
    pub y: i16,
    pub width: u16,
    pub height: u16,
    pub border_width: u16,
    pub value_mask: u16,
}

/// The changes that a configure-window request asks for; `None` leaves the
/// attribute as it is.
#[derive(PartialEq, Eq, Structural, Debug, Copy, Clone)]
pub struct WindowChanges {
    pub x: Option<i32>,
    pub y: Option<i32>,
    pub width: Option<u32>,
    pub height: Option<u32>,
    pub border_width: Option<u32>,
    pub sibling: Option<u32>,
    pub stack_mode: Option<u32>,
}

/// Whether the value mask of `req` has the bit `bit` set.
pub open spec fn mask_has(req: ConfigureRequest, bit: u16) -> bool {
    req.value_mask & bit != 0
}

/// Every change that `req` asks for, and nothing else.
pub open spec fn requested_changes(req: ConfigureRequest) -> WindowChanges {
    WindowChanges {
        x: if mask_has(req, CONFIG_WINDOW_X) { Some(req.x as i32) } else { None },
        y: if mask_has(req, CONFIG_WINDOW_Y) { Some(req.y as i32) } else { None },
        width: if mask_has(req, CONFIG_WINDOW_WIDTH) { Some(req.width as u32) } else { None },
        height: if mask_has(req, CONFIG_WINDOW_HEIGHT) { Some(req.height as u32) } else { None },
        border_width: if mask_has(req, CONFIG_WINDOW_BORDER_WIDTH) {
            Some(req.border_width as u32)
        } else {
            None
        },
        sibling: if mask_has(req, CONFIG_WINDOW_SIBLING) { Some(req.sibling) } else { None },
        stack_mode: if mask_has(req, CONFIG_WINDOW_STACK_MODE) { Some(req.stack_mode) } else { None },
    }
}

/// Calls `x11rb::protocol::xproto::ConfigureWindowAux::from_configure_request`.
/// Its source sets each of the seven attributes exactly when the matching bit
/// of the request's value mask is set, to the request's value widened to the
/// attribute's type; that is what the contract claims.
#[verifier::external_body]
pub(crate) fn configure_request_changes(req: &ConfigureRequest) -> (c: WindowChanges)
    ensures
        c == requested_changes(*req),
{
    let event = x11rb::protocol::xproto::ConfigureRequestEvent {
        response_type: req.response_type, stack_mode: req.stack_mode.into(),
        sequence: req.sequence, parent: req.parent, window: req.window, sibling: req.sibling,
        x: req.x, y: req.y, width: req.width, height: req.height,
        border_width: req.border_width, value_mask: req.value_mask.into(),
    };
    let aux = x11rb::protocol::xproto::ConfigureWindowAux::from_configure_request(&event);
    WindowChanges {
        x: aux.x, y: aux.y, width: aux.width, height: aux.height, border_width: aux.border_width,
        sibling: aux.sibling, stack_mode: aux.stack_mode.map(u32::from),
    }
}

/// The sum of `a` and `b`, clamped to the range of `i16`.
pub open spec fn saturating_add_i16(a: i16, b: i16) -> i16 {
    if a + b > i16::MAX {
        i16::MAX
    } else if a + b < i16::MIN {
        i16::MIN
    } else {
        (a + b) as i16
    }
}

/// The sum of `a` and `b`, saturating at the bounds of `i16` instead of
/// overflowing.
pub fn i16_saturating_add(a: i16, b: i16) -> (r: i16)
    ensures
        r == saturating_add_i16(a, b),
{
    let sum: i32 = a as i32 + b as i32;
    if sum > i16::MAX as i32 {
        i16::MAX
    } else if sum < i16::MIN as i32 {
        i16::MIN
    } else {
        sum as i16
    }
}

} // verus!
