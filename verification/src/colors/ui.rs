//! Colours of the parts of a window.

use vstd::prelude::*;

verus! {

/// Window title bar.
pub const TITLEBAR: u32 = 0xFF2D_2D2D;

/// Active window title bar.
pub const TITLEBAR_ACTIVE: u32 = 0xFF00_7ACC;

/// Title bar text.
pub const TITLEBAR_TEXT: u32 = 0xFFE1_E1E1;

/// Menu background.
pub const MENU_BACKGROUND: u32 = 0xFF2D_2D2D;

/// Menu item hover.
pub const MENU_HOVER: u32 = 0xFF48_4848;

/// Menu item selected.
pub const MENU_SELECTED: u32 = 0xFF00_7ACC;

/// Menu text.
pub const MENU_TEXT: u32 = 0xFFE1_E1E1;

/// Scrollbar track.
pub const SCROLLBAR_TRACK: u32 = 0xFF1E_1E1E;

/// Scrollbar thumb.
pub const SCROLLBAR_THUMB: u32 = 0xFF48_4848;

/// Scrollbar thumb hover.
pub const SCROLLBAR_HOVER: u32 = 0xFF6B_6B6B;

/// Input field background.
pub const INPUT_BACKGROUND: u32 = 0xFF1E_1E1E;

/// Input field border.
pub const INPUT_BORDER: u32 = 0xFF48_4848;

/// Input field focus border.
pub const INPUT_FOCUS: u32 = 0xFF00_7ACC;

/// Input field text.
pub const INPUT_TEXT: u32 = 0xFFE1_E1E1;

/// Placeholder text.
pub const INPUT_PLACEHOLDER: u32 = 0xFF88_8888;

/// Progress bar background.
pub const PROGRESS_BACKGROUND: u32 = 0xFF2D_2D2D;

/// Progress bar fill.
pub const PROGRESS_FILL: u32 = 0xFF00_7ACC;

/// Tooltip background.
pub const TOOLTIP_BACKGROUND: u32 = 0xFF38_3838;

/// Tooltip border.
pub const TOOLTIP_BORDER: u32 = 0xFF48_4848;

/// Tooltip text.
pub const TOOLTIP_TEXT: u32 = 0xFFE1_E1E1;

} // verus!
