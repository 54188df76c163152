//! The dark theme.

use vstd::prelude::*;

verus! {

/// Dark background.
pub const BACKGROUND: u32 = 0xFF1E_1E1E;

/// Card/panel background.
pub const SURFACE: u32 = 0xFF2D_2D2D;

/// Elevated surfaces.
pub const SURFACE_VARIANT: u32 = 0xFF3C_3C3C;

/// Default borders.
pub const BORDER: u32 = 0xFF48_4848;

/// Focused element border.
pub const BORDER_FOCUS: u32 = 0xFF00_7ACC;

/// Divider lines.
pub const DIVIDER: u32 = 0xFF3C_3C3C;

/// Main text.
pub const TEXT_PRIMARY: u32 = 0xFFE1_E1E1;

/// Secondary text.
pub const TEXT_SECONDARY: u32 = 0xFFB3_B3B3;

/// Disabled text.
pub const TEXT_DISABLED: u32 = 0xFF6B_6B6B;

/// Text on light backgrounds.
pub const TEXT_INVERSE: u32 = 0xFF1E_1E1E;

/// Primary brand color.
pub const ACCENT_PRIMARY: u32 = 0xFF00_7ACC;

/// Secondary accent.
pub const ACCENT_SECONDARY: u32 = 0xFF00_A8CC;

/// Tertiary accent.
pub const ACCENT_TERTIARY: u32 = 0xFF9B_59B6;

/// Success/confirmation.
pub const SUCCESS: u32 = 0xFF4C_AF50;

/// Warning/caution.
pub const WARNING: u32 = 0xFFFF_9800;

/// Error/danger.
pub const ERROR: u32 = 0xFFF4_4336;

/// Information.
pub const INFO: u32 = 0xFF21_96F3;

/// Primary button.
pub const BUTTON_PRIMARY: u32 = 0xFF00_7ACC;

/// Secondary button.
pub const BUTTON_SECONDARY: u32 = 0xFF48_4848;

/// Button hover state.
pub const BUTTON_HOVER: u32 = 0xFF00_5A9E;

/// Button pressed state.
pub const BUTTON_PRESSED: u32 = 0xFF00_3D6B;

/// Disabled button.
pub const BUTTON_DISABLED: u32 = 0xFF2D_2D2D;

} // verus!
