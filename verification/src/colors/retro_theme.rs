//! Terminal colours of old.

use vstd::prelude::*;

verus! {

/// Black background.
pub const BACKGROUND: u32 = 0xFF00_0000;

/// Green text.
pub const TEXT: u32 = 0xFF00_FF00;

/// Green cursor.
pub const CURSOR: u32 = 0xFF00_FF00;

/// Dark green selection.
pub const SELECTION: u32 = 0xFF00_4000;

/// Amber terminal.
pub const AMBER_TEXT: u32 = 0xFFFF_B000;

/// Black background.
pub const AMBER_BACKGROUND: u32 = 0xFF00_0000;

/// Blue terminal.
pub const BLUE_TEXT: u32 = 0xFF00_AAFF;

/// Dark blue background.
pub const BLUE_BACKGROUND: u32 = 0xFF00_0022;

} // verus!
