//! Text console of a small teaching kernel: a scancode decoder with a
//! keyboard layout on the input side, a multi-terminal text writer on the
//! output side, and the lock that guards both.

use vstd::prelude::*;

pub mod keyboard;
pub mod kshell;
pub mod port;
pub mod serial;
pub mod spinlock;
pub mod vga_buffer;

verus! {

/// The kernel's version.
pub const VERSION: &'static str = "1.0.0";

} // verus!
