//! A text-mode console model and the two bare-metal entry programs that
//! drive it: one that halts right after the boot hand-off, and one that
//! writes a fixed greeting into the console's cells before halting.

pub mod console;
pub mod machine;
pub mod programs;
pub mod vga_text;
