//! Disassembler for Nintendo 64 RSP graphics microcode display lists.
//!
//! The input is a stream of fixed-width 64-bit graphics command words
//! ("Gfx packets"); the output is a plain-text sequence of C-style macro
//! invocations (`gsSPVertex(...)`, `gsSPEndDisplayList()`, ...) that, if
//! compiled against the canonical headers, would recreate the original
//! packets.

pub mod arg_type;
pub mod config;
pub mod execute;
pub mod fmt;
pub mod macro_info;
pub mod matcher;
pub mod output;
pub mod packet;
pub mod ptr;
pub mod ucode;
