//! Multi-core debug coordinator for a TriCore target driven over the GDB
//! remote serial protocol.
//!
//! The crate owns the pure coordination logic: mapping protocol thread ids to
//! physical core indices, the per-core resume-action table, the software
//! breakpoint bookkeeping with all-or-nothing installation, the poll-loop
//! decision that multiplexes debugger input against hardware core states, and
//! the grouped register window. Hardware access itself (the debug probe, the
//! connection transport) stays outside; the surrounding program performs each
//! hardware request the library asks for and hands the outcome back in.

pub mod breakpoints;
pub mod cpu;
pub mod dispatcher;
pub mod errors;
pub mod memory;
pub mod monitor;
pub mod registers;
pub mod registry;
pub mod resume;
pub mod target;
pub mod tricore;
