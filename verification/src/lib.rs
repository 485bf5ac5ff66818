//! A retargetable generator of textual assembly.
//!
//! A caller builds a small program model — typed variables, print statements
//! made of tokens, and an exit flag — picks a target triple (pointer width,
//! instruction set, operating system), resolves it to a table of concrete
//! register names and syscall numbers, and emits the final assembly text in
//! one pure pass.

pub mod arch;
pub mod coreasm;
pub mod maker;
pub mod numtext;
