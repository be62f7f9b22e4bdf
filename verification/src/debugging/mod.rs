//! Debugging aids: turning instructions back into assembly text, keeping
//! the instruction listing on the program counter, and pictures of the
//! tiles and objects in video RAM.
pub mod disassembling;
pub mod listing;
pub mod previews;
