//! Terminal colours, ANSI control sequences and base16 colour schemes.
pub mod color;
pub mod ansi;
pub mod base16;
pub mod base16_table;
pub mod base16_shell;
