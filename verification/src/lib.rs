//! Generator for the crash-threshold lookup tables that the firmware build
//! embeds: it turns rows of comma-separated text fields into a C source file
//! holding three static arrays of (min, max) G-force pairs.

pub mod csv_input;
pub mod error;
pub mod tables;
