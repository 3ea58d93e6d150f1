//! Capability domains: the concrete option vocabularies negotiated per job.

pub mod media;
pub mod orientation;
pub mod print_color_mode;
pub mod printer_resolution;
pub mod sides;
