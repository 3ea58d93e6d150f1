//! A library for sharing a local print device over the IPP network printing
//! protocol.  It covers the two subsystems that carry the interesting logic:
//! capability negotiation (reconciling the protocol's option vocabularies with
//! what a device reports supporting) and the raster transcoding pipeline
//! (decoding URF and CUPS raster documents page by page and re-encoding them
//! as a multi-frame TIFF), together with the format dispatch that selects a
//! pipeline from a document's leading bytes.

pub mod advertise;
pub mod attr;
pub mod capmap;
pub mod captable;
pub mod config;
pub mod print_options;
pub mod raster;
pub mod service;
pub mod sniff;
