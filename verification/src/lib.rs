//! Derived assets for uploaded photographs.
//!
//! From one upload the library derives what a page needs to show it
//! responsively: renditions in several sizes and codecs, a tiny preview
//! that travels inside the descriptor, and the dominant colors. It decides
//! everything about those assets: how the pixels are turned upright, which
//! encoders a format gets, which sizes are rendered, at which quality, and
//! under which names. It does not run the codecs. [`prepare_photo`] lays
//! out the encoding tasks, the caller runs them, and [`process_photo`]
//! assembles the descriptor from their answers.

pub mod codecs;
pub mod decode;
pub mod error;
pub mod formats;
pub mod job;
pub mod laws;
pub mod metadata;
pub mod naming;
pub mod orient;
pub mod palette;
pub mod photo;
pub mod prepare;
pub mod preview;
pub mod process;
pub mod quality;
pub mod raster;
pub mod resample;
pub mod webp;

pub use crate::error::Error;
pub use crate::metadata::{GeoLocation, Metadata};
pub use crate::naming::basename;
pub use crate::photo::{OutFile, Photo, Source, SrcSetEntry};
pub use crate::job::Job;
pub use crate::prepare::prepare_photo;
pub use crate::process::process_photo;
pub use crate::preview::make_tiny_preview;
