//! What the metadata provider has read from an upload, as plain values.

use vstd::prelude::*;

verus! {

/// The container format of an upload, as the metadata provider names it.
#[derive(Clone, Copy, Debug, PartialEq, Eq, Structural)]
pub enum MediaType {
    Bmp,
    CanonCr2,
    CanonCrw,
    Eps,
    FujiRaf,
    Gif,
    Jp2,
    Jpeg,
    MinoltaMrw,
    OlympusOrf,
    Png,
    Psd,
    PanasonicRw2,
    Tga,
    Tiff,
    /// Any media type without a name of its own.
    Other,
}

/// How the stored pixels have to be turned to stand upright.
#[derive(Clone, Copy, Debug, PartialEq, Eq, Structural)]
pub enum Orientation {
    Unspecified,
    Normal,
    HorizontalFlip,
    Rotate180,
    VerticalFlip,
    Rotate90HorizontalFlip,
    Rotate90,
    Rotate90VerticalFlip,
    Rotate270,
}

/// An IEEE-754 double, carried as its 64 bits. The library hands such
/// values on untouched and never computes with them.
#[derive(Clone, Copy, Debug, PartialEq, Eq, Structural)]
pub struct Double {
    pub bits: u64,
}

/// A fraction of two machine integers, such as an exposure time of 1/250 s.
#[derive(Clone, Copy, Debug, PartialEq, Eq, Structural)]
pub struct Ratio {
    pub numer: i32,
    pub denom: i32,
}

/// Where a photograph was taken.
#[derive(Clone, Copy, Debug, PartialEq, Eq, Structural)]
pub struct GeoLocation {
    pub longitude: Double,
    pub latitude: Double,
    pub altitude: Double,
}

/// Everything the pipeline takes from the metadata provider.
#[derive(Clone, Copy, Debug, PartialEq, Eq)]
pub struct Metadata {
    pub media_type: MediaType,
    pub orientation: Orientation,
    pub geo: Option<GeoLocation>,
    pub aperture: Option<Double>,
    pub shutter_speed: Option<Ratio>,
    pub focal_length: Option<Double>,
    pub iso: Option<i32>,
}

impl Orientation {
    /// Whether normalizing this orientation exchanges width and height.
    pub open spec fn swaps_axes(self) -> bool {
        self == Orientation::Rotate90HorizontalFlip || self == Orientation::Rotate90 || self
            == Orientation::Rotate90VerticalFlip || self == Orientation::Rotate270
    }
}

} // verus!
