//! The photo descriptor and the files that go with it.

use crate::metadata::{Double, GeoLocation, Ratio};
use crate::palette::Rgb;
use vstd::prelude::*;

verus! {

/// One derived file, by name, and the width it was rendered at.
#[derive(Clone, Debug, PartialEq, Eq)]
pub struct SrcSetEntry {
    pub src: String,
    pub width: u32,
}

/// The renditions of one MIME type: either the untouched upload or what
/// one encoder derived from it.
#[derive(Clone, Debug, PartialEq, Eq)]
pub struct Source {
    pub original: bool,
    pub srcset: Vec<SrcSetEntry>,
    pub mimetype: String,
}

/// Everything a page needs to show a photograph.
#[derive(Clone, Debug, PartialEq, Eq)]
pub struct Photo {
    /// A data URI with a tiny WebP rendition.
    pub tiny_preview: String,
    pub source: Vec<Source>,
    /// The height of the working image.
    pub height: u32,
    /// The width of the working image.
    pub width: u32,
    /// The dominant colors, most dominant first.
    pub palette: Vec<Rgb>,
    pub geo: Option<GeoLocation>,
    pub aperture: Option<Double>,
    pub shutter_speed: Option<Ratio>,
    pub focal_length: Option<Double>,
    pub iso: Option<i32>,
}

/// The payload of one derived file. It is handed out beside the descriptor
/// and never embedded in it.
#[derive(Clone, Debug, PartialEq, Eq)]
pub struct OutFile {
    pub name: String,
    pub bytes: Vec<u8>,
    pub mimetype: String,
}

pub ghost struct SrcSetEntryView {
    pub src: Seq<char>,
    pub width: u32,
}

pub ghost struct SourceView {
    pub original: bool,
    pub srcset: Seq<SrcSetEntryView>,
    pub mimetype: Seq<char>,
}

pub ghost struct PhotoView {
    pub tiny_preview: Seq<char>,
    pub source: Seq<SourceView>,
    pub height: u32,
    pub width: u32,
    pub palette: Seq<Rgb>,
    pub geo: Option<GeoLocation>,
    pub aperture: Option<Double>,
    pub shutter_speed: Option<Ratio>,
    pub focal_length: Option<Double>,
    pub iso: Option<i32>,
}

pub ghost struct OutFileView {
    pub name: Seq<char>,
    pub bytes: Seq<u8>,
    pub mimetype: Seq<char>,
}

impl View for SrcSetEntry {
    type V = SrcSetEntryView;

    open spec fn view(&self) -> SrcSetEntryView {
        SrcSetEntryView { src: self.src@, width: self.width }
    }
}

impl View for Source {
    type V = SourceView;

    open spec fn view(&self) -> SourceView {
        SourceView {
            original: self.original,
            srcset: self.srcset@.map_values(|e: SrcSetEntry| e@),
            mimetype: self.mimetype@,
        }
    }
}

impl View for Photo {
    type V = PhotoView;

    open spec fn view(&self) -> PhotoView {
        PhotoView {
            tiny_preview: self.tiny_preview@,
            source: self.source@.map_values(|s: Source| s@),
            height: self.height,
            width: self.width,
            palette: self.palette@,
            geo: self.geo,
            aperture: self.aperture,
            shutter_speed: self.shutter_speed,
            focal_length: self.focal_length,
            iso: self.iso,
        }
    }
}

impl View for OutFile {
    type V = OutFileView;

    open spec fn view(&self) -> OutFileView {
        OutFileView { name: self.name@, bytes: self.bytes@, mimetype: self.mimetype@ }
    }
}

} // verus!
