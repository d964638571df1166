//! The encoding job: what has to be encoded for one photograph, and what
//! the codecs' answers add up to.

use crate::codecs::{encoded_of, request_matches, CodecOutput, EncodeRequest};
use crate::error::{Error, PaletteFailure};
use crate::formats::{encoders_of, is_lossless, source_mime_of, Encoder};
use crate::metadata::Metadata;
use crate::naming::{content_prefix, rendition_name_of};
use crate::palette::{palette_of, Rgb};
use crate::photo::{OutFileView, PhotoView, SourceView, SrcSetEntryView};
use crate::preview::{preview_request_of, tiny_preview_of, PREVIEW_SIZE};
use crate::raster::{Raster, RasterView};
use crate::resample::{needs_downscale, resize_dimensions, thumbnail_bounds, working_dimensions};
use crate::webp;
use vstd::prelude::*;

verus! {

/// One file to be encoded: a rendition of the working image, by one
/// encoder, under the name the file will have.
#[derive(Clone, Debug, PartialEq, Eq)]
pub struct Task {
    pub encoder: Encoder,
    /// Which of the job's renditions is to be encoded.
    pub rendition: usize,
    pub request: EncodeRequest,
    pub name: String,
    /// The width of the rendition.
    pub width: u32,
}

/// A photograph prepared for encoding.
#[derive(Clone, Debug)]
pub struct Job {
    /// The working image, followed by its thumbnails, largest first.
    pub renditions: Vec<Raster>,
    /// The encoders of the source's format, in registry order.
    pub encoders: Vec<Encoder>,
    /// One task for each rendition of each encoder: those of the first
    /// encoder, then those of the second; within an encoder in the order of
    /// `renditions`.
    pub tasks: Vec<Task>,
    /// The picture of the tiny preview, and what the WebP codec is asked
    /// for it.
    pub preview: Raster,
    pub preview_request: webp::Request,
    /// The prefix of all file names.
    pub prefix: String,
    pub palette: Vec<Rgb>,
    /// The name the upload came under.
    pub file_name: String,
    /// The width of the upright source, before any scaling.
    pub source_width: u32,
    pub source_mime: String,
    pub meta: Metadata,
}

/// The position of rendition `j` of encoder `e` among the tasks of a job
/// with `r` renditions.
pub open spec fn slot(e: int, r: int, j: int) -> int {
    e * r + j
}

impl Job {
    /// Task `i` names a rendition of this job, carries its width, is named
    /// after it, and asks its encoder for it.
    pub open spec fn task_ok(&self, i: int) -> bool {
        let t = self.tasks@[i];
        &&& t.rendition < self.renditions@.len()
        &&& t.width == self.renditions@[t.rendition as int].width
        &&& t.name@ == rendition_name_of(self.prefix@, t.width as nat, t.encoder.ext_of())
        &&& request_matches(t.encoder, self.renditions@[t.rendition as int]@, t.request)
    }

    /// The invariant of a job: every picture is well formed, and there is
    /// exactly one sound task for each rendition of each encoder, in order.
    pub open spec fn wf(&self) -> bool {
        &&& self.renditions@.len() >= 1
        &&& forall|j: int|
            0 <= j < self.renditions@.len() ==> (#[trigger] self.renditions@[j]).wf()
        &&& self.tasks@.len() == self.encoders@.len() * self.renditions@.len()
        &&& forall|i: int| 0 <= i < self.tasks@.len() ==> #[trigger] self.task_ok(i)
        &&& forall|e: int, j: int|
            0 <= e < self.encoders@.len() && 0 <= j < self.renditions@.len() ==> {
                let t = self.tasks@[#[trigger] slot(e, self.renditions@.len() as int, j)];
                t.encoder == self.encoders@[e] && t.rendition == j
            }
        &&& self.preview.wf()
        &&& preview_request_of(self.preview@) == Ok::<webp::Request, Error>(self.preview_request)
    }

    /// The file that task `i` gives with the encoded `bytes`.
    pub open spec fn file_of(&self, i: int, bytes: Seq<u8>) -> OutFileView {
        OutFileView {
            name: self.tasks@[i].name@,
            bytes,
            mimetype: self.tasks@[i].encoder.mime_of(),
        }
    }

    /// The entry that task `i` gives in its encoder's list of renditions.
    pub open spec fn entry_of(&self, i: int) -> SrcSetEntryView {
        SrcSetEntryView { src: self.tasks@[i].name@, width: self.tasks@[i].width }
    }

    /// The renditions of encoder `e`.
    pub open spec fn derived_source(&self, e: int) -> SourceView {
        let r = self.renditions@.len() as int;
        SourceView {
            original: false,
            srcset: Seq::new(r as nat, |j: int| self.entry_of(slot(e, r, j))),
            mimetype: self.encoders@[e].mime_of(),
        }
    }

    /// The upload itself: its name as it came, the width of the upright
    /// source, and the MIME type of its format.
    pub open spec fn original_source(&self) -> SourceView {
        SourceView {
            original: true,
            srcset: seq![SrcSetEntryView { src: self.file_name@, width: self.source_width }],
            mimetype: self.source_mime@,
        }
    }

    /// One source for each encoder, in order, and last the original.
    pub open spec fn sources(&self) -> Seq<SourceView> {
        Seq::new(self.encoders@.len(), |e: int| self.derived_source(e)).push(
            self.original_source(),
        )
    }

    /// The descriptor of this job with the given preview.
    pub open spec fn photo(&self, tiny_preview: Seq<char>) -> PhotoView {
        PhotoView {
            tiny_preview,
            source: self.sources(),
            height: self.renditions@[0].height,
            width: self.renditions@[0].width,
            palette: self.palette@,
            geo: self.meta.geo,
            aperture: self.meta.aperture,
            shutter_speed: self.meta.shutter_speed,
            focal_length: self.meta.focal_length,
            iso: self.meta.iso,
        }
    }

    /// What the codec's answer to task `i` amounts to.
    pub open spec fn encoded(&self, outputs: Seq<CodecOutput>, i: int) -> Result<
        Seq<u8>,
        Error,
    > {
        encoded_of(self.tasks@[i].encoder, outputs[i])
    }

    /// Whether every codec succeeded: that of each task and that of the
    /// preview.
    pub open spec fn all_succeeded(&self, outputs: Seq<CodecOutput>, preview: CodecOutput) -> bool {
        &&& forall|i: int|
            0 <= i < self.tasks@.len() ==> (#[trigger] self.encoded(outputs, i)) is Ok
        &&& tiny_preview_of(preview) is Ok
    }

    /// Whether task `i` is the first whose codec failed, and failed with
    /// `e`.
    pub open spec fn fails_at(&self, outputs: Seq<CodecOutput>, i: int, e: Error) -> bool {
        &&& 0 <= i < self.tasks@.len()
        &&& self.encoded(outputs, i) == Err::<Seq<u8>, Error>(e)
        &&& forall|k: int| 0 <= k < i ==> (#[trigger] self.encoded(outputs, k)) is Ok
    }

    /// Whether `e` is the failure of the whole: that of the first task
    /// whose codec failed or, where none did, that of the preview.
    pub open spec fn fails_with(
        &self,
        outputs: Seq<CodecOutput>,
        preview: CodecOutput,
        e: Error,
    ) -> bool {
        ||| exists|i: int| #[trigger] self.fails_at(outputs, i, e)
        ||| {
            &&& forall|k: int|
                0 <= k < self.tasks@.len() ==> (#[trigger] self.encoded(outputs, k)) is Ok
            &&& e matches Error::WebpEncode { source }
            &&& tiny_preview_of(preview) == Err::<Seq<char>, webp::Error>(source)
        }
    }
}

impl Job {
    /// Whether this job is the layout for the working image `working` of a
    /// source `source_width` pixels wide: the working image and one
    /// thumbnail for each bound that the source's width and format call
    /// for, the encoders of the format, the palette of the working image,
    /// and the preview picture of 48 by 48 pixels.
    pub open spec fn lays_out(
        &self,
        working: RasterView,
        source_width: u32,
        prefix: Seq<char>,
        file_name: Seq<char>,
        meta: Metadata,
    ) -> bool {
        let bounds = thumbnail_bounds(is_lossless(meta.media_type), source_width as int);
        &&& self.wf()
        &&& self.encoders@ == encoders_of(meta.media_type)
        &&& self.renditions@.len() == 1 + bounds.len()
        &&& self.renditions@[0]@ == working
        &&& forall|b: int|
            0 <= b < bounds.len() ==> {
                let thumb = #[trigger] self.renditions@[b + 1];
                thumb.alpha == working.alpha && (thumb.width as int, thumb.height as int)
                    == resize_dimensions(
                    working.width,
                    working.height,
                    bounds[b] as int,
                    bounds[b] as int,
                )
            }
        &&& self.prefix@ == prefix
        &&& palette_of(working.data, working.alpha) == Ok::<Seq<Rgb>, PaletteFailure>(
            self.palette@,
        )
        &&& self.preview.alpha == working.alpha
        &&& self.preview.width == PREVIEW_SIZE
        &&& self.preview.height == PREVIEW_SIZE
        &&& self.file_name@ == file_name
        &&& self.source_width == source_width
        &&& self.source_mime@ == source_mime_of(meta.media_type)
        &&& self.meta == meta
    }
}

impl Job {
    /// Whether this job is the plan for the upright picture `upright`,
    /// uploaded as `file_name` with metadata `meta`: the layout for its
    /// working image, which is the picture itself or, where the size
    /// constraint demands it, a smaller picture of the constrained
    /// dimensions; with files named after the upright samples.
    pub open spec fn plans(&self, upright: RasterView, file_name: Seq<char>, meta: Metadata) -> bool {
        let lossless = is_lossless(meta.media_type);
        let working = self.renditions@[0]@;
        &&& self.lays_out(
            working,
            upright.width as u32,
            content_prefix(upright.data, file_name),
            file_name,
            meta,
        )
        &&& working.alpha == upright.alpha
        &&& (working.width, working.height) == working_dimensions(
            lossless,
            upright.width,
            upright.height,
        )
        &&& !needs_downscale(lossless, upright.width, upright.height) ==> working == upright
    }
}

} // verus!
