//! What holds of every job and of every descriptor, stated once and proved.

use crate::codecs::{CodecOutput, EncodeRequest};
use crate::error::{Error, PaletteFailure};
use crate::formats::{is_lossless, source_mime_of, Encoder};
use crate::metadata::{MediaType, Metadata};
use crate::naming::{content_prefix, rendition_name_of};
use crate::job::{slot, Job};
use crate::palette::{palette_of, Rgb};
use crate::prepare::{layout_failure, works_for};
use crate::quality::{JPEG_QUALITY, WEBP_QUALITY};
use crate::raster::RasterView;
use crate::resample::{
    lemma_fit_within,
    lemma_working_dimensions,
    needs_downscale,
    rendition_sizes_of,
    resize_dimensions,
    thumbnail_bounds,
    MAX_DIMENSION,
};
use crate::webp;
use vstd::prelude::*;

verus! {

/// How many renditions each encoder makes. For a lossy source it is the
/// main rendition alone up to a width of 1500 pixels, the main rendition
/// and a thumbnail within 1000 pixels up to 2500, and the main rendition
/// with thumbnails within 2000 and within 1000 pixels beyond. A lossless
/// source gets the main rendition alone, whatever its width. Every encoder
/// of the format gets the same number of tasks and of entries.
pub proof fn lemma_rendition_count(
    job: Job,
    upright: RasterView,
    file_name: Seq<char>,
    meta: Metadata,
)
    requires
        upright.wf(),
        job.plans(upright, file_name, meta),
    ensures
        ({
            let lossless = is_lossless(meta.media_type);
            let w = upright.width;
            let n = job.renditions@.len();
            let working = job.renditions@[0]@;
            &&& lossless ==> n == 1
            &&& !lossless && w <= 1500 ==> n == 1
            &&& !lossless && 1500 < w <= 2500 ==> n == 2 && (
            job.renditions@[1].width as int,
            job.renditions@[1].height as int,
            ) == resize_dimensions(working.width, working.height, 1000, 1000)
            &&& !lossless && 2500 < w ==> n == 3 && (
            job.renditions@[1].width as int,
            job.renditions@[1].height as int,
            ) == resize_dimensions(working.width, working.height, 2000, 2000) && (
            job.renditions@[2].width as int,
            job.renditions@[2].height as int,
            ) == resize_dimensions(working.width, working.height, 1000, 1000)
            &&& job.tasks@.len() == job.encoders@.len() * n
            &&& forall|e: int|
                0 <= e < job.encoders@.len() ==> (#[trigger] job.derived_source(e)).srcset.len()
                    == n
        }),
{
}

/// The renditions of a planned job have the sizes that
/// [`rendition_sizes_of`] gives for the upright source.
pub proof fn lemma_rendition_sizes(
    job: Job,
    upright: RasterView,
    file_name: Seq<char>,
    meta: Metadata,
    j: int,
)
    requires
        upright.wf(),
        job.plans(upright, file_name, meta),
        0 <= j < job.renditions@.len(),
    ensures
        job.renditions@.len() == rendition_sizes_of(
            is_lossless(meta.media_type),
            upright.width,
            upright.height,
        ).len(),
        (job.renditions@[j].width as int, job.renditions@[j].height as int) == rendition_sizes_of(
            is_lossless(meta.media_type),
            upright.width,
            upright.height,
        )[j],
{
    if j > 0 {
        assert(job.renditions@[(j - 1) + 1] == job.renditions@[j]);
    }
}

/// The size constraint. The working image of a lossy source is at most
/// 3000 pixels wide and high. Where the upright source was larger, the
/// longer side of the working image is exactly 3000 pixels and the shorter
/// one is scaled in proportion. A lossless source keeps its size. The
/// descriptor reports the dimensions of the working image.
pub proof fn lemma_size_constraint(
    job: Job,
    upright: RasterView,
    file_name: Seq<char>,
    meta: Metadata,
    tiny_preview: Seq<char>,
)
    requires
        upright.wf(),
        job.plans(upright, file_name, meta),
    ensures
        ({
            let lossless = is_lossless(meta.media_type);
            let working = job.renditions@[0];
            let large = upright.width > 3000 || upright.height > 3000;
            &&& !lossless ==> working.width <= 3000 && working.height <= 3000
            &&& !lossless && large && upright.height <= upright.width ==> working.width == 3000
                && working.height == (if upright.height * 3000 / upright.width < 1 {
                1int
            } else {
                upright.height * 3000 / upright.width
            })
            &&& !lossless && large && upright.width < upright.height ==> working.height == 3000
                && working.width == (if upright.width * 3000 / upright.height < 1 {
                1int
            } else {
                upright.width * 3000 / upright.height
            })
            &&& lossless || !large ==> working@ == upright
            &&& job.photo(tiny_preview).width == working.width
            &&& job.photo(tiny_preview).height == working.height
        }),
{
    lemma_working_dimensions(is_lossless(meta.media_type), upright.width, upright.height);
    lemma_fit_within(upright.width, upright.height, MAX_DIMENSION as int);
}

/// Planning a JPEG fails on the palette alone. Its working image is within
/// 3000 pixels, so it fits the integers of both codecs and its preview can
/// be rendered on every machine: no job can be laid out for it only where
/// no palette can be extracted from it.
pub proof fn lemma_lossy_layout_failure(working: RasterView, upright: RasterView, e: Error)
    requires
        upright.wf(),
        works_for(working, upright, false),
        layout_failure(working, MediaType::Jpeg) == Some(e),
    ensures
        e matches Error::PaletteExtract { source } && palette_of(working.data, working.alpha)
            == Err::<Seq<Rgb>, PaletteFailure>(source),
{
    lemma_working_dimensions(false, upright.width, upright.height);
    assert(working.width * working.channels() <= 3000 * 4) by (nonlinear_arith)
        requires
            0 <= working.width <= 3000,
            0 <= working.channels() <= 4,
    ;
}

/// The original entry. The sources of a descriptor are one for each
/// encoder and then the original, which is the only one marked so. Its one
/// entry names the upload as it came, with the width of the upright source
/// before any scaling, and it carries the MIME type of the source's format.
pub proof fn lemma_original_entry(
    job: Job,
    upright: RasterView,
    file_name: Seq<char>,
    meta: Metadata,
)
    requires
        upright.wf(),
        job.plans(upright, file_name, meta),
    ensures
        job.sources().len() == job.encoders@.len() + 1,
        forall|i: int| 0 <= i < job.encoders@.len() ==> !(#[trigger] job.sources()[i]).original,
        job.sources().last().original,
        job.sources().last().srcset.len() == 1,
        job.sources().last().srcset[0].src == file_name,
        job.sources().last().srcset[0].width == upright.width,
        job.sources().last().mimetype == source_mime_of(meta.media_type),
{
}

/// One failure fails the whole: where the codec of any task or of the
/// preview has failed, no descriptor and no file can be the answer.
pub proof fn lemma_fail_fast(job: Job, outputs: Seq<CodecOutput>, preview: CodecOutput, i: int)
    requires
        0 <= i < job.tasks@.len(),
        job.encoded(outputs, i) is Err,
    ensures
        !job.all_succeeded(outputs, preview),
{
}

/// A job fails in one way only: what it fails with is determined by the
/// answers of the codecs.
pub proof fn lemma_failure_unique(
    job: Job,
    outputs: Seq<CodecOutput>,
    preview: CodecOutput,
    a: Error,
    b: Error,
)
    requires
        job.fails_with(outputs, preview, a),
        job.fails_with(outputs, preview, b),
    ensures
        a == b,
        !job.all_succeeded(outputs, preview),
{
    if exists|i: int| #[trigger] job.fails_at(outputs, i, a) {
        let i = choose|i: int| #[trigger] job.fails_at(outputs, i, a);
        if exists|j: int| #[trigger] job.fails_at(outputs, j, b) {
            // the first failed task is the same, whichever failure it is asked for
            let j = choose|j: int| #[trigger] job.fails_at(outputs, j, b);
            assert(i == j);
        } else {
            assert(job.encoded(outputs, i) is Ok);
        }
    } else if exists|j: int| #[trigger] job.fails_at(outputs, j, b) {
        let j = choose|j: int| #[trigger] job.fails_at(outputs, j, b);
        assert(job.encoded(outputs, j) is Ok);
    }
}

/// Every entry of a derived source has its file: rendition `j` of encoder
/// `e` is listed under the name of the file at its slot, the name is made
/// of the job's prefix, the rendition's width and the encoder's extension,
/// and the file has the MIME type of the source.
pub proof fn lemma_entries_have_files(job: Job, e: int, j: int, bytes: Seq<u8>)
    requires
        job.wf(),
        0 <= e < job.encoders@.len(),
        0 <= j < job.renditions@.len(),
    ensures
        ({
            let at = slot(e, job.renditions@.len() as int, j);
            let entry = job.sources()[e].srcset[j];
            &&& 0 <= at < job.tasks@.len()
            &&& !job.sources()[e].original
            &&& entry.src == job.file_of(at, bytes).name
            &&& entry.width == job.renditions@[j].width
            &&& entry.src == rendition_name_of(
                job.prefix@,
                entry.width as nat,
                job.encoders@[e].ext_of(),
            )
            &&& job.file_of(at, bytes).mimetype == job.sources()[e].mimetype
        }),
{
    let r = job.renditions@.len() as int;
    let at = slot(e, r, j);
    assert(0 <= e * r && e * r + r <= job.encoders@.len() * r) by (nonlinear_arith)
        requires
            0 <= e,
            e + 1 <= job.encoders@.len(),
            0 < r,
    ;
    assert(job.task_ok(at));
}

/// In a planned job every lossy picture is narrow enough for the full
/// bonus: the JPEG codec is asked for a quality of 65.1 and the WebP codec
/// for one of 53.1, for the main rendition and for every thumbnail.
pub proof fn lemma_planned_quality(
    job: Job,
    upright: RasterView,
    file_name: Seq<char>,
    meta: Metadata,
    i: int,
)
    requires
        upright.wf(),
        job.plans(upright, file_name, meta),
        0 <= i < job.tasks@.len(),
    ensures
        job.tasks@[i].request matches EncodeRequest::Jpeg(req) ==> req.quality == JPEG_QUALITY
            + 100,
        job.tasks@[i].request matches EncodeRequest::Webp(req) ==> req.quality
            == webp::Quality::Lossy((WEBP_QUALITY + 100) as i64),
{
    let lossless = is_lossless(meta.media_type);
    lemma_working_dimensions(lossless, upright.width, upright.height);
    assert(job.task_ok(i));
    let t = job.tasks@[i];
    let c = t.rendition as int;
    let img = job.renditions@[c];
    if t.encoder != Encoder::Png {
        // only a lossy source has a JPEG or WebP task, and its pictures are within 3000 pixels
        lemma_task_encoder(job, i);
        if c > 0 {
            let bounds = thumbnail_bounds(lossless, upright.width);
            lemma_fit_within(
                job.renditions@[0].width as int,
                job.renditions@[0].height as int,
                bounds[c - 1] as int,
            );
        }
    }
}

/// The encoder of every task is one of the job's encoders.
pub proof fn lemma_task_encoder(job: Job, i: int)
    requires
        job.wf(),
        0 <= i < job.tasks@.len(),
    ensures
        exists|e: int| 0 <= e < job.encoders@.len() && job.encoders@[e] == job.tasks@[i].encoder,
{
    let r = job.renditions@.len() as int;
    let k = job.encoders@.len() as int;
    let e = i / r;
    let j = i % r;
    vstd::arithmetic::div_mod::lemma_fundamental_div_mod(i, r);
    if e >= k {
        assert(e * r >= k * r) by (nonlinear_arith)
            requires
                e >= k,
                0 < r,
        ;
    }
    assert(i == slot(e, r, j));
}

/// The task at slot `(e, j)` encodes rendition `j` for encoder `e`.
pub proof fn lemma_slot_task(job: Job, e: int, j: int)
    requires
        job.wf(),
        0 <= e < job.encoders@.len(),
        0 <= j < job.renditions@.len(),
    ensures
        ({
            let at = slot(e, job.renditions@.len() as int, j);
            &&& 0 <= at < job.tasks@.len()
            &&& job.tasks@[at].encoder == job.encoders@[e]
            &&& job.tasks@[at].rendition == j
            &&& job.tasks@[at].width == job.renditions@[j].width
            &&& job.tasks@[at].name@ == rendition_name_of(
                job.prefix@,
                job.renditions@[j].width as nat,
                job.encoders@[e].ext_of(),
            )
        }),
{
    let r = job.renditions@.len() as int;
    assert(0 <= e * r && e * r + r <= job.encoders@.len() * r) by (nonlinear_arith)
        requires
            0 <= e,
            e + 1 <= job.encoders@.len(),
            0 < r,
    ;
    let at = slot(e, r, j);
    assert(job.task_ok(at));
}

/// Naming is repeatable. Two plans of the same upright picture under the
/// same file name agree on the prefix and, task by task, on encoder, width
/// and file name: processing the same upload again names the same files.
pub proof fn lemma_names_repeatable(
    a: Job,
    b: Job,
    upright: RasterView,
    file_name: Seq<char>,
    meta: Metadata,
)
    requires
        upright.wf(),
        a.plans(upright, file_name, meta),
        b.plans(upright, file_name, meta),
    ensures
        a.prefix@ == b.prefix@,
        a.prefix@ == content_prefix(upright.data, file_name),
        a.tasks@.len() == b.tasks@.len(),
        forall|e: int, j: int|
            0 <= e < a.encoders@.len() && 0 <= j < a.renditions@.len() ==> {
                let at = #[trigger] slot(e, a.renditions@.len() as int, j);
                &&& a.tasks@[at].encoder == b.tasks@[at].encoder
                &&& a.tasks@[at].width == b.tasks@[at].width
                &&& a.tasks@[at].name@ == b.tasks@[at].name@
            },
{
    assert forall|e: int, j: int|
        0 <= e < a.encoders@.len() && 0 <= j < a.renditions@.len() implies {
        let at = #[trigger] slot(e, a.renditions@.len() as int, j);
        &&& a.tasks@[at].encoder == b.tasks@[at].encoder
        &&& a.tasks@[at].width == b.tasks@[at].width
        &&& a.tasks@[at].name@ == b.tasks@[at].name@
    } by {
        lemma_slot_task(a, e, j);
        lemma_slot_task(b, e, j);
    }
}

/// The widths of an encoder's renditions differ. Whenever the working
/// image of a planned job is at least three pixels wide, every thumbnail is
/// narrower than the rendition before it, so that no two entries of a
/// source, and no two files of an encoder, share a width or a name.
pub proof fn lemma_widths_descend(
    job: Job,
    upright: RasterView,
    file_name: Seq<char>,
    meta: Metadata,
    j: int,
)
    requires
        upright.wf(),
        job.plans(upright, file_name, meta),
        job.renditions@[0].width >= 3,
        1 <= j < job.renditions@.len(),
    ensures
        job.renditions@[j].width < job.renditions@[j - 1].width,
{
    let lossless = is_lossless(meta.media_type);
    let bounds = thumbnail_bounds(lossless, upright.width);
    let w = job.renditions@[0].width as int;
    let h = job.renditions@[0].height as int;
    let uw = upright.width;
    let uh = upright.height;
    let first = bounds[0] as int;
    lemma_working_dimensions(lossless, uw, uh);
    lemma_fit_within(uw, uh, MAX_DIMENSION as int);
    assert(job.renditions@[(j - 1) + 1] == job.renditions@[j]);
    lemma_fit_within(w, h, bounds[j - 1] as int);
    if j == 2 {
        assert(job.renditions@[0int + 1] == job.renditions@[1]);
        lemma_fit_within(w, h, first);
    }
    // a thumbnail is made only of a lossy source wider than its threshold
    assert(!lossless && uw > 1500 && (first == 2000 ==> uw > 2500));
    assert(h <= 3000 && w <= 3000);
    if needs_downscale(lossless, uw, uh) && uw < uh {
        assert(uw * 3000 / uh < 3000) by (nonlinear_arith)
            requires
                0 < uw < uh,
        ;
    }
    if h <= w {
        // the thumbnails are as wide as their bounds
        assert(w > first);
    } else {
        // the thumbnails are w * bound / h wide, and h is above every bound
        assert(first < h);
        if j == 1 {
            assert(w * first / h < w) by (nonlinear_arith)
                requires
                    3 <= w,
                    0 < first < h,
            ;
        } else {
            assert(1 <= w * 1000 / h < w * 2000 / h) by (nonlinear_arith)
                requires
                    3 <= w,
                    0 < h <= 3000,
            ;
        }
    }
}

} // verus!
