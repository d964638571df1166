//! The first half of the pipeline: from the bytes of an upload to the
//! encoding job. It decodes, turns upright, names, constrains the size,
//! extracts the palette, renders the thumbnails and lays out one task for
//! each rendition of each encoder.

use crate::codecs::{can_request, request_for, request_matches};
use crate::decode::{decode, decoded_pixels};
use crate::error::{DecodeError, Error};
use crate::formats::{
    encoders_for_format,
    encoders_of,
    format_exiv2image,
    format_exiv2mime,
    format_is_lossless,
    is_lossless,
    is_refusal,
    is_supported,
    Encoder,
    ImageFormat,
};
use crate::job::{slot, Job, Task};
use crate::metadata::{MediaType, Metadata};
use crate::naming::{file_prefix, rendition_name, rendition_name_of};
use crate::orient::orient_image;
use crate::palette::{extract_palette, palette_of};
use crate::preview::{can_preview, preview_fits, preview_image, preview_request};
use crate::raster::{Raster, RasterView};
use crate::resample::{
    constrain_size,
    fit_within,
    lemma_fit_within,
    lemma_working_dimensions,
    needs_downscale,
    resize_dimensions,
    thumbnail_bounds,
    thumbnails_for,
    working_dimensions,
    FilterType,
    LARGE_THUMBNAIL,
};
use crate::webp;
use vstd::prelude::*;
use vstd::string::StringExecFns;

verus! {

/// Why no job can be laid out for a working image, if so: the format has
/// no encoders, no palette can be extracted, the preview cannot be rendered
/// in memory, or the picture does not fit the integers of a codec it is
/// meant for.
pub open spec fn layout_failure(working: RasterView, mt: MediaType) -> Option<Error> {
    if !is_supported(mt) {
        Some(Error::UnsupportedFormat { format: mt })
    } else if palette_of(working.data, working.alpha) is Err {
        Some(Error::PaletteExtract { source: palette_of(working.data, working.alpha)->Err_0 })
    } else if !preview_fits(working) {
        Some(Error::ConvertInt)
    } else if mt == MediaType::Jpeg && !can_request(Encoder::Webp, working) {
        Some(Error::WebpEncode { source: webp::Error::ConvertSigned })
    } else if mt == MediaType::Png && !can_request(Encoder::Png, working) {
        Some(Error::ConvertInt)
    } else {
        None
    }
}

/// Whether the task for rendition `c` of encoder `d` is in its slot and
/// sound: made for that encoder and that rendition, carrying the
/// rendition's width, named after it, and asking the encoder for it.
spec fn laid_out(
    tasks: Seq<Task>,
    encoders: Seq<Encoder>,
    renditions: Seq<Raster>,
    prefix: Seq<char>,
    d: int,
    c: int,
) -> bool {
    let t = tasks[slot(d, renditions.len() as int, c)];
    &&& t.encoder == encoders[d]
    &&& t.rendition == c
    &&& t.width == renditions[c].width
    &&& t.name@ == rendition_name_of(prefix, t.width as nat, t.encoder.ext_of())
    &&& request_matches(t.encoder, renditions[c]@, t.request)
}

/// The order of the slots: a rendition of an earlier encoder comes before
/// every rendition of a later one.
proof fn lemma_slot_order(d: int, c: int, e: int, j: int, r: int)
    requires
        0 <= d,
        0 <= c < r,
        0 <= j,
        d < e || (d == e && c < j),
    ensures
        0 <= slot(d, r, c) < slot(e, r, j),
{
    if d < e {
        assert(d * r + r <= e * r) by (nonlinear_arith)
            requires
                d + 1 <= e,
                0 < r,
        ;
    }
}

/// A position among the tasks belongs to exactly one encoder and one
/// rendition.
proof fn lemma_slot_unique(i: int, e: int, r: int, j: int)
    requires
        0 <= i < slot(e, r, j),
        0 <= e,
        0 <= j < r,
    ensures
        exists|d: int, c: int|
            0 <= d && 0 <= c < r && (d < e || (d == e && c < j)) && i == #[trigger] slot(d, r, c),
{
    let d = i / r;
    let c = i % r;
    vstd::arithmetic::div_mod::lemma_fundamental_div_mod(i, r);
    if d > e {
        assert(d * r >= e * r + r) by (nonlinear_arith)
            requires
                d >= e + 1,
                0 < r,
        ;
    }
    assert(i == slot(d, r, c));
}

/// Lays out the encoding job for a working image: extracts its palette,
/// renders its thumbnails and the preview picture, and prepares one task
/// for each rendition of each encoder of the source's format.
///
/// `source_width` is the width of the upright source before any scaling; it
/// decides which thumbnails are rendered. `prefix` is the prefix of the file
/// names, `file_name` the name of the upload.
pub fn lay_out(
    working: Raster,
    source_width: u32,
    prefix: String,
    file_name: &str,
    meta: &Metadata,
) -> (r: Result<Job, Error>)
    requires
        working.wf(),
    ensures
        match r {
            Ok(job) => layout_failure(working@, meta.media_type) is None && job.lays_out(
                working@,
                source_width,
                prefix@,
                file_name@,
                *meta,
            ),
            Err(e) => layout_failure(working@, meta.media_type) == Some(e),
        },
{
    let encoders = encoders_for_format(&meta.media_type)?;
    let mime = format_exiv2mime(&meta.media_type)?;
    let lossless = format_is_lossless(&meta.media_type);
    let palette = extract_palette(&working)?;
    let bounds = thumbnails_for(lossless, source_width);
    if !can_preview(&working) {
        return Err(Error::ConvertInt);
    }
    let preview = preview_image(&working);
    // a picture of 48 by 48 pixels always fits the codec's integers
    let preview_request = preview_request(&preview)?;
    let ghost picture = working@;
    let mut renditions: Vec<Raster> = Vec::new();
    renditions.push(working);
    let mut b: usize = 0;
    while b < bounds.len()
        invariant
            b <= bounds@.len(),
            bounds@ == thumbnail_bounds(lossless, source_width as int),
            renditions@.len() == 1 + b,
            renditions@[0]@ == picture,
            picture.wf(),
            forall|j: int| 0 <= j < renditions@.len() ==> (#[trigger] renditions@[j]).wf(),
            forall|c: int|
                0 <= c < b ==> {
                    let thumb = #[trigger] renditions@[c + 1];
                    thumb.alpha == picture.alpha && thumb.width <= LARGE_THUMBNAIL
                        && thumb.height <= LARGE_THUMBNAIL && (
                    thumb.width as int,
                    thumb.height as int,
                    ) == resize_dimensions(
                        picture.width,
                        picture.height,
                        bounds@[c] as int,
                        bounds@[c] as int,
                    )
                },
        decreases bounds@.len() - b,
    {
        let bound = bounds[b];
        proof {
            lemma_fit_within(picture.width, picture.height, bound as int);
        }
        let thumb = fit_within(&renditions[0], bound, FilterType::Lanczos3);
        renditions.push(thumb);
        b = b + 1;
    }
    let count = renditions.len();
    let mut tasks: Vec<Task> = Vec::new();
    let mut e: usize = 0;
    while e < encoders.len()
        invariant
            e <= encoders@.len(),
            picture == working@,
            count == renditions@.len(),
            count >= 1,
            encoders@ == encoders_of(meta.media_type),
            is_supported(meta.media_type),
            palette_of(picture.data, picture.alpha) is Ok,
            preview_fits(picture),
            renditions@[0]@ == picture,
            forall|j: int| 0 <= j < renditions@.len() ==> (#[trigger] renditions@[j]).wf(),
            forall|j: int|
                1 <= j < renditions@.len() ==> (#[trigger] renditions@[j]).width
                    <= LARGE_THUMBNAIL && renditions@[j].height <= LARGE_THUMBNAIL,
            tasks@.len() == e * count,
            forall|d: int| 0 <= d < e ==> can_request(#[trigger] encoders@[d], picture),
            forall|d: int, c: int|
                0 <= d < e && 0 <= c < count ==> #[trigger] laid_out(
                    tasks@,
                    encoders@,
                    renditions@,
                    prefix@,
                    d,
                    c,
                ),
        decreases encoders@.len() - e,
    {
        let encoder = encoders[e];
        let mut j: usize = 0;
        while j < count
            invariant
                e < encoders@.len(),
                encoder == encoders@[e as int],
                j <= count,
                picture == working@,
                count == renditions@.len(),
                count >= 1,
                encoders@ == encoders_of(meta.media_type),
                is_supported(meta.media_type),
                palette_of(picture.data, picture.alpha) is Ok,
                preview_fits(picture),
                renditions@[0]@ == picture,
                forall|c: int| 0 <= c < renditions@.len() ==> (#[trigger] renditions@[c]).wf(),
                forall|c: int|
                    1 <= c < renditions@.len() ==> (#[trigger] renditions@[c]).width
                        <= LARGE_THUMBNAIL && renditions@[c].height <= LARGE_THUMBNAIL,
                tasks@.len() == e * count + j,
                forall|d: int| 0 <= d < e ==> can_request(#[trigger] encoders@[d], picture),
                j > 0 ==> can_request(encoder, picture),
                forall|d: int, c: int|
                    0 <= d && 0 <= c < count && (d < e || (d == e && c < j))
                        ==> #[trigger] laid_out(tasks@, encoders@, renditions@, prefix@, d, c),
            decreases count - j,
        {
            let img = &renditions[j];
            let request = match request_for(encoder, img) {
                Ok(request) => request,
                Err(err) => {
                    return Err(err);
                },
            };
            let name = rendition_name(prefix.as_str(), img.width, encoder.file_ext());
            let ghost before = tasks@;
            tasks.push(Task { encoder, rendition: j, request, name, width: img.width });
            proof {
                assert forall|d: int, c: int|
                    0 <= d && 0 <= c < count && (d < e || (d == e && c < j + 1))
                        implies #[trigger] laid_out(
                    tasks@,
                    encoders@,
                    renditions@,
                    prefix@,
                    d,
                    c,
                ) by {
                    if d != e || c != j {
                        // an earlier slot: the task in it has not changed
                        lemma_slot_order(d, c, e as int, j as int, count as int);
                        assert(laid_out(before, encoders@, renditions@, prefix@, d, c));
                    }
                }
            }
            j = j + 1;
        }
        assert(e * count + count == (e + 1) * count) by (nonlinear_arith);
        e = e + 1;
    }
    let job = Job {
        renditions,
        encoders,
        tasks,
        preview,
        preview_request,
        prefix,
        palette,
        file_name: String::from_str(file_name),
        source_width,
        source_mime: String::from_str(mime),
        meta: *meta,
    };
    proof {
        let r = count as int;
        assert forall|i: int| 0 <= i < job.tasks@.len() implies #[trigger] job.task_ok(i) by {
            lemma_slot_unique(i, job.encoders@.len() as int, r, 0);
            let (d, c) = choose|d: int, c: int|
                0 <= d && 0 <= c < r && (d < job.encoders@.len() || (d == job.encoders@.len() && c
                    < 0)) && i == #[trigger] slot(d, r, c);
            assert(laid_out(job.tasks@, job.encoders@, job.renditions@, job.prefix@, d, c));
        }
        assert forall|e: int, j: int|
            0 <= e < job.encoders@.len() && 0 <= j < job.renditions@.len() implies {
            let t = job.tasks@[#[trigger] slot(e, r, j)];
            t.encoder == job.encoders@[e] && t.rendition == j
        } by {
            assert(laid_out(job.tasks@, job.encoders@, job.renditions@, job.prefix@, e, j));
        }
        assert forall|b: int| 0 <= b < bounds@.len() implies {
            let thumb = #[trigger] job.renditions@[b + 1];
            thumb.alpha == picture.alpha && (thumb.width as int, thumb.height as int)
                == resize_dimensions(
                picture.width,
                picture.height,
                bounds@[b] as int,
                bounds@[b] as int,
            )
        } by {}
    }
    Ok(job)
}

/// The decoder for a source of a supported media type.
pub open spec fn decoder_of(mt: MediaType) -> ImageFormat {
    if mt == MediaType::Jpeg {
        ImageFormat::Jpeg
    } else {
        ImageFormat::Png
    }
}

/// Whether `working` can be the working image of the upright picture
/// `upright`: well formed, of the same layout and of the constrained
/// dimensions, and the picture itself where nothing has to be scaled.
pub open spec fn works_for(working: RasterView, upright: RasterView, lossless: bool) -> bool {
    &&& working.wf()
    &&& working.alpha == upright.alpha
    &&& (working.width, working.height) == working_dimensions(
        lossless,
        upright.width,
        upright.height,
    )
    &&& !needs_downscale(lossless, upright.width, upright.height) ==> working == upright
}

/// Whether `r` is what planning may answer for the upright picture
/// `upright`: the plan, or the failure to lay out a working image of that
/// picture. Where the working image is the upright picture itself, the
/// failure is the one that picture has.
pub open spec fn plan_outcome(
    r: Result<Job, Error>,
    upright: RasterView,
    file_name: Seq<char>,
    meta: Metadata,
) -> bool {
    match r {
        Ok(job) => job.plans(upright, file_name, meta),
        Err(e) => exists|working: RasterView|
            works_for(working, upright, is_lossless(meta.media_type)) && #[trigger] layout_failure(
                working,
                meta.media_type,
            ) == Some(e),
    }
}

/// Plans the encoding of an upright picture: names its files after its
/// samples, applies the size constraint and lays out the job for the
/// working image.
///
/// An unsupported media type is refused before anything else is done.
/// Otherwise planning fails only where the working image cannot be laid
/// out: where no palette can be extracted from it or, on a machine with
/// narrow addresses, where its preview cannot be rendered.
pub fn plan(upright: Raster, file_name: &str, meta: &Metadata) -> (r: Result<Job, Error>)
    requires
        upright.wf(),
    ensures
        !is_supported(meta.media_type) ==> is_refusal(r, meta.media_type),
        is_supported(meta.media_type) ==> plan_outcome(r, upright@, file_name@, *meta),
{
    match format_exiv2image(&meta.media_type) {
        Ok(_) => {},
        Err(e) => {
            return Err(e);
        },
    }
    let lossless = format_is_lossless(&meta.media_type);
    let prefix = file_prefix(upright.data.as_slice(), file_name);
    let source_width = upright.width;
    proof {
        lemma_working_dimensions(lossless, upright.width as int, upright.height as int);
    }
    let working = constrain_size(upright, lossless);
    let ghost picture = working@;
    let r = lay_out(working, source_width, prefix, file_name, meta);
    proof {
        if r is Err {
            assert(works_for(picture, upright@, lossless));
            assert(layout_failure(picture, meta.media_type) == Some(r->Err_0));
        }
    }
    r
}

/// Whether `r` is what preparing may answer for an upload of a supported
/// media type. Where the bytes decode to well-formed RGB or RGBA pixels,
/// the answer is that of planning the decoded picture, turned upright,
/// unless the decoder itself failed this time, which is an `ImageProc`.
/// An empty picture fails with `ImageProc`; bytes that decode to no RGB or
/// RGBA pixels fail with `ImageProc` or `UnsupportedColor`.
pub open spec fn prepare_outcome(
    r: Result<Job, Error>,
    file_contents: Seq<u8>,
    file_name: Seq<char>,
    meta: Metadata,
) -> bool {
    match decoded_pixels(file_contents, decoder_of(meta.media_type)) {
        None => r matches Err(e) && (e is ImageProc || e is UnsupportedColor),
        Some(stored) => if stored.wf() {
            ||| plan_outcome(r, stored.oriented(meta.orientation), file_name, meta)
            ||| r matches Err(Error::ImageProc { source: DecodeError::Codec(_) })
        } else {
            r matches Err(Error::ImageProc { .. })
        },
    }
}

/// Prepares a photograph for encoding: decodes `file_contents` as the
/// format that `meta` names, turns the pixels upright and plans the job.
///
/// An unsupported media type is refused before the bytes are looked at.
pub fn prepare_photo(file_contents: &[u8], file_name: &str, meta: &Metadata) -> (r: Result<
    Job,
    Error,
>)
    ensures
        !is_supported(meta.media_type) ==> is_refusal(r, meta.media_type),
        is_supported(meta.media_type) ==> prepare_outcome(
            r,
            file_contents@,
            file_name@,
            *meta,
        ),
{
    let format = format_exiv2image(&meta.media_type)?;
    let stored = decode(file_contents, format)?;
    let upright = orient_image(stored, meta.orientation);
    plan(upright, file_name, meta)
}

} // verus!
