//! The second half of the pipeline: from the answers of the codecs to the
//! descriptor and the files.

use crate::codecs::{encoded_img, CodecOutput};
use crate::error::Error;
use crate::job::{slot, Job};
use crate::photo::{OutFile, Photo, Source, SrcSetEntry};
use crate::preview::{make_tiny_preview, tiny_preview_of};
use vstd::prelude::*;
use vstd::string::StringExecFns;

verus! {

/// Assembles the descriptor and the files from the answers of the codecs:
/// `outputs[i]` is the answer to `job.tasks[i]`, `preview` the answer to
/// the preview request.
///
/// Succeeds exactly when every codec succeeded. Then there is one file for
/// each task, in order, and the descriptor lists one source for each
/// encoder and, last, the original. One failed codec fails the whole: no
/// file is handed out.
pub fn process_photo(job: &Job, outputs: &Vec<CodecOutput>, preview: &CodecOutput) -> (r: Result<
    (Photo, Vec<OutFile>),
    Error,
>)
    requires
        job.wf(),
        outputs@.len() == job.tasks@.len(),
    ensures
        r is Ok <==> job.all_succeeded(outputs@, *preview),
        match r {
            Ok((photo, files)) => {
                &&& photo@ == job.photo(tiny_preview_of(*preview)->Ok_0)
                &&& files@.len() == job.tasks@.len()
                &&& forall|i: int|
                    0 <= i < files@.len() ==> (#[trigger] files@[i])@ == job.file_of(
                        i,
                        job.encoded(outputs@, i)->Ok_0,
                    )
            },
            Err(e) => job.fails_with(outputs@, *preview, e),
        },
{
    let r = job.renditions.len();
    let k = job.encoders.len();
    let mut source: Vec<Source> = Vec::new();
    let mut files: Vec<OutFile> = Vec::new();
    let mut at: usize = 0;
    let mut e: usize = 0;
    while e < k
        invariant
            job.wf(),
            outputs@.len() == job.tasks@.len(),
            r == job.renditions@.len(),
            k == job.encoders@.len(),
            e <= k,
            at == e * r,
            files@.len() == at,
            forall|i: int| 0 <= i < at ==> (#[trigger] job.encoded(outputs@, i)) is Ok,
            forall|i: int|
                0 <= i < at ==> (#[trigger] files@[i])@ == job.file_of(
                    i,
                    job.encoded(outputs@, i)->Ok_0,
                ),
            source@.len() == e,
            forall|d: int| 0 <= d < e ==> (#[trigger] source@[d])@ == job.derived_source(d),
        decreases k - e,
    {
        let mut srcset: Vec<SrcSetEntry> = Vec::new();
        let mut j: usize = 0;
        while j < r
            invariant
                job.wf(),
                outputs@.len() == job.tasks@.len(),
                r == job.renditions@.len(),
                k == job.encoders@.len(),
                e < k,
                j <= r,
                at == e * r + j,
                files@.len() == at,
                forall|i: int| 0 <= i < at ==> (#[trigger] job.encoded(outputs@, i)) is Ok,
                forall|i: int|
                    0 <= i < at ==> (#[trigger] files@[i])@ == job.file_of(
                        i,
                        job.encoded(outputs@, i)->Ok_0,
                    ),
                srcset@.len() == j,
                forall|c: int|
                    0 <= c < j ==> (#[trigger] srcset@[c])@ == job.entry_of(slot(e as int, r as int, c)),
            decreases r - j,
        {
            assert(e * r + j < k * r) by (nonlinear_arith)
                requires
                    e < k,
                    j < r,
            ;
            assert(job.tasks.len() <= usize::MAX);
            let task = &job.tasks[at];
            let encoded = match encoded_img(task.encoder, &outputs[at]) {
                Ok(encoded) => encoded,
                Err(err) => {
                    assert(job.fails_at(outputs@, at as int, err));
                    return Err(err);
                },
            };
            files.push(
                OutFile {
                    name: task.name.clone(),
                    bytes: encoded.bytes,
                    mimetype: String::from_str(encoded.mime_type),
                },
            );
            srcset.push(SrcSetEntry { src: task.name.clone(), width: task.width });
            at = at + 1;
            j = j + 1;
        }
        let made = Source {
            original: false,
            srcset,
            mimetype: String::from_str(job.encoders[e].mime_type()),
        };
        assert(made@.srcset =~= job.derived_source(e as int).srcset);
        source.push(made);
        assert(e * r + r == (e + 1) * r) by (nonlinear_arith);
        e = e + 1;
    }
    let mut original: Vec<SrcSetEntry> = Vec::new();
    original.push(SrcSetEntry { src: job.file_name.clone(), width: job.source_width });
    let last = Source { original: true, srcset: original, mimetype: job.source_mime.clone() };
    assert(last@.srcset =~= job.original_source().srcset);
    source.push(last);
    let tiny_preview = make_tiny_preview(preview)?;
    let photo = Photo {
        tiny_preview,
        source,
        height: job.renditions[0].height,
        width: job.renditions[0].width,
        palette: job.palette.clone(),
        geo: job.meta.geo,
        aperture: job.meta.aperture,
        shutter_speed: job.meta.shutter_speed,
        focal_length: job.meta.focal_length,
        iso: job.meta.iso,
    };
    assert(photo@.source =~= job.sources());
    Ok((photo, files))
}

} // verus!
