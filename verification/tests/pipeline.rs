use imgroll::codecs::{CodecOutput, EncodeRequest, JpegColorSpace};
use imgroll::error::{DecodeError, Error};
use imgroll::formats::Encoder;
use imgroll::metadata::{Double, GeoLocation, MediaType, Metadata, Orientation, Ratio};
use imgroll::job::Job;
use imgroll::prepare::{lay_out, plan, prepare_photo};
use imgroll::process::process_photo;
use imgroll::raster::Raster;
use imgroll::resample::rendition_sizes;
use imgroll::webp;

fn meta(media_type: MediaType, orientation: Orientation) -> Metadata {
    Metadata {
        media_type,
        orientation,
        geo: None,
        aperture: None,
        shutter_speed: None,
        focal_length: None,
        iso: None,
    }
}

fn bands(width: u32, height: u32) -> Vec<u8> {
    let mut data = Vec::with_capacity((width * height * 3) as usize);
    for y in 0..height {
        for x in 0..width {
            let band = (x * 4 / width.max(1) + y * 4 / height.max(1)) % 4;
            data.extend_from_slice(match band {
                0 => &[220, 40, 40],
                1 => &[40, 200, 60],
                2 => &[30, 60, 210],
                _ => &[230, 220, 50],
            });
        }
    }
    data
}

fn picture(width: u32, height: u32) -> Raster {
    Raster::new(width, height, false, bands(width, height)).unwrap()
}

fn jpeg(width: u32, height: u32) -> Vec<u8> {
    let mut bytes = Vec::new();
    image::codecs::jpeg::JpegEncoder::new_with_quality(&mut bytes, 90)
        .encode(&bands(width, height), width, height, image::ColorType::Rgb8)
        .unwrap();
    bytes
}

fn png(width: u32, height: u32) -> Vec<u8> {
    let mut bytes = Vec::new();
    image::codecs::png::PngEncoder::new(&mut bytes)
        .encode(&bands(width, height), width, height, image::ColorType::Rgb8)
        .unwrap();
    bytes
}

/// Stands in for the codecs: every task is answered with bytes that tell
/// which task it was.
fn answers(job: &Job) -> Vec<CodecOutput> {
    job.tasks
        .iter()
        .enumerate()
        .map(|(i, t)| CodecOutput { code: 4, bytes: Some(vec![i as u8, t.rendition as u8, 0xee, 0xff]) })
        .collect()
}

fn preview_answer() -> CodecOutput {
    CodecOutput { code: 3, bytes: Some(b"foo".to_vec()) }
}

fn widths(job: &Job) -> Vec<u32> {
    job.renditions.iter().map(|r| r.width).collect()
}

#[test]
fn lossy_source_up_to_1500_gets_the_main_rendition_only() {
    for width in [1u32, 800, 1500] {
        let job = plan(picture(width, 2), "a.jpg", &meta(MediaType::Jpeg, Orientation::Normal))
            .ok()
            .unwrap();
        assert_eq!(widths(&job), vec![width]);
        assert_eq!(job.tasks.len(), 2);
    }
}

#[test]
fn lossy_source_above_1500_gets_the_small_thumbnail() {
    for width in [1501u32, 2000, 2500] {
        let job = plan(picture(width, 2), "a.jpg", &meta(MediaType::Jpeg, Orientation::Normal))
            .ok()
            .unwrap();
        assert_eq!(widths(&job), vec![width, 1000]);
        assert_eq!(job.tasks.len(), 4);
    }
}

#[test]
fn lossy_source_above_2500_gets_both_thumbnails() {
    for width in [2501u32, 3000, 4000] {
        let job = plan(picture(width, 2), "a.jpg", &meta(MediaType::Jpeg, Orientation::Normal))
            .ok()
            .unwrap();
        assert_eq!(widths(&job), vec![width.min(3000), 2000, 1000]);
        assert_eq!(job.tasks.len(), 6);
        let per_encoder: Vec<usize> =
            [Encoder::Jpeg, Encoder::Webp].iter().map(|e| job.tasks.iter().filter(|t| t.encoder == *e).count()).collect();
        assert_eq!(per_encoder, vec![3, 3]);
    }
}

#[test]
fn lossless_source_never_gets_thumbnails() {
    for width in [800u32, 1501, 2501, 4000] {
        let job = plan(picture(width, 2), "a.png", &meta(MediaType::Png, Orientation::Normal))
            .ok()
            .unwrap();
        assert_eq!(widths(&job), vec![width]);
        assert_eq!(job.tasks.len(), 1);
        assert_eq!(job.tasks[0].encoder, Encoder::Png);
    }
}

#[test]
fn lossy_source_is_constrained_to_3000() {
    let job = plan(picture(4000, 30), "a.jpg", &meta(MediaType::Jpeg, Orientation::Normal))
        .ok()
        .unwrap();
    assert_eq!((job.renditions[0].width, job.renditions[0].height), (3000, 22));
    let job = plan(picture(30, 4000), "a.jpg", &meta(MediaType::Jpeg, Orientation::Normal))
        .ok()
        .unwrap();
    assert_eq!((job.renditions[0].width, job.renditions[0].height), (22, 3000));
    assert_eq!(job.source_width, 30);
}

#[test]
fn lossless_source_is_not_constrained() {
    let job = plan(picture(4000, 3), "a.png", &meta(MediaType::Png, Orientation::Normal))
        .ok()
        .unwrap();
    assert_eq!((job.renditions[0].width, job.renditions[0].height), (4000, 3));
    assert_eq!(job.renditions[0].data, bands(4000, 3));
}

#[test]
fn thumbnails_are_rendered_from_the_working_image() {
    let job = plan(picture(2600, 4), "a.jpg", &meta(MediaType::Jpeg, Orientation::Normal))
        .ok()
        .unwrap();
    let sizes: Vec<(u32, u32)> = job.renditions.iter().map(|r| (r.width, r.height)).collect();
    assert_eq!(sizes, vec![(2600, 4), (2000, 3), (1000, 1)]);
    // 4000 x 20 is scaled to 3000 x 15 first, and the thumbnails are made of that
    let job = plan(picture(4000, 20), "a.jpg", &meta(MediaType::Jpeg, Orientation::Normal))
        .ok()
        .unwrap();
    let sizes: Vec<(u32, u32)> = job.renditions.iter().map(|r| (r.width, r.height)).collect();
    assert_eq!(sizes, vec![(3000, 15), (2000, 10), (1000, 5)]);
}

#[test]
fn planned_renditions_have_the_computed_sizes() {
    for (width, height, mt) in [
        (4000u32, 20u32, MediaType::Jpeg),
        (20, 4000, MediaType::Jpeg),
        (2600, 4, MediaType::Jpeg),
        (1600, 3, MediaType::Jpeg),
        (700, 5, MediaType::Jpeg),
        (4000, 3, MediaType::Png),
    ] {
        let job = plan(picture(width, height), "a", &meta(mt, Orientation::Normal)).ok().unwrap();
        let sizes: Vec<(u32, u32)> = job.renditions.iter().map(|r| (r.width, r.height)).collect();
        assert_eq!(sizes, rendition_sizes(mt == MediaType::Png, width, height));
    }
}

#[test]
fn the_width_of_the_source_decides_on_thumbnails() {
    // a narrow source gets no thumbnail, however tall it is
    let job = plan(picture(16, 3200), "a.jpg", &meta(MediaType::Jpeg, Orientation::Normal))
        .ok()
        .unwrap();
    assert_eq!(widths(&job), vec![15]);
    // a working image of 150 x 300 for a source 1600 pixels wide: the source's width
    // calls for the thumbnail, and the thumbnail is made of the working image
    let m = meta(MediaType::Jpeg, Orientation::Normal);
    let job = lay_out(picture(150, 300), 1600, String::from("p"), "a.jpg", &m).ok().unwrap();
    let sizes: Vec<(u32, u32)> = job.renditions.iter().map(|r| (r.width, r.height)).collect();
    assert_eq!(sizes, vec![(150, 300), (500, 1000)]);
    assert_eq!(job.source_width, 1600);
    let names: Vec<&str> = job.tasks.iter().map(|t| t.name.as_str()).collect();
    assert_eq!(names, vec!["p.150.jpg", "p.500.jpg", "p.150.webp", "p.500.webp"]);
    // the same working image for a source 1500 pixels wide gets none
    let job = lay_out(picture(150, 300), 1500, String::from("p"), "a.jpg", &m).ok().unwrap();
    assert_eq!(widths(&job), vec![150]);
}

#[test]
fn tasks_are_named_after_content_width_and_codec() {
    let job = plan(picture(1600, 2), "up/My Cat.JPG", &meta(MediaType::Jpeg, Orientation::Normal))
        .ok()
        .unwrap();
    assert_eq!(job.prefix.len(), 12 + 1 + "my-cat".len());
    assert!(job.prefix.ends_with("_my-cat"));
    let names: Vec<String> = job.tasks.iter().map(|t| t.name.clone()).collect();
    assert_eq!(
        names,
        vec![
            format!("{}.1600.jpg", job.prefix),
            format!("{}.1000.jpg", job.prefix),
            format!("{}.1600.webp", job.prefix),
            format!("{}.1000.webp", job.prefix),
        ]
    );
    let order: Vec<(Encoder, usize, u32)> =
        job.tasks.iter().map(|t| (t.encoder, t.rendition, t.width)).collect();
    assert_eq!(
        order,
        vec![
            (Encoder::Jpeg, 0, 1600),
            (Encoder::Jpeg, 1, 1000),
            (Encoder::Webp, 0, 1600),
            (Encoder::Webp, 1, 1000),
        ]
    );
}

#[test]
fn names_follow_the_upright_pixels_not_the_scaled_ones() {
    let a = plan(picture(3200, 2), "x.jpg", &meta(MediaType::Jpeg, Orientation::Normal)).ok().unwrap();
    let b = plan(picture(3200, 2), "x.jpg", &meta(MediaType::Jpeg, Orientation::Normal)).ok().unwrap();
    assert_eq!(a.prefix, b.prefix);
    let expected = imgroll::naming::file_prefix(&bands(3200, 2), "x.jpg");
    assert_eq!(a.prefix, expected);
}

#[test]
fn requests_carry_the_policy() {
    let job = plan(picture(1600, 2), "a.jpg", &meta(MediaType::Jpeg, Orientation::Normal))
        .ok()
        .unwrap();
    match &job.tasks[1].request {
        EncodeRequest::Jpeg(req) => {
            assert_eq!(req.color_space, JpegColorSpace::Rgb);
            assert_eq!((req.width, req.height, req.quality), (1000, 1, 65_100));
        }
        _ => panic!("the second task of a JPEG source is a JPEG thumbnail"),
    }
    match &job.tasks[2].request {
        EncodeRequest::Webp(req) => {
            assert_eq!((req.width, req.height, req.stride), (1600, 2, 4800));
            assert_eq!(req.quality, webp::Quality::Lossy(53_100));
        }
        _ => panic!("the third task of a JPEG source is the WebP main rendition"),
    }
    assert_eq!((job.preview.width, job.preview.height), (48, 48));
    assert_eq!(job.preview_request.quality, webp::Quality::Lossy(200));
    assert_eq!((job.preview_request.width, job.preview_request.height), (48, 48));
    assert_eq!(job.preview_request.stride, 144);
}

#[test]
fn unsupported_media_type_is_refused_before_the_bytes_are_read() {
    let r = prepare_photo(b"not even a picture", "a.gif", &meta(MediaType::Gif, Orientation::Normal));
    assert!(matches!(r, Err(Error::UnsupportedFormat { format: MediaType::Gif })));
    let r = plan(picture(4, 4), "a.tiff", &meta(MediaType::Tiff, Orientation::Normal));
    assert!(matches!(r, Err(Error::UnsupportedFormat { format: MediaType::Tiff })));
}

#[test]
fn undecodable_bytes_fail() {
    let r = prepare_photo(b"not even a picture", "a.jpg", &meta(MediaType::Jpeg, Orientation::Normal));
    assert!(matches!(r, Err(Error::ImageProc { source: DecodeError::Codec(_) })));
}

#[test]
fn grayscale_upload_is_an_unsupported_color_format() {
    let mut bytes = Vec::new();
    image::codecs::png::PngEncoder::new(&mut bytes)
        .encode(&[1, 2, 3, 4], 2, 2, image::ColorType::L8)
        .unwrap();
    let r = prepare_photo(&bytes, "a.png", &meta(MediaType::Png, Orientation::Rotate90));
    assert!(matches!(r, Err(Error::UnsupportedColor { format: image::ColorType::L8 })));
}

#[test]
fn descriptor_lists_each_encoder_and_the_original() {
    let m = Metadata {
        geo: Some(GeoLocation {
            longitude: Double { bits: 13.4f64.to_bits() },
            latitude: Double { bits: 52.5f64.to_bits() },
            altitude: Double { bits: 34.0f64.to_bits() },
        }),
        aperture: Some(Double { bits: 2.8f64.to_bits() }),
        shutter_speed: Some(Ratio { numer: 1, denom: 250 }),
        focal_length: Some(Double { bits: 35.0f64.to_bits() }),
        iso: Some(400),
        ..meta(MediaType::Jpeg, Orientation::Normal)
    };
    let job = plan(picture(1600, 2), "up/cat.jpg", &m).ok().unwrap();
    let (photo, files) = process_photo(&job, &answers(&job), &preview_answer()).ok().unwrap();
    assert_eq!(photo.tiny_preview, "data:image/webp;base64,Zm9v");
    assert_eq!((photo.width, photo.height), (1600, 2));
    assert_eq!(photo.palette, job.palette);
    assert_eq!(photo.geo.map(|g| f64::from_bits(g.latitude.bits)), Some(52.5));
    assert_eq!(photo.aperture.map(|a| f64::from_bits(a.bits)), Some(2.8));
    assert_eq!(photo.shutter_speed, Some(Ratio { numer: 1, denom: 250 }));
    assert_eq!(photo.focal_length.map(|a| f64::from_bits(a.bits)), Some(35.0));
    assert_eq!(photo.iso, Some(400));

    assert_eq!(photo.source.len(), 3);
    let kinds: Vec<(bool, &str, usize)> =
        photo.source.iter().map(|s| (s.original, s.mimetype.as_str(), s.srcset.len())).collect();
    assert_eq!(
        kinds,
        vec![(false, "image/jpeg", 2), (false, "image/webp", 2), (true, "image/jpeg", 1)]
    );
    assert_eq!(photo.source[2].srcset[0].src, "up/cat.jpg");
    assert_eq!(photo.source[2].srcset[0].width, 1600);

    assert_eq!(files.len(), 4);
    let mut at = 0;
    for source in &photo.source[..2] {
        for entry in &source.srcset {
            assert_eq!(files[at].name, entry.src);
            assert_eq!(files[at].mimetype, source.mimetype);
            assert_eq!(files[at].bytes, vec![at as u8, (at % 2) as u8, 0xee, 0xff]);
            at += 1;
        }
    }
    assert!(files.iter().all(|f| f.name != "up/cat.jpg"));
}

#[test]
fn exactly_one_source_is_the_original() {
    for (mt, name, mime) in
        [(MediaType::Jpeg, "a/b.jpeg", "image/jpeg"), (MediaType::Png, "c.png", "image/png")]
    {
        let job = plan(picture(3300, 3), name, &meta(mt, Orientation::Normal)).ok().unwrap();
        let (photo, _) = process_photo(&job, &answers(&job), &preview_answer()).ok().unwrap();
        let originals: Vec<_> = photo.source.iter().filter(|s| s.original).collect();
        assert_eq!(originals.len(), 1);
        assert!(photo.source.last().unwrap().original);
        assert_eq!(originals[0].srcset.len(), 1);
        assert_eq!(originals[0].srcset[0].src, name);
        // the width before the size constraint
        assert_eq!(originals[0].srcset[0].width, 3300);
        assert_eq!(originals[0].mimetype, mime);
    }
}

#[test]
fn one_failed_encoder_fails_the_whole() {
    let job = plan(picture(1600, 2), "a.jpg", &meta(MediaType::Jpeg, Orientation::Normal))
        .ok()
        .unwrap();
    // the WebP codec fails on its thumbnail; JPEG would have succeeded
    let mut outputs = answers(&job);
    outputs[3] = CodecOutput { code: 0, bytes: None };
    let r = process_photo(&job, &outputs, &preview_answer());
    assert!(matches!(
        r,
        Err(Error::WebpEncode { source: webp::Error::Encode { ret: 0 } })
    ));
    // the JPEG codec fails on the main rendition; WebP would have succeeded
    let mut outputs = answers(&job);
    outputs[0] = CodecOutput { code: 1, bytes: None };
    assert!(matches!(process_photo(&job, &outputs, &preview_answer()), Err(Error::JpegEncode)));
}

#[test]
fn the_first_failure_is_reported() {
    let job = plan(picture(1600, 2), "a.jpg", &meta(MediaType::Jpeg, Orientation::Normal))
        .ok()
        .unwrap();
    let mut outputs = answers(&job);
    outputs[1] = CodecOutput { code: 1, bytes: None };
    outputs[2] = CodecOutput { code: 0, bytes: None };
    let failed_preview = CodecOutput { code: 0, bytes: None };
    assert!(matches!(process_photo(&job, &outputs, &failed_preview), Err(Error::JpegEncode)));
}

#[test]
fn failed_png_encoder_fails_with_its_code() {
    let job = plan(picture(20, 10), "a.png", &meta(MediaType::Png, Orientation::Normal))
        .ok()
        .unwrap();
    let outputs = vec![CodecOutput { code: 69, bytes: None }];
    assert!(matches!(
        process_photo(&job, &outputs, &preview_answer()),
        Err(Error::PngEncode { code: 69 })
    ));
}

#[test]
fn failed_preview_fails_the_whole() {
    let job = plan(picture(20, 10), "a.png", &meta(MediaType::Png, Orientation::Normal))
        .ok()
        .unwrap();
    let r = process_photo(&job, &answers(&job), &CodecOutput { code: 0, bytes: Some(vec![1]) });
    assert!(matches!(
        r,
        Err(Error::WebpEncode { source: webp::Error::Encode { ret: 0 } })
    ));
}

#[test]
fn end_to_end_rotated_jpeg() {
    // stored 40 x 4000, to be turned a quarter: upright 4000 x 40
    let m = meta(MediaType::Jpeg, Orientation::Rotate90);
    let job = prepare_photo(&jpeg(40, 4000), "holiday/IMG_0042.jpg", &m).ok().unwrap();
    let (photo, files) = process_photo(&job, &answers(&job), &preview_answer()).ok().unwrap();

    // width and height are exchanged against the stored pixels
    assert_eq!(job.source_width, 4000);
    assert!(photo.width > photo.height);
    assert_eq!((photo.width, photo.height), (3000, 30));
    assert!(photo.geo.is_none());
    assert!(!photo.palette.is_empty() && photo.palette.len() <= 10);

    assert_eq!(photo.source.len(), 3);
    assert_eq!(photo.source[0].mimetype, "image/jpeg");
    assert_eq!(photo.source[1].mimetype, "image/webp");
    for source in &photo.source[..2] {
        assert!(!source.original);
        let widths: Vec<u32> = source.srcset.iter().map(|e| e.width).collect();
        assert_eq!(widths, vec![3000, 2000, 1000]);
    }
    assert!(photo.source[2].original);
    assert_eq!(photo.source[2].srcset.len(), 1);
    assert_eq!(photo.source[2].srcset[0].src, "holiday/IMG_0042.jpg");
    assert_eq!(photo.source[2].srcset[0].width, 4000);

    assert_eq!(files.len(), 6);
    let names: Vec<&str> = files.iter().map(|f| f.name.as_str()).collect();
    let p = &job.prefix;
    assert!(p.ends_with("_img-0042"));
    assert_eq!(
        names,
        vec![
            format!("{}.3000.jpg", p),
            format!("{}.2000.jpg", p),
            format!("{}.1000.jpg", p),
            format!("{}.3000.webp", p),
            format!("{}.2000.webp", p),
            format!("{}.1000.webp", p),
        ]
    );
}

#[test]
fn end_to_end_small_png() {
    let m = meta(MediaType::Png, Orientation::Normal);
    let job = prepare_photo(&png(800, 600), "shots/screen.png", &m).ok().unwrap();
    assert_eq!(job.tasks.len(), 1);
    match &job.tasks[0].request {
        EncodeRequest::Png(indexed) => {
            assert_eq!((indexed.width, indexed.height), (800, 600));
            assert_eq!(indexed.pixels.len(), 800 * 600);
            assert!(indexed.palette.len() <= 69);
        }
        _ => panic!("a PNG source is encoded as PNG"),
    }
    let (photo, files) = process_photo(&job, &answers(&job), &preview_answer()).ok().unwrap();
    assert_eq!((photo.width, photo.height), (800, 600));
    assert_eq!(photo.source.len(), 2);
    assert!(!photo.source[0].original);
    assert_eq!(photo.source[0].mimetype, "image/png");
    assert_eq!(photo.source[0].srcset.len(), 1);
    assert_eq!(photo.source[0].srcset[0].width, 800);
    assert_eq!(photo.source[0].srcset[0].src, format!("{}.800.png", job.prefix));
    assert!(photo.source[1].original);
    assert_eq!(photo.source[1].srcset[0].src, "shots/screen.png");
    assert_eq!(photo.source[1].srcset[0].width, 800);
    assert_eq!(photo.source[1].mimetype, "image/png");
    assert_eq!(files.len(), 1);
    assert_eq!(files[0].name, photo.source[0].srcset[0].src);
    assert_eq!(files[0].mimetype, "image/png");
}

#[test]
fn end_to_end_turns_the_pixels() {
    // 2 x 1 stored, turned upside down: the two pixels change places
    let mut bytes = Vec::new();
    image::codecs::png::PngEncoder::new(&mut bytes)
        .encode(&[10, 20, 30, 200, 210, 220], 2, 1, image::ColorType::Rgb8)
        .unwrap();
    let job = prepare_photo(&bytes, "p.png", &meta(MediaType::Png, Orientation::Rotate180))
        .ok()
        .unwrap();
    assert_eq!(job.renditions[0].data, vec![200, 210, 220, 10, 20, 30]);
    let upright = imgroll::naming::file_prefix(&[200, 210, 220, 10, 20, 30], "p.png");
    assert_eq!(job.prefix, upright);
}
