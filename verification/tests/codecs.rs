use imgroll::codecs::{
    encode_jpeg, encode_png, encode_webp, encoded_img, request_for, rgba_pixels, CodecOutput,
    EncodeRequest, JpegColorSpace, JpegRequest, Rgba,
};
use imgroll::error::Error;
use imgroll::formats::Encoder;
use imgroll::raster::Raster;
use imgroll::webp;

fn checkers(width: u32, height: u32, alpha: bool) -> Raster {
    let mut data = Vec::new();
    for y in 0..height {
        for x in 0..width {
            let on = (x / 4 + y / 4) % 2 == 0;
            data.extend_from_slice(if on { &[250, 10, 10] } else { &[10, 10, 250] });
            if alpha {
                data.push(if on { 255 } else { 128 });
            }
        }
    }
    Raster::new(width, height, alpha, data).unwrap()
}

#[test]
fn rgba_pixels_adds_opaque_alpha() {
    let img = Raster::new(2, 1, false, vec![1, 2, 3, 4, 5, 6]).unwrap();
    assert_eq!(
        rgba_pixels(&img),
        vec![Rgba { r: 1, g: 2, b: 3, a: 255 }, Rgba { r: 4, g: 5, b: 6, a: 255 }]
    );
}

#[test]
fn rgba_pixels_keeps_alpha() {
    let img = Raster::new(1, 2, true, vec![1, 2, 3, 4, 5, 6, 7, 8]).unwrap();
    assert_eq!(
        rgba_pixels(&img),
        vec![Rgba { r: 1, g: 2, b: 3, a: 4 }, Rgba { r: 5, g: 6, b: 7, a: 8 }]
    );
}

#[test]
fn jpeg_request_names_color_space_size_and_quality() {
    assert_eq!(
        encode_jpeg(&checkers(16, 8, false)),
        JpegRequest { color_space: JpegColorSpace::Rgb, width: 16, height: 8, quality: 65_100 }
    );
    assert_eq!(
        encode_jpeg(&checkers(16, 8, true)),
        JpegRequest { color_space: JpegColorSpace::ExtRgba, width: 16, height: 8, quality: 65_100 }
    );
}

#[test]
fn jpeg_quality_falls_for_very_wide_pictures() {
    let wide = Raster::new(5500, 1, false, vec![0u8; 5500 * 3]).unwrap();
    assert_eq!(encode_jpeg(&wide).quality, 64_500);
    let edge = Raster::new(4950, 1, false, vec![0u8; 4950 * 3]).unwrap();
    assert_eq!(encode_jpeg(&edge).quality, 65_050);
}

#[test]
fn webp_request_is_lossy_with_bonus() {
    let req = encode_webp(&checkers(16, 8, true)).ok().unwrap();
    assert_eq!(
        req,
        webp::Request {
            alpha: true,
            width: 16,
            height: 8,
            stride: 64,
            quality: webp::Quality::Lossy(53_100)
        }
    );
    let wide = Raster::new(5500, 1, false, vec![0u8; 5500 * 3]).unwrap();
    assert_eq!(encode_webp(&wide).ok().unwrap().quality, webp::Quality::Lossy(52_500));
}

#[test]
fn png_request_is_a_sound_indexed_picture() {
    let img = checkers(24, 16, false);
    let indexed = encode_png(&img).ok().unwrap();
    assert_eq!((indexed.width, indexed.height), (24, 16));
    assert_eq!(indexed.pixels.len(), 24 * 16);
    assert!(!indexed.palette.is_empty() && indexed.palette.len() <= 69);
    assert!(indexed.pixels.iter().all(|&i| (i as usize) < indexed.palette.len()));
    // the two colors of the picture are told apart
    assert_ne!(indexed.pixels[0], indexed.pixels[4]);
    let first = indexed.palette[indexed.pixels[0] as usize];
    assert!(first.r > 200 && first.b < 60 && first.a == 255);
}

#[test]
fn png_request_keeps_translucency() {
    let indexed = encode_png(&checkers(24, 16, true)).ok().unwrap();
    let off = indexed.palette[indexed.pixels[4] as usize];
    assert!(off.b > 200 && off.a > 100 && off.a < 160);
}

#[test]
fn request_for_follows_the_encoder() {
    let img = checkers(8, 8, false);
    assert!(matches!(request_for(Encoder::Jpeg, &img), Ok(EncodeRequest::Jpeg(_))));
    assert!(matches!(request_for(Encoder::Webp, &img), Ok(EncodeRequest::Webp(_))));
    assert!(matches!(request_for(Encoder::Png, &img), Ok(EncodeRequest::Png(_))));
}

#[test]
fn encoded_img_takes_the_bytes() {
    let out = CodecOutput { code: 3, bytes: Some(vec![7, 8, 9]) };
    for (encoder, mime, ext) in [
        (Encoder::Jpeg, "image/jpeg", "jpg"),
        (Encoder::Webp, "image/webp", "webp"),
        (Encoder::Png, "image/png", "png"),
    ] {
        let img = encoded_img(encoder, &out).ok().unwrap();
        assert_eq!(img.bytes, vec![7, 8, 9]);
        assert_eq!((img.mime_type, img.file_ext), (mime, ext));
    }
}

#[test]
fn encoded_img_reports_each_codec_failure() {
    let none = CodecOutput { code: 69, bytes: None };
    assert!(matches!(encoded_img(Encoder::Jpeg, &none), Err(Error::JpegEncode)));
    assert!(matches!(encoded_img(Encoder::Png, &none), Err(Error::PngEncode { code: 69 })));
    assert!(matches!(
        encoded_img(Encoder::Webp, &none),
        Err(Error::WebpEncode { source: webp::Error::Encode { ret: 69 } })
    ));
    let zero = CodecOutput { code: 0, bytes: Some(vec![1]) };
    assert!(matches!(
        encoded_img(Encoder::Webp, &zero),
        Err(Error::WebpEncode { source: webp::Error::Encode { ret: 0 } })
    ));
    // the other codecs are judged by their bytes alone
    assert!(encoded_img(Encoder::Jpeg, &zero).is_ok());
    assert!(encoded_img(Encoder::Png, &zero).is_ok());
}
