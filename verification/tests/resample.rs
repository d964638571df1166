use imgroll::raster::Raster;
use imgroll::resample::{
    constrain_size, fit_within, rendition_sizes, scaled_size, thumbnails_for, FilterType,
};

fn flat(width: u32, height: u32, alpha: bool) -> Raster {
    let channels = if alpha { 4 } else { 3 };
    Raster::new(width, height, alpha, vec![100u8; (width * height * channels) as usize]).unwrap()
}

#[test]
fn thumbnails_follow_the_width_thresholds() {
    assert_eq!(thumbnails_for(false, 800), Vec::<u32>::new());
    assert_eq!(thumbnails_for(false, 1500), Vec::<u32>::new());
    assert_eq!(thumbnails_for(false, 1501), vec![1000]);
    assert_eq!(thumbnails_for(false, 2500), vec![1000]);
    assert_eq!(thumbnails_for(false, 2501), vec![2000, 1000]);
    assert_eq!(thumbnails_for(false, u32::MAX), vec![2000, 1000]);
}

#[test]
fn thumbnails_never_for_lossless() {
    for width in [1u32, 1500, 1501, 2501, 4000, u32::MAX] {
        assert_eq!(thumbnails_for(true, width), Vec::<u32>::new());
    }
}

#[test]
fn constrain_size_scales_wide_lossy_picture() {
    let out = constrain_size(flat(4000, 30, false), false);
    assert_eq!((out.width, out.height), (3000, 22));
    assert_eq!(out.data.len(), 3000 * 22 * 3);
    assert!(!out.alpha);
}

#[test]
fn constrain_size_scales_tall_lossy_picture() {
    let out = constrain_size(flat(30, 4000, true), false);
    assert_eq!((out.width, out.height), (22, 3000));
    assert_eq!(out.data.len(), 22 * 3000 * 4);
    assert!(out.alpha);
}

#[test]
fn constrain_size_keeps_picture_within_limit() {
    let out = constrain_size(flat(3000, 7, false), false);
    assert_eq!((out.width, out.height), (3000, 7));
    let out = constrain_size(flat(5, 3000, false), false);
    assert_eq!((out.width, out.height), (5, 3000));
}

#[test]
fn constrain_size_keeps_lossless_picture() {
    let out = constrain_size(flat(4000, 3, false), true);
    assert_eq!((out.width, out.height), (4000, 3));
    assert_eq!(out.data, flat(4000, 3, false).data);
}

#[test]
fn constrain_size_at_the_boundary() {
    let out = constrain_size(flat(3001, 2, false), false);
    assert_eq!((out.width, out.height), (3000, 1));
    let out = constrain_size(flat(2, 3001, false), false);
    assert_eq!((out.width, out.height), (1, 3000));
}

#[test]
fn fit_within_keeps_aspect_ratio() {
    let out = fit_within(&flat(800, 600, false), 48, FilterType::Gaussian);
    assert_eq!((out.width, out.height), (48, 36));
    let out = fit_within(&flat(600, 800, false), 48, FilterType::Gaussian);
    assert_eq!((out.width, out.height), (36, 48));
    let out = fit_within(&flat(225, 300, true), 200, FilterType::Lanczos3);
    assert_eq!((out.width, out.height), (150, 200));
}

#[test]
fn fit_within_scales_small_pictures_up() {
    let out = fit_within(&flat(10, 5, false), 48, FilterType::Gaussian);
    assert_eq!((out.width, out.height), (48, 24));
    assert_eq!(out.data.len(), 48 * 24 * 3);
}

#[test]
fn fit_within_never_rounds_a_side_to_zero() {
    let out = fit_within(&flat(1, 150, false), 128, FilterType::Lanczos3);
    assert_eq!((out.width, out.height), (1, 128));
    let out = fit_within(&flat(300, 1, false), 100, FilterType::Lanczos3);
    assert_eq!((out.width, out.height), (100, 1));
}

#[test]
fn fit_within_keeps_a_flat_color() {
    let out = fit_within(&flat(64, 64, false), 16, FilterType::Lanczos3);
    assert!(out.data.iter().all(|&s| s == 100));
}

#[test]
fn fit_within_sizes_follow_the_rule() {
    let sizes = [1u32, 2, 3, 7, 16, 47, 48, 49, 100, 333];
    for &width in &sizes {
        for &height in &sizes {
            for &bound in &[1u32, 5, 48, 120] {
                for &alpha in &[false, true] {
                    let out = fit_within(&flat(width, height, alpha), bound, FilterType::Gaussian);
                    assert_eq!(
                        (out.width, out.height),
                        scaled_size(width, height, bound, bound),
                        "{} x {} into {}",
                        width,
                        height,
                        bound
                    );
                    let channels = if alpha { 4 } else { 3 };
                    assert_eq!(out.data.len(), (out.width * out.height * channels) as usize);
                    assert_eq!(out.alpha, alpha);
                }
            }
        }
    }
}

#[test]
fn fit_within_agrees_with_both_kernels() {
    for filter in [FilterType::Gaussian, FilterType::Lanczos3] {
        let out = fit_within(&flat(90, 30, true), 45, filter);
        assert_eq!((out.width, out.height), (45, 15));
        assert!(out.data.iter().all(|&s| s == 100));
    }
}

#[test]
fn scaled_size_keeps_the_aspect_ratio() {
    assert_eq!(scaled_size(4000, 3000, 3000, 3000), (3000, 2250));
    assert_eq!(scaled_size(3000, 4000, 3000, 3000), (2250, 3000));
    assert_eq!(scaled_size(800, 600, 48, 48), (48, 36));
    assert_eq!(scaled_size(100, 200, 200, 500), (200, 400));
    assert_eq!(scaled_size(200, 100, 500, 200), (400, 200));
    assert_eq!(scaled_size(7, 7, 3, 9), (3, 3));
}

#[test]
fn scaled_size_at_the_limits() {
    assert_eq!(scaled_size(1, 150, 128, 128), (1, 128));
    assert_eq!(scaled_size(u32::MAX, 1, 3000, 3000), (3000, 1));
    assert_eq!(scaled_size(1, u32::MAX, 3000, 3000), (1, 3000));
    assert_eq!(scaled_size(u32::MAX, u32::MAX, u32::MAX, u32::MAX), (u32::MAX, u32::MAX));
    assert_eq!(scaled_size(1, 1, u32::MAX, 7), (7, 7));
    assert_eq!(scaled_size(400, u32::MAX, u32::MAX, 200), (1, 200));
}

#[test]
fn rendition_sizes_of_a_large_portrait_photograph() {
    // 4000 x 3000 as stored, turned a quarter
    assert_eq!(
        rendition_sizes(false, 3000, 4000),
        vec![(2250, 3000), (1500, 2000), (750, 1000)]
    );
}

#[test]
fn rendition_sizes_of_a_large_landscape_photograph() {
    assert_eq!(
        rendition_sizes(false, 4000, 3000),
        vec![(3000, 2250), (2000, 1500), (1000, 750)]
    );
}

#[test]
fn rendition_sizes_follow_the_width_of_the_source() {
    assert_eq!(rendition_sizes(false, 800, 600), vec![(800, 600)]);
    assert_eq!(rendition_sizes(false, 1500, 4000), vec![(1125, 3000)]);
    assert_eq!(rendition_sizes(false, 1600, 3200), vec![(1500, 3000), (500, 1000)]);
    assert_eq!(rendition_sizes(false, 2500, 100), vec![(2500, 100), (1000, 40)]);
    assert_eq!(rendition_sizes(false, 2501, 100), vec![(2501, 100), (2000, 79), (1000, 39)]);
}

#[test]
fn rendition_sizes_of_a_lossless_source() {
    assert_eq!(rendition_sizes(true, 800, 600), vec![(800, 600)]);
    assert_eq!(rendition_sizes(true, 6000, 4000), vec![(6000, 4000)]);
}
