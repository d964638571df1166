use imgroll::metadata::Orientation;
use imgroll::orient::orient_image;
use imgroll::raster::Raster;

fn numbered(width: u32, height: u32, alpha: bool) -> Raster {
    let channels = if alpha { 4 } else { 3 };
    let mut data = Vec::new();
    for y in 0..height {
        for x in 0..width {
            for c in 0..channels {
                data.push((y * 40 + x * 5 + c) as u8);
            }
        }
    }
    Raster::new(width, height, alpha, data).unwrap()
}

fn source(ori: Orientation, w: u32, h: u32, x: u32, y: u32) -> (u32, u32) {
    match ori {
        Orientation::HorizontalFlip => (w - 1 - x, y),
        Orientation::Rotate180 => (w - 1 - x, h - 1 - y),
        Orientation::VerticalFlip => (x, h - 1 - y),
        Orientation::Rotate90HorizontalFlip => (y, x),
        Orientation::Rotate90 => (y, h - 1 - x),
        Orientation::Rotate90VerticalFlip => (w - 1 - y, h - 1 - x),
        Orientation::Rotate270 => (w - 1 - y, x),
        _ => (x, y),
    }
}

fn check(ori: Orientation, alpha: bool) {
    check_size(ori, alpha, 4, 3);
    check_size(ori, alpha, 1, 5);
    check_size(ori, alpha, 6, 1);
    check_size(ori, alpha, 5, 5);
}

fn check_size(ori: Orientation, alpha: bool, w: u32, h: u32) {
    let stored = numbered(w, h, alpha);
    let upright = orient_image(numbered(w, h, alpha), ori);
    let swapped = matches!(
        ori,
        Orientation::Rotate90
            | Orientation::Rotate270
            | Orientation::Rotate90HorizontalFlip
            | Orientation::Rotate90VerticalFlip
    );
    let expected = if swapped { (h, w) } else { (w, h) };
    assert_eq!((upright.width, upright.height), expected);
    assert_eq!(upright.alpha, alpha);
    assert_eq!(upright.data.len(), stored.data.len());
    for y in 0..upright.height {
        for x in 0..upright.width {
            let (sx, sy) = source(ori, w, h, x, y);
            assert_eq!(upright.pixel(x, y), stored.pixel(sx, sy), "{:?} at {},{}", ori, x, y);
        }
    }
}

#[test]
fn orient_unspecified_and_normal_are_identity() {
    for ori in [Orientation::Unspecified, Orientation::Normal] {
        let upright = orient_image(numbered(4, 3, false), ori);
        assert_eq!(upright.data, numbered(4, 3, false).data);
        assert_eq!((upright.width, upright.height), (4, 3));
    }
}

#[test]
fn orient_horizontal_flip() {
    check(Orientation::HorizontalFlip, false);
    check(Orientation::HorizontalFlip, true);
}

#[test]
fn orient_vertical_flip() {
    check(Orientation::VerticalFlip, false);
    check(Orientation::VerticalFlip, true);
}

#[test]
fn orient_rotate90() {
    check(Orientation::Rotate90, false);
    check(Orientation::Rotate90, true);
}

#[test]
fn orient_rotate180() {
    check(Orientation::Rotate180, false);
    check(Orientation::Rotate180, true);
}

#[test]
fn orient_rotate270() {
    check(Orientation::Rotate270, false);
    check(Orientation::Rotate270, true);
}

#[test]
fn orient_rotate90_then_flip() {
    check(Orientation::Rotate90HorizontalFlip, false);
    check(Orientation::Rotate90HorizontalFlip, true);
    check(Orientation::Rotate90VerticalFlip, false);
    check(Orientation::Rotate90VerticalFlip, true);
}

#[test]
fn orient_rotate90_moves_left_column_to_top_row() {
    // 2 x 2, one sample set per pixel: a b / c d
    let data = vec![1, 1, 1, 2, 2, 2, 3, 3, 3, 4, 4, 4];
    let upright = orient_image(Raster::new(2, 2, false, data).unwrap(), Orientation::Rotate90);
    assert_eq!(upright.data, vec![3, 3, 3, 1, 1, 1, 4, 4, 4, 2, 2, 2]);
}

#[test]
fn orient_single_pixel_is_unchanged() {
    for ori in [
        Orientation::Rotate90,
        Orientation::Rotate180,
        Orientation::HorizontalFlip,
        Orientation::Rotate90VerticalFlip,
    ] {
        let upright = orient_image(Raster::new(1, 1, true, vec![9, 8, 7, 6]).unwrap(), ori);
        assert_eq!(upright.data, vec![9, 8, 7, 6]);
    }
}
