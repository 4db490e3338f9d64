use property_admin::crop::{CropBox, RgbPixels};

/// An image of the given size, white but for the listed pixels.
fn image(width: u32, height: u32, dark: &[(u32, u32)]) -> RgbPixels {
    let mut data = vec![255u8; (3 * width * height) as usize];
    for &(x, y) in dark {
        let at = (3 * (y * width + x)) as usize;
        data[at] = 0;
    }
    RgbPixels::new(width, height, data).expect("three bytes per pixel")
}

#[test]
fn pixels_need_three_bytes_each() {
    assert!(RgbPixels::new(2, 2, vec![0; 12]).is_some());
    assert!(RgbPixels::new(2, 2, vec![0; 11]).is_none());
    assert!(RgbPixels::new(2, 2, vec![0; 13]).is_none());
    assert!(RgbPixels::new(0, 5, vec![]).is_some());
    assert!(RgbPixels::new(0, 0, vec![1]).is_none());
    assert!(RgbPixels::new(u32::MAX, u32::MAX, vec![0; 3]).is_none());
}

#[test]
fn white_image_is_not_cropped() {
    assert_eq!(image(4, 3, &[]).auto_crop_white(), None);
    assert_eq!(image(0, 0, &[]).auto_crop_white(), None);
    assert_eq!(image(0, 7, &[]).auto_crop_white(), None);
}

#[test]
fn crop_box_surrounds_all_dark_pixels() {
    let img = image(10, 8, &[(2, 1), (7, 5), (4, 3)]);
    assert_eq!(img.auto_crop_white(), Some(CropBox { x: 2, y: 1, width: 6, height: 5 }));
    let img = image(10, 8, &[(7, 1), (2, 5)]);
    assert_eq!(img.auto_crop_white(), Some(CropBox { x: 2, y: 1, width: 6, height: 5 }));
    let img = image(3, 3, &[(0, 0), (2, 2)]);
    assert_eq!(img.auto_crop_white(), Some(CropBox { x: 0, y: 0, width: 3, height: 3 }));
    let img = image(3, 3, &[(1, 1), (2, 2)]);
    assert_eq!(img.auto_crop_white(), Some(CropBox { x: 1, y: 1, width: 2, height: 2 }));
}

#[test]
fn dark_pixels_in_one_row_or_column_are_not_cropped() {
    assert_eq!(image(5, 5, &[(2, 2)]).auto_crop_white(), None);
    assert_eq!(image(5, 5, &[(1, 2), (4, 2)]).auto_crop_white(), None);
    assert_eq!(image(5, 5, &[(3, 0), (3, 4)]).auto_crop_white(), None);
    assert_eq!(image(5, 5, &[(0, 0)]).auto_crop_white(), None);
}

#[test]
fn any_channel_below_the_limit_makes_a_pixel_dark() {
    for channel in 0..3usize {
        let mut data = vec![255u8; 3 * 4 * 4];
        data[3 * (0 * 4 + 1) + channel] = 249;
        data[3 * (3 * 4 + 2) + channel] = 0;
        let img = RgbPixels::new(4, 4, data).unwrap();
        assert_eq!(img.auto_crop_white(), Some(CropBox { x: 1, y: 0, width: 2, height: 4 }));
    }
    // 250 is white already.
    let mut data = vec![250u8; 3 * 4 * 4];
    data[0] = 251;
    assert_eq!(RgbPixels::new(4, 4, data).unwrap().auto_crop_white(), None);
}
