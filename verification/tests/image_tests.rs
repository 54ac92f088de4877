use z_color_picker::frame_read::{frame_pixels_from_read, gl_read_region, PixelReadRegion};
use z_color_picker::image_processing::{
    flip_v, u8_to_u8u8u8, u8u8u8_to_u8, u8u8u8_to_u8u8u8u8, u8u8u8u8_to_u8, FramePixelRead, Rgb,
};

fn px(r: u8, g: u8, b: u8) -> Rgb {
    Rgb { val: (r, g, b) }
}

fn vals(p: &[Rgb]) -> Vec<(u8, u8, u8)> {
    p.iter().map(|x| x.val).collect()
}

#[test]
fn bytes_to_pixels_groups_by_three() {
    let p = u8_to_u8u8u8(&[1, 2, 3, 4, 5, 6]);
    assert_eq!(vals(&p), vec![(1, 2, 3), (4, 5, 6)]);
    assert!(u8_to_u8u8u8(&[]).is_empty());
}

#[test]
fn pixels_to_bytes_and_back() {
    let p = vec![px(9, 8, 7), px(1, 2, 3), px(255, 0, 128)];
    let b = u8u8u8_to_u8(&p);
    assert_eq!(b, vec![9, 8, 7, 1, 2, 3, 255, 0, 128]);
    assert_eq!(vals(&u8_to_u8u8u8(&b)), vals(&p));
    let bytes = vec![5u8, 6, 7, 8, 9, 10];
    assert_eq!(u8u8u8_to_u8(&u8_to_u8u8u8(&bytes)), bytes);
}

#[test]
fn alpha_padding_and_rgba_bytes() {
    let p = vec![px(1, 2, 3), px(4, 5, 6)];
    let padded = u8u8u8_to_u8u8u8u8(&p);
    assert_eq!(padded, vec![(1, 2, 3, 255), (4, 5, 6, 255)]);
    assert_eq!(u8u8u8u8_to_u8(&padded), vec![1, 2, 3, 255, 4, 5, 6, 255]);
    assert!(u8u8u8u8_to_u8(&[]).is_empty());
}

fn image(width: usize, height: usize, data: Vec<Rgb>) -> FramePixelRead {
    FramePixelRead { width, height, data }
}

#[test]
fn flip_v_reverses_rows_of_pixels() {
    // 2 x 3 image, 3 bytes per pixel
    let data = vec![px(1, 1, 1), px(2, 2, 2), px(3, 3, 3), px(4, 4, 4), px(5, 5, 5), px(6, 6, 6)];
    let flipped = flip_v(image(2, 3, data), 3);
    assert_eq!(flipped.width, 2);
    assert_eq!(flipped.height, 3);
    assert_eq!(
        vals(&flipped.data),
        vec![(5, 5, 5), (6, 6, 6), (3, 3, 3), (4, 4, 4), (1, 1, 1), (2, 2, 2)]
    );
}

#[test]
fn flip_v_even_height() {
    let data = vec![px(1, 2, 3), px(4, 5, 6)];
    let flipped = flip_v(image(1, 2, data), 3);
    assert_eq!(vals(&flipped.data), vec![(4, 5, 6), (1, 2, 3)]);
}

#[test]
fn flip_v_single_row_is_unchanged() {
    let data = vec![px(1, 2, 3), px(4, 5, 6)];
    let flipped = flip_v(image(2, 1, data), 3);
    assert_eq!(vals(&flipped.data), vec![(1, 2, 3), (4, 5, 6)]);
}

#[test]
fn flip_v_rows_not_aligned_to_pixels() {
    // rows of 4 bytes (bytes_per_pixel 4, width 1) over 12 bytes: 3 rows
    let data = vec![px(1, 2, 3), px(4, 5, 6), px(7, 8, 9), px(10, 11, 12)];
    let flipped = flip_v(image(1, 3, data), 4);
    // bytes 1..=12 in rows [1..4] [5..8] [9..12] reversed
    assert_eq!(
        vals(&flipped.data),
        vec![(9, 10, 11), (12, 5, 6), (7, 8, 1), (2, 3, 4)]
    );
}

#[test]
fn flip_v_twice_is_identity() {
    let data: Vec<Rgb> = (0..12u8).map(|i| px(i, i.wrapping_mul(3), 255 - i)).collect();
    let orig = vals(&data);
    let once = flip_v(image(3, 4, data), 3);
    let twice = flip_v(once, 3);
    assert_eq!(vals(&twice.data), orig);
}

#[test]
fn read_region_rounds_up_and_flips() {
    let r = gl_read_region(10, 20, 5, 6, 1920, 1080);
    assert_eq!(r, Some(PixelReadRegion { x: 10, y: 1080 - 20 - 8, width: 8, height: 8 }));
    let r = gl_read_region(0, 0, 4, 4, 100, 100);
    assert_eq!(r, Some(PixelReadRegion { x: 0, y: 96, width: 4, height: 4 }));
}

#[test]
fn read_region_rejects_empty_and_offscreen() {
    assert_eq!(gl_read_region(10, 20, 0, 6, 1920, 1080), None);
    assert_eq!(gl_read_region(-1, 20, 5, 6, 1920, 1080), None);
    assert_eq!(gl_read_region(1918, 20, 5, 6, 1920, 1080), None);
    assert_eq!(gl_read_region(10, 1078, 5, 6, 1920, 1080), None);
    assert_eq!(gl_read_region(10, 20, -3, 6, 1920, 1080), None);
}

#[test]
fn frame_pixels_single_pixel_keeps_first() {
    let buf: Vec<u8> = (0..48u8).collect();
    let f = frame_pixels_from_read(&buf, 1, 1);
    assert_eq!(vals(&f.data), vec![(0, 1, 2)]);
    assert_eq!((f.width, f.height), (1, 1));
    let g = frame_pixels_from_read(&buf, 2, 1);
    assert_eq!(g.data.len(), 16);
    assert_eq!((g.width, g.height), (2, 1));
}
