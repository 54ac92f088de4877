use z_color_picker::clipboard::{clipboard_copy_action, ppm_image_text, write_color_ppm, ClipboardCopyAction};
use z_color_picker::color::{format_color_as, Color32};
use z_color_picker::common::ColorStringCopy;
use z_color_picker::image_processing::{FramePixelRead, Rgb};

#[test]
fn hex_with_and_without_alpha() {
    let c = Color32::from_rgba(0x1a, 0xb2, 0x03, 0xfe);
    assert_eq!(format_color_as(c, ColorStringCopy::HEX, None), "FE1AB203");
    assert_eq!(format_color_as(c, ColorStringCopy::HEX, Some(false)), "FE1AB203");
    assert_eq!(format_color_as(c, ColorStringCopy::HEX, Some(true)), "1AB203");
    assert_eq!(format_color_as(c, ColorStringCopy::HEXNOA, None), "1AB203");
    assert_eq!(format_color_as(c, ColorStringCopy::HEXNOA, Some(false)), "1AB203");
}

#[test]
fn other_formats_fall_back_to_rgb_call() {
    let c = Color32::from_rgb(0, 7, 255);
    assert_eq!(format_color_as(c, ColorStringCopy::RGB, None), "RGB(0, 7, 255)");
    assert_eq!(format_color_as(c, ColorStringCopy::HSV, Some(true)), "RGB(0, 7, 255)");
    assert_eq!(format_color_as(c, ColorStringCopy::SRGBA, None), "RGB(0, 7, 255)");
    assert_eq!(format_color_as(Color32::from_rgb(10, 99, 100), ColorStringCopy::FLOAT, None), "RGB(10, 99, 100)");
}

#[test]
fn color_accessors() {
    let c = Color32::from_rgb(1, 2, 3);
    assert_eq!((c.r(), c.g(), c.b(), c.a()), (1, 2, 3, 255));
    assert_eq!(ColorStringCopy::default(), ColorStringCopy::HEXNOA);
}

#[test]
fn ppm_line_per_pixel() {
    let mut s = String::from("P3\n");
    write_color_ppm(&mut s, (0, 128, 255));
    assert_eq!(s, "P3\n0 128 255\n");
    write_color_ppm(&mut s, (9, 10, 99));
    assert_eq!(s, "P3\n0 128 255\n9 10 99\n");
}

#[test]
fn ppm_image_text_has_header_and_lines() {
    let pixels = vec![Rgb { val: (1, 2, 3) }, Rgb { val: (200, 100, 0) }];
    assert_eq!(ppm_image_text(2, 1, &pixels), "P3\n2 1\n255\n1 2 3\n200 100 0\n");
    assert_eq!(ppm_image_text(1920, 0, &[]), "P3\n1920 0\n255\n");
}

#[test]
fn clipboard_single_pixel_is_a_color() {
    let fp = FramePixelRead { width: 1, height: 1, data: vec![Rgb { val: (4, 5, 6) }] };
    match clipboard_copy_action(Some(fp)) {
        ClipboardCopyAction::CopyColor(c) => assert_eq!(c, Color32::from_rgb(4, 5, 6)),
        _ => panic!("expected a colour"),
    }
}

#[test]
fn clipboard_several_pixels_are_an_image() {
    let fp = FramePixelRead {
        width: 2,
        height: 1,
        data: vec![Rgb { val: (4, 5, 6) }, Rgb { val: (7, 8, 9) }],
    };
    match clipboard_copy_action(Some(fp)) {
        ClipboardCopyAction::CopyImage { width, height, bytes } => {
            assert_eq!((width, height), (2, 1));
            assert_eq!(bytes, vec![4, 5, 6, 255, 7, 8, 9, 255]);
        }
        _ => panic!("expected an image"),
    }
}

#[test]
fn clipboard_nothing_to_copy() {
    assert!(matches!(clipboard_copy_action(None), ClipboardCopyAction::Nothing));
    let fp = FramePixelRead { width: 0, height: 0, data: vec![] };
    assert!(matches!(clipboard_copy_action(Some(fp)), ClipboardCopyAction::Nothing));
}
