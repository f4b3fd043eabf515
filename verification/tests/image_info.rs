use iced_webview::image_info::bgra_to_rgba;
use iced_webview::{ImageInfo, PixelFormat};

#[test]
fn blank_frame_is_white() {
    let frame = ImageInfo::blank(3, 2);
    assert_eq!(frame.image_width(), 3);
    assert_eq!(frame.image_height(), 2);
    let pixels = frame.pixels();
    assert_eq!(pixels.len(), 3 * 2 * 4);
    assert!(pixels.iter().all(|&b| b == 255));
}

#[test]
fn blank_frame_of_zero_size_is_empty() {
    let frame = ImageInfo::blank(0, 5);
    assert_eq!(frame.pixels().len(), 0);
}

#[test]
fn default_frame_is_white_800_by_800() {
    let frame = ImageInfo::default();
    assert_eq!(frame.image_width(), 800);
    assert_eq!(frame.image_height(), 800);
    let pixels = frame.pixels();
    assert_eq!(pixels.len(), 800 * 800 * 4);
    assert!(pixels.iter().all(|&b| b == 255));
}

#[test]
fn rgba_pixels_are_kept() {
    let frame = ImageInfo::new(vec![1, 2, 3, 4, 5, 6, 7, 8], PixelFormat::Rgba, 2, 1);
    assert_eq!(*frame.pixels(), vec![1, 2, 3, 4, 5, 6, 7, 8]);
    assert_eq!(frame.image_width(), 2);
    assert_eq!(frame.image_height(), 1);
}

#[test]
fn bgra_pixels_are_reordered() {
    let frame = ImageInfo::new(vec![1, 2, 3, 4, 5, 6, 7, 8], PixelFormat::Bgra, 2, 1);
    assert_eq!(*frame.pixels(), vec![3, 2, 1, 4, 7, 6, 5, 8]);
}

#[test]
fn swapping_twice_restores() {
    let given = vec![10u8, 20, 30, 40, 50, 60, 70, 80, 90, 100, 110, 120];
    let mut pixels = given.clone();
    bgra_to_rgba(&mut pixels);
    assert_eq!(pixels, vec![30, 20, 10, 40, 70, 60, 50, 80, 110, 100, 90, 120]);
    bgra_to_rgba(&mut pixels);
    assert_eq!(pixels, given);
}

#[test]
fn handle_is_shared_by_copies() {
    let frame = ImageInfo::blank(1, 1);
    assert!(frame.as_handle() == frame.as_handle());
    let other = ImageInfo::blank(1, 1);
    assert!(frame.as_handle() != other.as_handle());
}

fn handle_content(frame: &ImageInfo) -> (u32, u32, Vec<u8>) {
    match frame.as_handle() {
        iced::advanced::image::Handle::Rgba { width, height, pixels, .. } => {
            (width, height, pixels.to_vec())
        }
        _ => panic!("a frame's handle holds RGBA pixels"),
    }
}

#[test]
fn handle_holds_the_frame() {
    let frame = ImageInfo::new(vec![1, 2, 3, 4, 5, 6, 7, 8], PixelFormat::Bgra, 1, 2);
    assert_eq!(handle_content(&frame), (1, 2, vec![3, 2, 1, 4, 7, 6, 5, 8]));
    let blank = ImageInfo::blank(2, 1);
    assert_eq!(handle_content(&blank), (2, 1, vec![255; 8]));
}
