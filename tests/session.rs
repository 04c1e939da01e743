use quirs::decoder::Iter;
use quirs::geom::Vec2D;
use quirs::{Decoder, Error, Image};

#[test]
fn decoder_needs_a_handle() {
    assert!(Decoder::new(true).is_ok());
    assert!(matches!(Decoder::new(false), Err(Error::AllocFailed)));
}

#[test]
fn version_text() {
    assert_eq!(Decoder::version(Some(b"1.2")), "1.2");
    assert_eq!(Decoder::version(None), "");
    assert_eq!(Decoder::version(Some(b"\xff\xfe")), "");
    assert_eq!(Decoder::version(Some(b"")), "");
}

#[test]
fn scan_size_converts_dimensions() {
    let data = vec![0u8; 6];
    let image = Image::new(&data, Vec2D { x: 3, y: 2 }).unwrap();
    assert_eq!(Decoder::scan_size(&image), Ok((3, 2)));
}

#[test]
fn scan_size_rejects_dimensions_past_int_max() {
    let data: Vec<u8> = Vec::new();
    let wide = Image::new(&data, Vec2D { x: i32::MAX as usize + 1, y: 0 }).unwrap();
    assert_eq!(Decoder::scan_size(&wide), Err(Error::IntOverflow));
    let tall = Image::new(&data, Vec2D { x: 0, y: usize::MAX }).unwrap();
    assert_eq!(Decoder::scan_size(&tall), Err(Error::IntOverflow));
}

#[test]
fn resize_failure_is_alloc_failed() {
    let data = vec![0u8; 4];
    let image = Image::new(&data, Vec2D { x: 2, y: 2 }).unwrap();
    let mut decoder = Decoder::new(true).unwrap();
    assert_eq!(decoder.resized(&image, -1), Err(Error::AllocFailed));
    assert_eq!(decoder.resized(&image, 0), Ok(()));
}

#[test]
fn buffer_is_filled_verbatim() {
    let data: Vec<u8> = (0..12u8).collect();
    let image = Image::new(&data, Vec2D { x: 4, y: 3 }).unwrap();
    let mut decoder = Decoder::new(true).unwrap();
    decoder.resized(&image, 0).unwrap();
    let mut buf = vec![0xEEu8; 12];
    decoder.fill_buffer(&mut buf, &image);
    assert_eq!(buf, data);
}

#[test]
fn cursor_yields_each_index_once() {
    let mut decoder = Decoder::new(true).unwrap();
    let mut it = decoder.detections();
    assert_eq!(it.size_hint(3), (3, Some(3)));
    assert_eq!(it.next_index(3), Some(0));
    assert_eq!(it.size_hint(3), (2, Some(2)));
    assert_eq!(it.next_index(3), Some(1));
    assert_eq!(it.size_hint(3), (1, Some(1)));
    assert_eq!(it.next_index(3), Some(2));
    assert_eq!(it.size_hint(3), (0, Some(0)));
    assert_eq!(it.next_index(3), None);
    assert_eq!(it.next_index(3), None);
}

#[test]
fn finished_cursor_stays_finished() {
    let mut it = Iter::new();
    assert_eq!(it.next_index(1), Some(0));
    assert_eq!(it.next_index(1), None);
    assert_eq!(it.next_index(5), None);
    assert_eq!(it.size_hint(5), (0, Some(0)));
}

#[test]
fn remaining_is_clamped_when_count_drops() {
    let mut it = Iter::new();
    assert_eq!(it.next_index(4), Some(0));
    assert_eq!(it.next_index(4), Some(1));
    assert_eq!(it.size_hint(1), (0, Some(0)));
}

#[test]
fn blank_image_scan_yields_no_codes() {
    let data = vec![255u8; 21 * 21];
    let image = Image::new(&data, Vec2D { x: 21, y: 21 }).unwrap();
    let mut decoder = Decoder::new(true).unwrap();
    assert_eq!(Decoder::scan_size(&image), Ok((21, 21)));
    decoder.resized(&image, 0).unwrap();
    let mut buf = vec![0u8; 21 * 21];
    decoder.fill_buffer(&mut buf, &image);
    assert_eq!(buf, data);
    let mut it = decoder.detections();
    assert_eq!(it.size_hint(0), (0, Some(0)));
    assert_eq!(it.next_index(0), None);
}

#[test]
fn mismatched_buffer_never_reaches_the_scan() {
    let data = vec![255u8; 21 * 21 - 1];
    assert_eq!(Image::new(&data, Vec2D { x: 21, y: 21 }), Err(Error::SizeMismatch));
    let longer = vec![255u8; 21 * 21 + 1];
    assert_eq!(Image::new(&longer, Vec2D { x: 21, y: 21 }), Err(Error::SizeMismatch));
}
