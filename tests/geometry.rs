use quirs::error::DecodingErrorKind;
use quirs::info::DataType;
use quirs::quirc_sys::{quirc_code, quirc_data, quirc_point, QUIRC_MAX_BITMAP, QUIRC_MAX_PAYLOAD};
use quirs::{Error, Image, QrCode, Vec2D};

fn point(x: i32, y: i32) -> quirc_point {
    quirc_point { x, y }
}

fn raw_code(size: i32) -> quirc_code {
    quirc_code {
        corners: [point(10, 10), point(50, 10), point(50, 50), point(10, 50)],
        size,
        cell_bitmap: [0u8; QUIRC_MAX_BITMAP],
    }
}

#[test]
fn image_accepts_matching_buffer() {
    let data = vec![255u8; 21 * 21];
    let image = Image::new(&data, Vec2D { x: 21, y: 21 }).unwrap();
    assert_eq!(image.width(), 21);
    assert_eq!(image.height(), 21);
    assert_eq!(image.data(), &data[..]);
}

#[test]
fn image_rejects_mismatched_buffer() {
    let data = vec![0u8; 20];
    assert_eq!(Image::new(&data, Vec2D { x: 3, y: 7 }), Err(Error::SizeMismatch));
    assert_eq!(Image::new(&data, Vec2D { x: 0, y: 5 }), Err(Error::SizeMismatch));
    let empty: Vec<u8> = Vec::new();
    assert!(Image::new(&empty, Vec2D { x: 0, y: 5 }).is_ok());
}

#[test]
fn image_rejects_dimensions_whose_product_overflows() {
    let data = vec![0u8; 4];
    assert_eq!(Image::new(&data, Vec2D { x: usize::MAX, y: 2 }), Err(Error::SizeMismatch));
}

#[test]
fn point_from_raw() {
    assert_eq!(Vec2D::from_raw(point(3, 4)), Ok(Vec2D { x: 3, y: 4 }));
    assert_eq!(Vec2D::from_raw(point(-1, 4)), Err(Error::IntOverflow));
    assert_eq!(Vec2D::from_raw(point(3, -4)), Err(Error::IntOverflow));
}

#[test]
fn located_code_exposes_corners_and_size() {
    let code = QrCode::from_raw(raw_code(21)).unwrap();
    assert_eq!(code.size(), 21);
    assert_eq!(code.top_left_corner(), Vec2D { x: 10, y: 10 });
    assert_eq!(code.top_right_corner(), Vec2D { x: 50, y: 10 });
    assert_eq!(code.bottom_right_corner(), Vec2D { x: 50, y: 50 });
    assert_eq!(code.bottom_left_corner(), Vec2D { x: 10, y: 50 });
}

#[test]
fn located_code_rejects_negative_values() {
    assert!(matches!(QrCode::from_raw(raw_code(-1)), Err(Error::IntOverflow)));
    let mut raw = raw_code(21);
    raw.corners[2] = point(5, -2);
    assert!(matches!(QrCode::from_raw(raw), Err(Error::IntOverflow)));
}

#[test]
fn located_code_rejects_grid_larger_than_bitmap() {
    assert!(QrCode::from_raw(raw_code(177)).is_ok());
    assert!(matches!(QrCode::from_raw(raw_code(178)), Err(Error::IntOverflow)));
    assert!(matches!(QrCode::from_raw(raw_code(i32::MAX)), Err(Error::IntOverflow)));
}

#[test]
fn bitmap_length_follows_size() {
    for (size, len) in [(0, 0usize), (1, 1), (3, 2), (21, 56), (177, 3917)] {
        let code = QrCode::from_raw(raw_code(size)).unwrap();
        assert_eq!(code.bitmap().len(), len);
        assert_eq!(code.bitmap().len(), (code.size() * code.size() + 7) / 8);
    }
}

#[test]
fn bitmap_is_the_prefix_of_the_raw_buffer() {
    let mut raw = raw_code(3);
    raw.cell_bitmap[0] = 0xA5;
    raw.cell_bitmap[1] = 0x01;
    raw.cell_bitmap[2] = 0xFF;
    let code = QrCode::from_raw(raw).unwrap();
    assert_eq!(code.bitmap(), &[0xA5u8, 0x01][..]);
}

#[test]
fn cells_are_read_lsb_first_row_major() {
    let mut raw = raw_code(3);
    raw.cell_bitmap[0] = 0b0000_0101;
    raw.cell_bitmap[1] = 0b0000_0001;
    let code = QrCode::from_raw(raw).unwrap();
    assert_eq!(code.get(Vec2D { x: 0, y: 0 }), Some(true));
    assert_eq!(code.get(Vec2D { x: 1, y: 0 }), Some(false));
    assert_eq!(code.get(Vec2D { x: 2, y: 0 }), Some(true));
    assert_eq!(code.get(Vec2D { x: 0, y: 1 }), Some(false));
    assert_eq!(code.get(Vec2D { x: 2, y: 2 }), Some(true));
    assert_eq!(code.get(Vec2D { x: 1, y: 2 }), Some(false));
    assert!(code.bit_at(Vec2D { x: 2, y: 2 }));
    assert!(!code.bit_at(Vec2D { x: 1, y: 1 }));
}

#[test]
fn cells_outside_the_grid_are_none() {
    let code = QrCode::from_raw(raw_code(3)).unwrap();
    assert_eq!(code.get(Vec2D { x: 3, y: 0 }), None);
    assert_eq!(code.get(Vec2D { x: 0, y: 3 }), None);
    assert_eq!(code.get(Vec2D { x: usize::MAX, y: usize::MAX }), None);
    let empty = QrCode::from_raw(raw_code(0)).unwrap();
    assert_eq!(empty.get(Vec2D { x: 0, y: 0 }), None);
}

#[test]
fn located_code_keeps_its_raw_record() {
    let mut raw = raw_code(21);
    raw.cell_bitmap[7] = 9;
    let code = QrCode::from_raw(raw).unwrap();
    assert_eq!(code.raw().size, 21);
    assert_eq!(code.raw().cell_bitmap[7], 9);
    assert_eq!(code.raw().corners[1], point(50, 10));
}

fn text_data(text: &[u8]) -> quirc_data {
    let mut payload = [0u8; QUIRC_MAX_PAYLOAD];
    payload[..text.len()].copy_from_slice(text);
    quirc_data {
        version: 1,
        ecc_level: 1,
        mask: 2,
        data_type: 4,
        payload,
        payload_len: text.len() as i32,
        eci: 0,
    }
}

#[test]
fn decode_success_yields_info() {
    let info = QrCode::decode(0, &text_data(b"TEST")).unwrap();
    assert_eq!(info.payload(), b"TEST");
    assert_eq!(info.data_type(), DataType::Byte);
    assert_eq!(info.as_str(), Ok("TEST"));
}

#[test]
fn decode_failure_carries_the_kind() {
    let data = text_data(b"TEST");
    assert_eq!(
        QrCode::decode(4, &data),
        Err(Error::DecodingFailed(DecodingErrorKind::DataEcc))
    );
    assert_eq!(
        QrCode::decode(1, &data),
        Err(Error::DecodingFailed(DecodingErrorKind::InvalidGridSize))
    );
    assert_eq!(
        QrCode::decode(42, &data),
        Err(Error::DecodingFailed(DecodingErrorKind::Unknown))
    );
    assert_eq!(
        QrCode::decode(-1, &data),
        Err(Error::DecodingFailed(DecodingErrorKind::Unknown))
    );
}
