use gi_ui_app::pixel::PixelBuffer;

#[test]
fn create_allocates_four_bytes_per_pixel() {
    let buf = PixelBuffer::create(7, 9);
    assert_eq!(buf.width(), 7);
    assert_eq!(buf.height(), 9);
    assert_eq!(buf.raw_bytes().len(), 7 * 9 * 4);
}

#[test]
fn create_is_zero_initialized() {
    let buf = PixelBuffer::create(5, 3);
    assert!(buf.raw_bytes().iter().all(|&b| b == 0));
}

#[test]
fn create_one_by_one() {
    let buf = PixelBuffer::create(1, 1);
    assert_eq!(buf.raw_bytes().len(), 4);
}

#[test]
fn fill_sets_every_byte() {
    let mut buf = PixelBuffer::create(4, 4);
    buf.fill(0xAB);
    assert_eq!(buf.raw_bytes().len(), 4 * 4 * 4);
    assert!(buf.raw_bytes().iter().all(|&b| b == 0xAB));
}

#[test]
fn resize_then_fill_is_all_zero() {
    let mut buf = PixelBuffer::create(2, 2);
    buf.fill(0xFF);
    buf.resize(6, 5);
    buf.fill(0);
    assert_eq!(buf.raw_bytes().len(), 6 * 5 * 4);
    assert!(buf.raw_bytes().iter().all(|&b| b == 0));
}

#[test]
fn resize_changes_dimensions() {
    let mut buf = PixelBuffer::create(3, 3);
    buf.resize(10, 2);
    assert_eq!(buf.width(), 10);
    assert_eq!(buf.height(), 2);
    assert_eq!(buf.raw_bytes().len(), 10 * 2 * 4);
}

#[test]
fn set_pixel_writes_argb_bytes() {
    let mut buf = PixelBuffer::create(2, 1);
    buf.set_pixel(1, 0xAABBCCDD);
    let bytes = buf.raw_bytes();
    assert_eq!(&bytes[0..4], &[0, 0, 0, 0]);
    assert_eq!(&bytes[4..8], &[0xAA, 0xBB, 0xCC, 0xDD]);
}
