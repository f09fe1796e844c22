use gi_ui_app::convert::{argb_to_bgra, bgra_to_argb};

#[test]
fn argb_pixel_is_reversed_to_bgra() {
    let argb = vec![0x11, 0x22, 0x33, 0x44];
    let bgra = argb_to_bgra(&argb);
    assert_eq!(bgra, vec![0x44, 0x33, 0x22, 0x11]);
}

#[test]
fn every_pixel_group_is_reversed() {
    let argb = vec![1, 2, 3, 4, 5, 6, 7, 8];
    let bgra = argb_to_bgra(&argb);
    assert_eq!(bgra, vec![4, 3, 2, 1, 8, 7, 6, 5]);
}

#[test]
fn empty_buffer_converts_to_empty() {
    let out = argb_to_bgra(&Vec::new());
    assert!(out.is_empty());
}

#[test]
fn round_trip_restores_original() {
    let original: Vec<u8> = (0..64u8).collect();
    let there = argb_to_bgra(&original);
    let back = bgra_to_argb(&there);
    assert_eq!(back, original);
}

#[test]
fn opaque_red_becomes_surface_order() {
    // (A,R,G,B) bytes of 0xff_ff0000 convert to B,G,R,A = 00 00 FF FF.
    let argb = vec![0xFF, 0xFF, 0x00, 0x00];
    let bgra = argb_to_bgra(&argb);
    assert_eq!(bgra, vec![0x00, 0x00, 0xFF, 0xFF]);
}
