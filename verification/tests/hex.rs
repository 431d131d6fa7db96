use gfxmath::hex::{unpack_argb, unpack_bgr, unpack_rgb, unpack_rgba};

#[test]
fn rgb_channels() {
    assert_eq!(unpack_rgb(0xFF0000), [255, 0, 0, 255]);
    assert_eq!(unpack_rgb(0x00FF00), [0, 255, 0, 255]);
    assert_eq!(unpack_rgb(0x0000FF), [0, 0, 255, 255]);
    assert_eq!(unpack_rgb(0xFFFFFF), [255, 255, 255, 255]);
    assert_eq!(unpack_rgb(0x123456), [0x12, 0x34, 0x56, 255]);
}

#[test]
fn rgb_ignores_most_significant_byte() {
    assert_eq!(unpack_rgb(0xAA123456), unpack_rgb(0x123456));
    assert_eq!(unpack_bgr(0xAA123456), unpack_bgr(0x123456));
}

#[test]
fn bgr_channels() {
    assert_eq!(unpack_bgr(0x0000FF), [255, 0, 0, 255]);
    assert_eq!(unpack_bgr(0x00FF00), [0, 255, 0, 255]);
    assert_eq!(unpack_bgr(0xFF0000), [0, 0, 255, 255]);
    assert_eq!(unpack_bgr(0xFFFFFF), [255, 255, 255, 255]);
}

#[test]
fn rgba_channels() {
    assert_eq!(unpack_rgba(0xFF000000), [255, 0, 0, 0]);
    assert_eq!(unpack_rgba(0x00FF0000), [0, 255, 0, 0]);
    assert_eq!(unpack_rgba(0x0000FF00), [0, 0, 255, 0]);
    assert_eq!(unpack_rgba(0x000000FF), [0, 0, 0, 255]);
    assert_eq!(unpack_rgba(0xFFFFFFFF), [255, 255, 255, 255]);
}

#[test]
fn argb_channels() {
    assert_eq!(unpack_argb(0x00FF0000), [255, 0, 0, 0]);
    assert_eq!(unpack_argb(0x0000FF00), [0, 255, 0, 0]);
    assert_eq!(unpack_argb(0x000000FF), [0, 0, 255, 0]);
    assert_eq!(unpack_argb(0xFF000000), [0, 0, 0, 255]);
    assert_eq!(unpack_argb(0xFFFFFFFF), [255, 255, 255, 255]);
}

#[test]
fn channels_map_to_unit_interval() {
    // The shell divides each channel byte by 255; the packed extremes land
    // exactly on 0.0 and 1.0.
    let c = unpack_rgb(0xFF0000);
    let r = c[0] as f32 / 255.0;
    let g = c[1] as f32 / 255.0;
    assert_eq!(r, 1.0);
    assert_eq!(g, 0.0);
}
