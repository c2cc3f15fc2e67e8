use headunit::sh1122::Sh1122;

#[test]
fn set_pixel_then_read_gives_clamped_value() {
    let mut d = Sh1122::new(0x3C);
    d.set_pixel(10, 20, 7);
    assert_eq!(d.get_pixel(10, 20), 7);
    d.set_pixel(11, 20, 200);
    assert_eq!(d.get_pixel(11, 20), 15);
    d.set_pixel(0, 0, 16);
    assert_eq!(d.get_pixel(0, 0), 15);
    d.set_pixel(0, 0, 15);
    assert_eq!(d.get_pixel(0, 0), 15);
}

#[test]
fn neighbouring_nibble_is_preserved() {
    let mut d = Sh1122::new(0x3C);
    d.set_pixel(10, 20, 7);
    d.set_pixel(11, 20, 3);
    assert_eq!(d.get_pixel(10, 20), 7);
    assert_eq!(d.get_pixel(11, 20), 3);
}

#[test]
fn out_of_range_pixels_leave_framebuffer_unchanged() {
    let mut d = Sh1122::new(0x3C);
    d.set_pixel(5, 5, 9);
    let before = d.buffer.clone();
    d.set_pixel(256, 5, 9);
    d.set_pixel(5, 64, 9);
    d.set_pixel(1000, 1000, 9);
    assert_eq!(d.buffer, before);
}

#[test]
fn vertical_flip_maps_logical_rows_to_opposite_byte_regions() {
    let mut d = Sh1122::new(0x3C);
    d.set_pixel(0, 0, 15);
    // Logical row 0 lands in the byte region of physical row 63.
    let changed: Vec<usize> = (0..8192).filter(|&i| d.buffer[i] != 0).collect();
    assert_eq!(changed.len(), 1);
    assert!(changed[0] >= 63 * 128 && changed[0] < 64 * 128);

    let mut d = Sh1122::new(0x3C);
    d.set_pixel(0, 63, 15);
    let changed: Vec<usize> = (0..8192).filter(|&i| d.buffer[i] != 0).collect();
    assert_eq!(changed.len(), 1);
    assert!(changed[0] < 128);
}

#[test]
fn even_column_takes_high_nibble() {
    let mut d = Sh1122::new(0x3C);
    d.set_pixel(0, 0, 0x0A);
    d.set_pixel(1, 0, 0x05);
    // Physical row 63, first byte: high nibble from x=0, low from x=1.
    assert_eq!(d.buffer[63 * 128], 0xA5);
}

#[test]
fn init_frames_match_the_panel_power_up_sequence() {
    let d = Sh1122::new(0x3C);
    let frames = d.init();
    let expected: Vec<Vec<u8>> = vec![
        vec![0x00, 0xAE, 0xD5],
        vec![0x00, 0x80, 0xA8],
        vec![0x00, 0x3F, 0xD3],
        vec![0x00, 0x00, 0x40],
        vec![0x00, 0xAD, 0x8B],
        vec![0x00, 0xA0, 0xC8],
        vec![0x00, 0xDA, 0x12],
        vec![0x00, 0x81, 0x7F],
        vec![0x00, 0xD9, 0xF1],
        vec![0x00, 0xDB, 0x40],
        vec![0x00, 0xA4, 0xAF],
    ];
    assert_eq!(frames, expected);
}

#[test]
fn flush_emits_eight_pages_whose_payloads_reconstruct_the_framebuffer() {
    let mut d = Sh1122::new(0x3C);
    for x in 0..256 {
        for y in 0..64 {
            d.set_pixel(x, y, ((x + y) % 16) as u8);
        }
    }
    let frames = d.flush();
    assert_eq!(frames.len(), 32);
    let mut reconstructed: Vec<u8> = Vec::new();
    for page in 0..8u8 {
        let base = 4 * page as usize;
        assert_eq!(frames[base], vec![0x00, 0xB0 + page]);
        assert_eq!(frames[base + 1], vec![0x00, 0x00]);
        assert_eq!(frames[base + 2], vec![0x00, 0x10]);
        assert_eq!(frames[base + 3].len(), 1025);
        assert_eq!(frames[base + 3][0], 0x40);
        reconstructed.extend_from_slice(&frames[base + 3][1..]);
    }
    assert_eq!(reconstructed, d.buffer);
}

#[test]
fn clear_zeroes_everything_without_transmitting() {
    let mut d = Sh1122::new(0x3C);
    d.set_pixel(100, 30, 12);
    d.clear();
    assert!(d.buffer.iter().all(|&b| b == 0));
    assert_eq!(d.buffer.len(), 8192);
}
