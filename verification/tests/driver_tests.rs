use sharpmem::driver::{DisplayDriver, DisplayError};

/// Reads pixel `(x, y)` from the framebuffer mirror: bit `x % 8`
/// (least-significant first) of byte `x / 8` of row `y`.
fn pixel(d: &DisplayDriver, x: usize, y: usize) -> bool {
    (d.buffer[y][x / 8] >> (x % 8)) & 1 == 1
}

#[test]
fn new_builds_cleared_buffer() {
    let d = DisplayDriver::new(16, 3);
    assert_eq!(d.width, 16);
    assert_eq!(d.height, 3);
    assert_eq!(d.buffer.len(), 3);
    for row in &d.buffer {
        assert_eq!(row.len(), 2);
        for &b in row {
            assert_eq!(b, 0xFF);
        }
    }
}

#[test]
fn set_pixel_reads_back_and_leaves_neighbours() {
    let mut d = DisplayDriver::new(16, 2);
    // All bits start set; force pixel (9, 1) off, then on again.
    assert!(d.set_pixel(9, 1, false).is_ok());
    assert!(!pixel(&d, 9, 1));
    // The 7 neighbouring bits of byte 1 of row 1 are still set.
    for x in 8..16 {
        if x != 9 {
            assert!(pixel(&d, x, 1));
        }
    }
    assert_eq!(d.buffer[1][1], 0xFD);
    assert_eq!(d.buffer[1][0], 0xFF);
    assert_eq!(d.buffer[0][1], 0xFF);

    assert!(d.set_pixel(9, 1, true).is_ok());
    assert!(pixel(&d, 9, 1));
    assert_eq!(d.buffer[1][1], 0xFF);
}

#[test]
fn set_pixel_out_of_bounds_errors_and_mutates_nothing() {
    let mut d = DisplayDriver::new(16, 2);
    d.set_pixel(5, 0, false).unwrap();
    let snapshot = d.buffer.clone();
    assert_eq!(d.set_pixel(16, 0, true), Err(DisplayError::OutOfBounds));
    assert_eq!(d.set_pixel(0, 2, true), Err(DisplayError::OutOfBounds));
    assert_eq!(d.set_pixel(16, 2, false), Err(DisplayError::OutOfBounds));
    assert_eq!(d.buffer, snapshot);
}

#[test]
fn clear_buffer_yields_all_ff() {
    let mut d = DisplayDriver::new(16, 3);
    for x in 0..16 {
        d.set_pixel(x, 1, false).unwrap();
    }
    d.set_pixel(0, 0, false).unwrap();
    d.clear_buffer();
    for row in &d.buffer {
        for &b in row {
            assert_eq!(b, 0xFF);
        }
    }
}

#[test]
fn clear_buffer_twice_equals_once() {
    let mut d = DisplayDriver::new(16, 2);
    for x in 0..16 {
        d.set_pixel(x, 0, false).unwrap();
    }
    d.clear_buffer();
    let once = d.buffer.clone();
    d.clear_buffer();
    assert_eq!(d.buffer, once);
}

#[test]
fn polarity_flips_on_every_transmission() {
    let mut d = DisplayDriver::new(8, 1);
    const VCOM: u8 = 0b00000010;
    // Each frame carries the polarity as it stood before that call's
    // toggle: after an odd number of transmissions it reads flipped,
    // after an even number restored.
    let f1 = d.clear_display();
    assert_eq!(f1[0] & VCOM, 0);
    let f2 = d.refresh();
    assert_eq!(f2[0] & VCOM, VCOM);
    let f3 = d.refresh_line(0).unwrap();
    assert_eq!(f3[0] & VCOM, 0);
    let f4 = d.clear_display();
    assert_eq!(f4[0] & VCOM, VCOM);
    let f5 = d.refresh();
    assert_eq!(f5[0] & VCOM, 0);
}

#[test]
fn clear_display_frame_leaves_mirror_alone() {
    let mut d = DisplayDriver::new(8, 1);
    d.set_pixel(3, 0, false).unwrap();
    let snapshot = d.buffer.clone();
    let frame = d.clear_display();
    assert_eq!(frame, vec![0x04, 0x00]);
    assert_eq!(d.buffer, snapshot);
    // Second call: same command flag, polarity bit now set.
    let frame2 = d.clear_display();
    assert_eq!(frame2, vec![0x06, 0x00]);
}

#[test]
fn refresh_frame_exact_bytes() {
    let mut d = DisplayDriver::new(8, 2);
    // Row 0 becomes [0x00], row 1 stays [0xFF].
    for x in 0..8 {
        d.set_pixel(x, 0, false).unwrap();
    }
    let frame = d.refresh();
    assert_eq!(frame, vec![0x01, 0x01, 0x00, 0x00, 0x02, 0xFF, 0x00, 0x00]);
}

#[test]
fn refresh_line_frame_exact_bytes() {
    let mut d = DisplayDriver::new(16, 2);
    d.set_pixel(8, 1, false).unwrap();
    let frame = d.refresh_line(1).unwrap();
    // Command, 1-based address, the row's two bytes, two trailing zeros.
    assert_eq!(frame, vec![0x01, 0x02, 0xFF, 0xFE, 0x00, 0x00]);
}

#[test]
fn refresh_line_bounds_are_exclusive() {
    let mut d = DisplayDriver::new(8, 2);
    // No row exists for the height itself, nor past it.
    assert_eq!(d.refresh_line(2).unwrap_err(), DisplayError::OutOfBounds);
    assert_eq!(d.refresh_line(3).unwrap_err(), DisplayError::OutOfBounds);
    // A rejected call does not toggle the polarity: the next frame
    // still carries the initial (unset) polarity bit.
    let frame = d.refresh_line(1).unwrap();
    assert_eq!(frame[0], 0x01);
}
