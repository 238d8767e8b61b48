use waycore::render::{render_canvas, step_shift, toggle_shift};

#[test]
fn canvas_two_by_two_exact_bytes() {
    // w = 2, h = 2, shift = 0. Channels are a * 255 / d ratios; bytes are
    // blue, green, red, alpha per pixel.
    let v = render_canvas(2, 2, 0);
    assert_eq!(
        v,
        vec![
            0, 0, 255, 255, // (0,0): r=255 g=0 b=0
            0, 127, 127, 255, // (1,0): r=127 g=127 b=0
            127, 0, 127, 255, // (0,1): r=127 g=0 b=127
            127, 127, 127, 255, // (1,1): r=g=b=127
        ]
    );
}

#[test]
fn canvas_single_pixel() {
    let v = render_canvas(1, 1, 0);
    assert_eq!(v, vec![0, 0, 255, 255]);
}

#[test]
fn canvas_shift_rotates_columns() {
    let unshifted = render_canvas(2, 2, 0);
    let shifted = render_canvas(2, 2, 1);
    // Shifting by one column swaps the two columns of each row.
    assert_eq!(&shifted[0..4], &unshifted[4..8]);
    assert_eq!(&shifted[4..8], &unshifted[0..4]);
    // A full wrap restores the frame.
    assert_eq!(render_canvas(2, 2, 2), unshifted);
}

#[test]
fn canvas_length_matches_geometry() {
    assert_eq!(render_canvas(3, 5, 0).len(), 60);
    assert_eq!(render_canvas(5, 3, 4).len(), 60);
}

#[test]
fn toggle_shift_alternates() {
    assert_eq!(toggle_shift(None), Some(0));
    assert_eq!(toggle_shift(Some(0)), None);
    assert_eq!(toggle_shift(Some(17)), None);
}

#[test]
fn step_shift_wraps_at_width() {
    assert_eq!(step_shift(None, 3), None);
    assert_eq!(step_shift(Some(0), 3), Some(1));
    assert_eq!(step_shift(Some(1), 3), Some(2));
    assert_eq!(step_shift(Some(2), 3), Some(0));
    assert_eq!(step_shift(Some(u32::MAX - 1), u32::MAX), Some(0));
}
