use grove::ui::backdrop::{shown, texture, Art};

/// Two pixels side by side, the second half transparent.
const PNG: [u8; 74] = [
    137, 80, 78, 71, 13, 10, 26, 10, 0, 0, 0, 13,
    73, 72, 68, 82, 0, 0, 0, 2, 0, 0, 0, 1,
    8, 6, 0, 0, 0, 244, 34, 127, 138, 0, 0, 0,
    17, 73, 68, 65, 84, 120, 156, 99, 96, 100, 98, 254,
    207, 37, 34, 215, 0, 0, 6, 76, 1, 194, 68, 159,
    130, 159, 0, 0, 0, 0, 73, 69, 78, 68, 174, 66,
    96, 130,
];

#[test]
fn a_png_is_read_as_its_pixels() {
    assert_eq!(
        texture(&PNG.to_vec()),
        Some(Art { width: 2, height: 1, pixels: vec![1, 2, 3, 255, 10, 20, 30, 128] })
    );
}

#[test]
fn what_is_no_picture_is_not_drawn() {
    assert_eq!(texture(&Vec::new()), None);
    assert_eq!(texture(&b"not a picture".to_vec()), None);
    let mut cut = PNG.to_vec();
    cut.truncate(20);
    assert_eq!(texture(&cut), None);
    assert_eq!(shown(Some(Art { width: 0, height: 3, pixels: Vec::new() })), None);
    assert_eq!(shown(Some(Art { width: 3, height: 0, pixels: Vec::new() })), None);
    assert_eq!(shown(None), None);
}
