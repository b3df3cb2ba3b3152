use canonical_png::pixels::dimensions_fit;
use canonical_png::pixels::PixelBuffer;

#[test]
fn dimensions_that_fit() {
    assert!(dimensions_fit(16, 2, 2));
    assert!(dimensions_fit(4, 1, 1));
    assert!(dimensions_fit(24, 3, 2));
    assert!(dimensions_fit(24, 1, 6));
}

#[test]
fn dimensions_that_do_not_fit() {
    assert!(!dimensions_fit(15, 2, 2));
    assert!(!dimensions_fit(17, 2, 2));
    assert!(!dimensions_fit(12, 2, 2));
    assert!(!dimensions_fit(0, 2, 2));
    assert!(!dimensions_fit(4, 2, 2));
}

#[test]
fn empty_dimensions_never_fit() {
    assert!(!dimensions_fit(0, 0, 0));
    assert!(!dimensions_fit(0, 0, 5));
    assert!(!dimensions_fit(0, 5, 0));
    assert!(!dimensions_fit(16, 0, 4));
}

#[test]
fn dimensions_beyond_the_machine_do_not_fit() {
    assert!(!dimensions_fit(usize::MAX, usize::MAX, 2));
    assert!(!dimensions_fit(0, usize::MAX / 2 + 1, 2));
    assert!(!dimensions_fit(0, usize::MAX / 4 + 1, 1));
    assert!(!dimensions_fit(4, usize::MAX, usize::MAX));
}

#[test]
fn pixel_buffer_holds_what_it_was_given() {
    let pixels: Vec<u8> = vec![1, 2, 3, 4, 5, 6, 7, 8];
    let buffer = PixelBuffer::new(pixels.clone(), 2, 1).unwrap();
    assert_eq!(buffer.pixels, pixels);
    assert_eq!(buffer.width, 2);
    assert_eq!(buffer.height, 1);
}

#[test]
fn pixel_buffer_refuses_what_does_not_fit() {
    assert_eq!(PixelBuffer::new(vec![1, 2, 3, 4, 5, 6, 7], 2, 1), None);
    assert_eq!(PixelBuffer::new(vec![], 0, 0), None);
    assert_eq!(PixelBuffer::new(vec![1, 2, 3, 4], 2, 1), None);
}
