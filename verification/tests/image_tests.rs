use glyph_atlas::AtlasImage;

#[test]
fn new_image_is_zeroed() {
    let img = AtlasImage::new(8, 4);
    assert_eq!(img.width(), 8);
    assert_eq!(img.height(), 4);
    let bytes = img.as_bytes();
    assert_eq!(bytes.len(), 32);
    assert!(bytes.iter().all(|&b| b == 0));
}

#[test]
fn blit_copies_bitmap_row_major() {
    let mut img = AtlasImage::new(8, 4);
    let src = vec![1u8, 2, 3, 4, 5, 6];
    img.blit(&src, 3, 2, 2, 1);
    let bytes = img.as_bytes();
    // Row 1, columns 2..5 hold the first source row.
    assert_eq!(&bytes[8 + 2..8 + 5], &[1, 2, 3]);
    // Row 2, columns 2..5 hold the second source row.
    assert_eq!(&bytes[16 + 2..16 + 5], &[4, 5, 6]);
    // Everything else is untouched.
    let written: Vec<usize> = vec![10, 11, 12, 18, 19, 20];
    for i in 0..32 {
        if !written.contains(&i) {
            assert_eq!(bytes[i], 0, "pixel {} should be untouched", i);
        }
    }
}

#[test]
fn blit_twice_keeps_both_regions() {
    let mut img = AtlasImage::new(6, 2);
    img.blit(&vec![9u8, 9], 2, 1, 0, 0);
    img.blit(&vec![7u8, 7], 2, 1, 4, 1);
    let bytes = img.as_bytes();
    assert_eq!(bytes[0], 9);
    assert_eq!(bytes[1], 9);
    assert_eq!(bytes[6 + 4], 7);
    assert_eq!(bytes[6 + 5], 7);
    assert_eq!(bytes[2], 0);
}

#[test]
fn blit_empty_bitmap_changes_nothing() {
    let mut img = AtlasImage::new(4, 4);
    let src: Vec<u8> = Vec::new();
    img.blit(&src, 0, 0, 2, 2);
    assert!(img.as_bytes().iter().all(|&b| b == 0));
}
