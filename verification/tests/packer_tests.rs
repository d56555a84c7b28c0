use glyph_atlas::AtlasPacker;
use glyph_atlas::Rect;

#[test]
fn allocate_places_left_to_right() {
    let mut p = AtlasPacker::new(100, 50);
    let a = p.allocate(30, 20).unwrap();
    assert_eq!(a, Rect { x0: 0, y0: 0, x1: 30, y1: 20 });
    let b = p.allocate(40, 10).unwrap();
    assert_eq!(b, Rect { x0: 30, y0: 0, x1: 70, y1: 10 });
}

#[test]
fn allocate_wraps_to_new_row_at_shelf_height() {
    let mut p = AtlasPacker::new(100, 100);
    let a = p.allocate(60, 20).unwrap();
    assert_eq!(a.y0, 0);
    let b = p.allocate(30, 25).unwrap();
    assert_eq!(b.y0, 0);
    // 60 + 30 + 60 exceeds the canvas width: the next rectangle starts a
    // new shelf at the tallest height placed in the previous one, not at 0.
    let c = p.allocate(60, 10).unwrap();
    assert_eq!(c, Rect { x0: 0, y0: 25, x1: 60, y1: 35 });
}

#[test]
fn allocate_zero_by_zero_leaves_cursor_alone() {
    let mut p = AtlasPacker::new(100, 100);
    let a = p.allocate(10, 10).unwrap();
    assert_eq!(a, Rect { x0: 0, y0: 0, x1: 10, y1: 10 });
    let d = p.allocate(0, 0).unwrap();
    assert_eq!(d, Rect { x0: 10, y0: 0, x1: 10, y1: 0 });
    // The degenerate request must not have advanced the cursor.
    let b = p.allocate(10, 10).unwrap();
    assert_eq!(b, Rect { x0: 10, y0: 0, x1: 20, y1: 10 });
}

#[test]
fn allocate_fails_when_canvas_is_exhausted() {
    let mut p = AtlasPacker::new(40, 30);
    assert!(p.allocate(40, 20).is_some());
    // A second full-width row of height 20 would end at 40 > 30.
    assert_eq!(p.allocate(40, 20), None);
    // A shorter row still fits.
    assert!(p.allocate(40, 10).is_some());
}

#[test]
fn allocate_fails_for_oversized_request() {
    let mut p = AtlasPacker::new(64, 64);
    assert_eq!(p.allocate(65, 1), None);
    assert_eq!(p.allocate(1, 65), None);
    // Failure leaves the packer untouched.
    let a = p.allocate(64, 64).unwrap();
    assert_eq!(a, Rect { x0: 0, y0: 0, x1: 64, y1: 64 });
}

#[test]
fn placed_regions_stay_disjoint_and_in_canvas() {
    let mut p = AtlasPacker::new(50, 200);
    let mut placed: Vec<Rect> = Vec::new();
    let sizes = [(20u32, 8u32), (20, 12), (20, 4), (30, 8), (10, 16), (40, 2), (15, 15)];
    for (w, h) in sizes {
        placed.push(p.allocate(w, h).unwrap());
    }
    for r in &placed {
        assert!(r.x0 <= r.x1 && r.y0 <= r.y1);
        assert!(r.x1 <= 50 && r.y1 <= 200);
    }
    for i in 0..placed.len() {
        for j in 0..placed.len() {
            if i != j {
                let a = &placed[i];
                let b = &placed[j];
                let x_overlap = a.x0 < b.x1 && b.x0 < a.x1;
                let y_overlap = a.y0 < b.y1 && b.y0 < a.y1;
                assert!(!(x_overlap && y_overlap));
            }
        }
    }
}

#[test]
fn cursor_moves_down_only() {
    let mut p = AtlasPacker::new(30, 1000);
    let mut last_y0 = 0u32;
    for i in 0..20u32 {
        let w = 10 + (i * 7) % 20;
        let h = 1 + (i * 3) % 9;
        let r = p.allocate(w, h).unwrap();
        assert!(r.y0 >= last_y0);
        last_y0 = r.y0;
    }
}
