use agpu::{render_region, BufferInitContent, ClipRect};

fn rect(min_x: i64, min_y: i64, max_x: i64, max_y: i64) -> ClipRect {
    ClipRect { min_x, min_y, max_x, max_y }
}

#[test]
fn region_inside_the_target_is_kept() {
    assert_eq!(render_region(&rect(10, 20, 30, 60), 100, 100), Some((10, 20, 20, 40)));
}

#[test]
fn region_is_clipped_to_the_target() {
    assert_eq!(render_region(&rect(-5, 10, 50, 300), 100, 200), Some((0, 10, 50, 190)));
}

#[test]
fn empty_region_keeps_one_pixel() {
    assert_eq!(render_region(&rect(40, 40, 40, 30), 100, 100), Some((40, 40, 1, 1)));
}

#[test]
fn region_past_the_far_edge_has_no_width() {
    assert_eq!(render_region(&rect(120, 10, 150, 20), 100, 200), Some((100, 10, 0, 10)));
}

#[test]
fn target_without_pixels_gives_no_region() {
    assert_eq!(render_region(&rect(0, 0, 1, 1), 0, 200), None);
    assert_eq!(render_region(&rect(0, 0, 1, 1), 200, 0), None);
}

#[test]
fn buffer_content_variants() {
    let data = [1_u8, 2, 3];
    match BufferInitContent::Data(&data) {
        BufferInitContent::Data(d) => assert_eq!(d.len(), 3),
        BufferInitContent::Size(_) => unreachable!(),
    }
    match BufferInitContent::Size(64) {
        BufferInitContent::Size(s) => assert_eq!(s, 64),
        BufferInitContent::Data(_) => unreachable!(),
    }
}
