use spongify::canvas::{Color, RgbaCanvas};

fn color(r: u8, g: u8, b: u8, a: u8) -> Color {
    Color { r, g, b, a }
}

#[test]
fn white_is_opaque_white() {
    assert_eq!(Color::white(), color(255, 255, 255, 255));
}

#[test]
fn with_alpha_changes_the_opacity_only() {
    assert_eq!(color(1, 2, 3, 4).with_alpha(200), color(1, 2, 3, 200));
}

#[test]
fn transparent_colour_changes_nothing() {
    for under in [color(10, 20, 30, 255), color(0, 0, 0, 0), color(9, 8, 7, 6)] {
        assert_eq!(under.blend(color(255, 255, 255, 0)), under);
        assert_eq!(under.blend(color(1, 2, 3, 0)), under);
    }
}

#[test]
fn opaque_colour_takes_the_place() {
    for under in [color(10, 20, 30, 255), color(0, 0, 0, 0), color(9, 8, 7, 6)] {
        assert_eq!(under.blend(color(200, 100, 50, 255)), color(200, 100, 50, 255));
    }
}

#[test]
fn half_covered_white_on_opaque_colour() {
    // Each sample is weighted by 128/255 in single precision and cut to a whole number.
    assert_eq!(
        color(10, 20, 30, 255).blend(color(255, 255, 255, 128)),
        color(132, 137, 142, 254)
    );
    assert_eq!(
        color(200, 100, 50, 255).blend(color(255, 255, 255, 100)),
        color(221, 160, 130, 255)
    );
}

#[test]
fn colour_on_transparent_ground_keeps_its_own_opacity() {
    assert_eq!(
        color(0, 0, 0, 0).blend(color(255, 255, 255, 1)),
        color(255, 255, 255, 1)
    );
}

#[test]
fn blend_is_not_symmetric() {
    let a = color(100, 150, 200, 255);
    let b = color(255, 255, 255, 64);
    assert_eq!(a.blend(b), color(138, 176, 213, 255));
    assert_ne!(a.blend(b), b.blend(a));
}

#[test]
fn canvas_needs_four_samples_for_each_pixel() {
    assert!(RgbaCanvas::from_raw(2, 2, vec![0; 16]).is_some());
    assert!(RgbaCanvas::from_raw(2, 2, vec![0; 15]).is_none());
    assert!(RgbaCanvas::from_raw(2, 2, vec![0; 17]).is_none());
    assert!(RgbaCanvas::from_raw(0, 9, Vec::new()).is_some());
    assert!(RgbaCanvas::from_raw(u32::MAX, u32::MAX, vec![0; 16]).is_none());
}

#[test]
fn canvas_without_rows_needs_a_row_that_can_be_counted() {
    // A row of 1 << 30 pixels has 1 << 32 samples: with no rows no sample is needed, and
    // still there is a picture only where a `usize` holds the samples of one row.
    let row_fits = (4u64 << 30) <= usize::MAX as u64;
    assert_eq!(RgbaCanvas::from_raw(1 << 30, 0, Vec::new()).is_some(), row_fits);
    assert_eq!(RgbaCanvas::from_raw(u32::MAX, 0, Vec::new()).is_some(), row_fits);
    // A row of fewer pixels can always be counted.
    let narrow = RgbaCanvas::from_raw((1 << 30) - 1, 0, Vec::new()).unwrap();
    assert_eq!((narrow.width(), narrow.height()), ((1 << 30) - 1, 0));
    assert_eq!(narrow.into_raw(), Vec::<u8>::new());
    // Without columns nothing is needed either, however many rows there are.
    assert!(RgbaCanvas::from_raw(0, u32::MAX, Vec::new()).is_some());
    assert!(RgbaCanvas::from_raw(0, u32::MAX, vec![0]).is_none());
}

#[test]
fn pixels_lie_row_after_row_four_samples_each() {
    let raw: Vec<u8> = (0..24).collect();
    let canvas = RgbaCanvas::from_raw(3, 2, raw.clone()).unwrap();
    assert_eq!(canvas.width(), 3);
    assert_eq!(canvas.height(), 2);
    assert_eq!(canvas.get_pixel(0, 0), color(0, 1, 2, 3));
    assert_eq!(canvas.get_pixel(2, 0), color(8, 9, 10, 11));
    assert_eq!(canvas.get_pixel(0, 1), color(12, 13, 14, 15));
    assert_eq!(canvas.get_pixel(2, 1), color(20, 21, 22, 23));
    assert_eq!(canvas.into_raw(), raw);
}

#[test]
fn put_pixel_changes_four_samples() {
    let mut canvas = RgbaCanvas::from_raw(2, 2, vec![0; 16]).unwrap();
    canvas.put_pixel(1, 0, color(1, 2, 3, 4));
    canvas.put_pixel(0, 1, color(5, 6, 7, 8));
    assert_eq!(canvas.get_pixel(1, 0), color(1, 2, 3, 4));
    assert_eq!(canvas.get_pixel(0, 0), color(0, 0, 0, 0));
    assert_eq!(
        canvas.into_raw(),
        vec![0, 0, 0, 0, 1, 2, 3, 4, 5, 6, 7, 8, 0, 0, 0, 0]
    );
}
