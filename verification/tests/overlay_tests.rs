use ac_esp::overlay::{
    client_size, colorref, esp_box, fov_circle_bounds, halve, name_label_origin, snapline_origin, Point, Rect,
};

#[test]
fn halve_rounds_toward_zero() {
    assert_eq!(halve(7), 3);
    assert_eq!(halve(-7), -3);
    assert_eq!(halve(i32::MIN), -1_073_741_824);
}

#[test]
fn client_size_of_rect() {
    let r = Rect { left: 10, top: 20, right: 810, bottom: 620 };
    assert_eq!(client_size(&r), (800, 600));
}

#[test]
fn esp_box_is_half_as_wide_as_tall() {
    let b = esp_box(400, 100, 80);
    assert_eq!(b, Rect { left: 380, top: 100, right: 420, bottom: 180 });
    let b = esp_box(400, 100, 7);
    assert_eq!(b, Rect { left: 399, top: 100, right: 402, bottom: 107 });
    let b = esp_box(400, 100, -7);
    assert_eq!(b, Rect { left: 401, top: 100, right: 398, bottom: 93 });
}

#[test]
fn fov_circle_is_centred() {
    assert_eq!(fov_circle_bounds(800, 600, 50), Rect { left: 350, top: 250, right: 450, bottom: 350 });
    assert_eq!(fov_circle_bounds(801, 601, 0), Rect { left: 400, top: 300, right: 400, bottom: 300 });
}

#[test]
fn labels_and_snaplines() {
    let b = Rect { left: 5, top: 40, right: 25, bottom: 80 };
    assert_eq!(name_label_origin(&b), Point { x: 5, y: 25 });
    assert_eq!(snapline_origin(1024, 768), Point { x: 512, y: 768 });
}

#[test]
fn colorref_packs_blue_green_red() {
    assert_eq!(colorref(255, 0, 0), 0x0000_00FF);
    assert_eq!(colorref(0, 255, 0), 0x0000_FF00);
    assert_eq!(colorref(0, 0, 255), 0x00FF_0000);
    assert_eq!(colorref(0x12, 0x34, 0x56), 0x0056_3412);
}

#[test]
fn colorref_channels_come_back() {
    for (r, g, b) in [(1u32, 2u32, 3u32), (255, 128, 0), (0, 0, 0), (200, 201, 202)] {
        let c = colorref(r, g, b);
        assert_eq!(c & 0xff, r);
        assert_eq!((c >> 8) & 0xff, g);
        assert_eq!((c >> 16) & 0xff, b);
        assert_eq!(c >> 24, 0);
    }
}

#[test]
fn colorref_wide_channels_overlap() {
    assert_eq!(colorref(0x1_00, 0, 0), 0x100);
    assert_eq!(colorref(0, 0x100, 0), 0x1_0000);
    assert_eq!(colorref(0, 0, 0x100), 0x100_0000);
}
