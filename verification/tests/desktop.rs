use rustrdp::desktop::{clamp_desktop, resize_request, Resolution};

#[test]
fn clamp_rounds_width_down_and_keeps_range() {
    assert_eq!(clamp_desktop((1281, 801)), (1280, 801));
    assert_eq!(clamp_desktop((0, 0)), (200, 200));
    assert_eq!(clamp_desktop((u16::MAX, u16::MAX)), (8192, 8192));
}

#[test]
fn label_of_fixed_resolution() {
    assert_eq!(Resolution::Fixed(1920, 1080).label(), "1920 x 1080");
    assert_eq!(Resolution::FitToWindow.label(), "Fit to window");
}

#[test]
fn presets_start_with_the_window() {
    let labels: Vec<String> = Resolution::presets().into_iter().map(|preset| preset.label()).collect();
    assert_eq!(
        labels,
        vec![
            "Fit to window",
            "1920 x 1080",
            "1600 x 900",
            "1440 x 900",
            "1366 x 768",
            "1280 x 800",
            "1024 x 768",
        ]
    );
}

#[test]
fn requests_are_adjusted_for_the_display_channel() {
    assert_eq!(resize_request(1281, 801), (1280, 801));
    assert_eq!(resize_request(0, 0), (200, 200));
    assert_eq!(resize_request(201, 199), (200, 200));
    assert_eq!(resize_request(u16::MAX, u16::MAX), (8192, 8192));
}

#[test]
fn clamped_sizes_are_left_alone() {
    for size in [(0, 0), (199, 8193), (1281, 801), (8191, 200), (8192, 8192), (65535, 3)] {
        let (w, h) = clamp_desktop(size);
        assert_eq!(clamp_desktop((w, h)), (w, h));
        assert_eq!(resize_request(w, h), (u32::from(w), u32::from(h)));
    }
}
