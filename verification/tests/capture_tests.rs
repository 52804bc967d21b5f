use screen_ocr::capture::{
    DesktopBounds, MonitorGeometry, MonitorPoint, check_desktop_fits, compose_desktop, cut_region,
    desktop_bounds,
    locate_point,
};
use screen_ocr::imaging::RgbaBuffer;

fn monitor(x: i32, y: i32, width: u32, height: u32) -> MonitorGeometry {
    MonitorGeometry { x, y, width, height }
}

fn solid(width: u32, height: u32, rgba: [u8; 4]) -> RgbaBuffer {
    let mut data = Vec::new();
    for _ in 0..width * height {
        data.extend_from_slice(&rgba);
    }
    RgbaBuffer { width, height, data }
}

#[test]
fn point_is_located_on_the_first_monitor_containing_it() {
    let ms = vec![monitor(0, 0, 1920, 1080), monitor(1920, 0, 1280, 1024), monitor(-800, -600, 800, 600)];
    assert_eq!(locate_point(&ms, 10, 20), Some(MonitorPoint { monitor: 0, x: 10, y: 20 }));
    assert_eq!(locate_point(&ms, 1920, 5), Some(MonitorPoint { monitor: 1, x: 0, y: 5 }));
    assert_eq!(locate_point(&ms, 3199, 1023), Some(MonitorPoint { monitor: 1, x: 1279, y: 1023 }));
    assert_eq!(locate_point(&ms, -1, -1), Some(MonitorPoint { monitor: 2, x: 799, y: 599 }));
    assert_eq!(locate_point(&ms, 3200, 0), None);
    assert_eq!(locate_point(&ms, 100, 1080), None);
    let overlapping = vec![monitor(0, 0, 100, 100), monitor(50, 50, 100, 100)];
    assert_eq!(locate_point(&overlapping, 60, 60), Some(MonitorPoint { monitor: 0, x: 60, y: 60 }));
}

#[test]
fn desktop_bounds_span_all_monitors() {
    let ms = vec![monitor(0, 0, 1920, 1080), monitor(1920, -200, 1280, 1024), monitor(-800, 300, 800, 600)];
    assert_eq!(desktop_bounds(&ms), DesktopBounds { x: -800, y: -200, width: 4000, height: 1280 });
    assert_eq!(desktop_bounds(&vec![monitor(5, 7, 10, 20)]), DesktopBounds { x: 5, y: 7, width: 10, height: 20 });
}

#[test]
fn screenshots_are_laid_out_at_their_offsets() {
    let ms = vec![monitor(0, 0, 2, 1), monitor(2, 1, 1, 1), monitor(-1, 0, 1, 1)];
    let shots = vec![
        Some(solid(2, 1, [10, 20, 30, 255])),
        Some(solid(1, 1, [40, 50, 60, 255])),
        None,
    ];
    let frozen = compose_desktop(&ms, &shots);
    assert_eq!(frozen.bounds, DesktopBounds { x: -1, y: 0, width: 4, height: 2 });
    let img = &frozen.image;
    assert_eq!((img.width, img.height, img.data.len()), (4, 2, 32));
    let px = |x: usize, y: usize| img.data[(y * 4 + x) * 4..(y * 4 + x) * 4 + 4].to_vec();
    assert_eq!(px(0, 0), vec![0, 0, 0, 0]);
    assert_eq!(px(1, 0), vec![10, 20, 30, 255]);
    assert_eq!(px(2, 0), vec![10, 20, 30, 255]);
    assert_eq!(px(3, 0), vec![0, 0, 0, 0]);
    assert_eq!(px(3, 1), vec![40, 50, 60, 255]);
    assert_eq!(px(0, 1), vec![0, 0, 0, 0]);
}

#[test]
fn region_is_cut_from_the_monitor_shot() {
    let mut shot = solid(4, 4, [0, 0, 0, 255]);
    shot.data[(1 * 4 + 2) * 4] = 99;
    let r = cut_region(&shot, MonitorPoint { monitor: 0, x: 2, y: 1 }, 5, 2);
    assert_eq!((r.width, r.height), (2, 2));
    assert_eq!(r.data[0], 99);
}

#[test]
fn desktop_fit_check() {
    assert!(!check_desktop_fits(&vec![]));
    assert!(check_desktop_fits(&vec![monitor(0, 0, 1920, 1080), monitor(-1280, 0, 1280, 1024)]));
    assert!(!check_desktop_fits(&vec![monitor(i32::MAX - 10, 0, 100, 100)]));
    assert!(!check_desktop_fits(&vec![monitor(0, 0, u32::MAX, 1)]));
    assert!(!check_desktop_fits(&vec![monitor(i32::MIN, 0, 10, 10), monitor(i32::MAX - 10, 0, 10, 10)]));
}

#[test]
fn overlapping_monitors_show_the_last_capture() {
    // Two mirrored/overlapping outputs: the later opaque capture wins where
    // they overlap; the part covered by no capture stays transparent.
    let ms = vec![monitor(0, 0, 2, 1), monitor(1, 0, 2, 1), monitor(0, 1, 1, 1)];
    let shots = vec![
        Some(solid(2, 1, [1, 1, 1, 255])),
        Some(solid(2, 1, [2, 2, 2, 255])),
        None,
    ];
    let frozen = compose_desktop(&ms, &shots);
    let img = &frozen.image;
    assert_eq!((img.width, img.height), (3, 2));
    let px = |x: usize, y: usize| img.data[(y * 3 + x) * 4..(y * 3 + x) * 4 + 4].to_vec();
    assert_eq!(px(0, 0), vec![1, 1, 1, 255]);
    assert_eq!(px(1, 0), vec![2, 2, 2, 255]);
    assert_eq!(px(2, 0), vec![2, 2, 2, 255]);
    assert_eq!(px(0, 1), vec![0, 0, 0, 0]);
    assert_eq!(px(2, 1), vec![0, 0, 0, 0]);
}
