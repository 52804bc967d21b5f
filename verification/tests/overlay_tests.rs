use screen_ocr::ocr::{OcrInput, prepare_ocr_input};
use screen_ocr::imaging::RgbaBuffer;
use screen_ocr::overlay::{
    CropRect, FrameInput, OverlayState, TrayCommand, clamp_selection, crop_selection,
    hotkey_raises_overlay,
};

type Pos = (i32, i32);

fn input(requested: bool, now_ms: u64) -> FrameInput<Pos> {
    FrameInput {
        overlay_requested: requested,
        settings_requested: false,
        now_ms,
        cancel: false,
        primary_pressed: false,
        primary_down: false,
        primary_released: false,
        pointer: None,
    }
}

fn started() -> OverlayState<Pos> {
    let mut s = OverlayState::new();
    let out = s.on_frame(&input(false, 0));
    assert!(out.init_tray);
    assert!(!out.activate && !out.paint_frozen && !out.dismiss);
    s
}

#[test]
fn first_frame_sets_up_the_tray_only() {
    let mut s: OverlayState<Pos> = OverlayState::new();
    let out = s.on_frame(&input(true, 5));
    assert!(out.init_tray);
    assert!(!out.activate && !out.paint_frozen && out.finished_box.is_none());
    assert!(s.initialized && !s.was_active);
}

#[test]
fn drag_and_release_yields_the_selection_and_closes_the_overlay() {
    let mut s = started();
    let out = s.on_frame(&input(true, 1000));
    assert!(out.activate && out.paint_frozen && out.paint_dim && !out.dismiss);
    assert_eq!(s.activated_at, Some(1000));

    let mut press = input(true, 1100);
    press.primary_pressed = true;
    press.primary_down = true;
    press.pointer = Some((10, 20));
    let out = s.on_frame(&press);
    assert!(out.finished_box.is_none() && out.outline.is_none());

    let mut drag = input(true, 1200);
    drag.primary_down = true;
    drag.pointer = Some((110, 70));
    let out = s.on_frame(&drag);
    assert_eq!(out.outline, Some(((10, 20), (10, 20))));

    let mut release = input(true, 1300);
    release.primary_released = true;
    release.pointer = Some((111, 71));
    let out = s.on_frame(&release);
    assert_eq!(out.outline, Some(((10, 20), (110, 70))));
    assert_eq!(out.finished_box, Some(((10, 20), (110, 70))));
    assert!(out.dismiss);
    assert!(!s.was_active && s.start_pos.is_none() && s.current_pos.is_none());
    assert_eq!(s.activated_at, None);
}

#[test]
fn release_without_press_selects_nothing() {
    let mut s = started();
    s.on_frame(&input(true, 10));
    let mut release = input(true, 20);
    release.primary_released = true;
    release.pointer = Some((1, 1));
    let out = s.on_frame(&release);
    assert!(out.finished_box.is_none() && !out.dismiss);
    assert!(s.was_active);
}

#[test]
fn escape_cancels_without_selection() {
    let mut s = started();
    s.on_frame(&input(true, 10));
    let mut press = input(true, 20);
    press.primary_pressed = true;
    press.primary_down = true;
    press.pointer = Some((5, 5));
    s.on_frame(&press);
    let mut cancel = input(true, 30);
    cancel.cancel = true;
    cancel.primary_released = true;
    cancel.pointer = Some((50, 50));
    let out = s.on_frame(&cancel);
    assert!(out.dismiss && out.finished_box.is_none());
    assert!(out.paint_frozen && !out.paint_dim);
    assert!(!s.was_active && s.start_pos.is_none());
}

#[test]
fn overlay_closes_after_thirty_seconds() {
    let mut s = started();
    s.on_frame(&input(true, 1_000));
    let out = s.on_frame(&input(true, 30_999));
    assert!(!out.dismiss && out.paint_frozen);
    let out = s.on_frame(&input(true, 31_000));
    assert!(out.dismiss && !out.paint_frozen && out.finished_box.is_none());
    assert!(!s.was_active);
}

#[test]
fn settings_panel_opens_once_and_closes() {
    let mut s = started();
    let mut settings = input(false, 10);
    settings.settings_requested = true;
    let out = s.on_frame(&settings);
    assert!(out.open_settings && out.show_settings);
    let out = s.on_frame(&settings);
    assert!(!out.open_settings && out.show_settings);
    let out = s.on_frame(&input(false, 20));
    assert!(out.close_settings && !out.show_settings && !out.paint_frozen);
    let out = s.on_frame(&input(false, 30));
    assert!(!out.close_settings);
}

#[test]
fn idle_frames_do_nothing() {
    let mut s = started();
    let out = s.on_frame(&input(false, 10));
    assert!(!out.activate && !out.deactivate && !out.paint_frozen && !out.dismiss);
}

#[test]
fn lost_request_hides_the_overlay() {
    let mut s = started();
    s.on_frame(&input(true, 10));
    let out = s.on_frame(&input(false, 20));
    assert!(out.deactivate && !out.paint_frozen);
    assert!(!s.was_active);
}

#[test]
fn hotkey_only_raises_a_hidden_overlay() {
    assert!(hotkey_raises_overlay(true, false));
    assert!(!hotkey_raises_overlay(true, true));
    assert!(!hotkey_raises_overlay(false, false));
}

#[test]
fn tray_menu_ids() {
    for c in TrayCommand::all() {
        assert_eq!(TrayCommand::from_menu_id(c.menu_id()), Some(c));
    }
    assert_eq!(TrayCommand::Exit.menu_id(), "exit");
    assert_eq!(TrayCommand::ChangeShortcut.menu_id(), "change_shortcut");
    assert_eq!(TrayCommand::ChangeShortcut.label(), "Change Shortcut");
    assert_eq!(TrayCommand::from_menu_id("quit"), None);
}

#[test]
fn selection_clamping() {
    assert_eq!(clamp_selection(10, 20, 30, 40, 100, 100), Some(CropRect { x: 10, y: 20, width: 30, height: 40 }));
    assert_eq!(clamp_selection(10, 20, 0, 0, 100, 100), None);
    assert_eq!(clamp_selection(10, 20, 0, 5, 100, 100), None);
    assert_eq!(clamp_selection(10, 20, 5, 0, 100, 100), None);
    assert_eq!(clamp_selection(90, 95, 30, 40, 100, 100), Some(CropRect { x: 90, y: 95, width: 10, height: 5 }));
    assert_eq!(clamp_selection(500, 500, 30, 40, 100, 100), Some(CropRect { x: 99, y: 99, width: 1, height: 1 }));
    assert_eq!(clamp_selection(0, 0, 5, 5, 0, 10), None);
    assert_eq!(clamp_selection(0, 0, 5, 5, 10, 0), None);
}

fn gradient(width: u32, height: u32) -> RgbaBuffer {
    let mut data = Vec::new();
    for y in 0..height {
        for x in 0..width {
            data.extend_from_slice(&[x as u8, y as u8, (x + y) as u8, 255]);
        }
    }
    RgbaBuffer { width, height, data }
}

#[test]
fn selection_is_cut_out_of_the_frozen_desktop() {
    let full = gradient(8, 6);
    let part = crop_selection(&full, 2, 1, 3, 2).unwrap();
    assert_eq!((part.width, part.height), (3, 2));
    assert_eq!(part.data.len(), 3 * 2 * 4);
    for j in 0..2u32 {
        for i in 0..3u32 {
            let k = ((j * 3 + i) * 4) as usize;
            assert_eq!(&part.data[k..k + 4], &[(2 + i) as u8, (1 + j) as u8, (3 + i + j) as u8, 255]);
        }
    }
    let edge = crop_selection(&full, 7, 5, 10, 10).unwrap();
    assert_eq!((edge.width, edge.height), (1, 1));
    assert_eq!(edge.data, vec![7, 5, 12, 255]);
    assert!(crop_selection(&full, 3, 3, 0, 0).is_none());
    let empty = RgbaBuffer { width: 0, height: 0, data: vec![] };
    assert!(crop_selection(&empty, 0, 0, 1, 1).is_none());
}

#[test]
fn held_hotkey_request_does_not_recapture() {
    let mut s = started();
    let out = s.on_frame(&input(true, 100));
    assert!(out.activate);
    for t in [200u64, 300, 400] {
        let out = s.on_frame(&input(true, t));
        assert!(!out.activate && out.paint_frozen);
        assert_eq!(s.activated_at, Some(100));
    }
}

#[test]
fn click_without_drag_recognises_nothing() {
    let full = gradient(8, 6);
    assert!(matches!(prepare_ocr_input(&full, 4, 4, 0, 0), OcrInput::NothingSelected));
    match prepare_ocr_input(&full, 1, 1, 4, 3) {
        OcrInput::Png(png) => {
            assert_eq!(&png[..8], &[137, 80, 78, 71, 13, 10, 26, 10]);
            let decoded = image::load_from_memory(&png).unwrap().to_luma8();
            assert_eq!(decoded.dimensions(), (8, 6));
            assert!(decoded.pixels().all(|p| p.0[0] == 0 || p.0[0] == 255));
        }
        other => panic!("unexpected {:?}", other),
    }
}

#[test]
fn dismissal_is_idempotent() {
    let mut s = started();
    s.on_frame(&input(true, 10));
    let mut cancel = input(true, 20);
    cancel.cancel = true;
    let out = s.on_frame(&cancel);
    assert!(out.dismiss);
    let after = s;
    let out = s.on_frame(&input(false, 30));
    assert!(!out.dismiss && !out.deactivate);
    assert_eq!((s.was_active, s.activated_at, s.start_pos, s.current_pos), (after.was_active, after.activated_at, after.start_pos, after.current_pos));
}

#[test]
fn dismissing_twice_is_dismissing_once() {
    let mut s = started();
    s.on_frame(&input(true, 1000));
    let mut press = input(true, 1100);
    press.primary_pressed = true;
    press.primary_down = true;
    press.pointer = Some((3, 4));
    s.on_frame(&press);
    assert!(s.was_active && s.start_pos.is_some());

    s.dismiss();
    let once = s;
    assert!(!once.was_active && once.activated_at.is_none());
    assert!(once.start_pos.is_none() && once.current_pos.is_none());
    assert!(once.initialized);
    s.dismiss();
    assert_eq!(
        (s.initialized, s.was_settings_open, s.was_active, s.activated_at, s.start_pos, s.current_pos),
        (once.initialized, once.was_settings_open, once.was_active, once.activated_at, once.start_pos, once.current_pos)
    );
}
