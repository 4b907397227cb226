use ac_esp::state::{Features, Status};

#[test]
fn features_start_as_the_panel_shows() {
    let f = Features::default();
    assert!(!f.esp_enabled);
    assert!(f.show_names);
    assert!(!f.show_snaplines);
    assert!(!f.aimbot_enabled);
    assert!(f.aimbot_vis_check);
    assert!(f.show_fov_circle);
    assert!(!f.inf_ammo && !f.inf_hp && !f.no_recoil);
}

#[test]
fn status_starts_detached() {
    let s = Status::default();
    assert!(!s.attached);
    assert_eq!(s.process_id, None);
    assert_eq!((s.player_count, s.box_count, s.module_base, s.entity_list_ptr), (0, 0, 0, 0));
    assert_eq!((s.current_frame, s.debug_last_vis), (0, 0));
}

#[test]
fn status_lifecycle() {
    let mut s = Status::default();
    s.attach(4242, 0x40_0000);
    assert!(s.attached);
    assert_eq!(s.process_id, Some(4242));
    assert_eq!(s.module_base, 0x40_0000);
    s.record_tick(12, 0x0123_4000, 900);
    assert_eq!((s.player_count, s.entity_list_ptr, s.current_frame), (12, 0x0123_4000, 900));
    assert!(s.attached);
    s.record_scan(5, 899);
    assert_eq!((s.box_count, s.debug_last_vis), (5, 899));
    s.detach();
    assert!(!s.attached);
    assert_eq!(s.process_id, None);
    assert_eq!((s.player_count, s.box_count), (0, 0));
    assert_eq!((s.module_base, s.entity_list_ptr, s.current_frame, s.debug_last_vis), (0x40_0000, 0x0123_4000, 900, 899));
    let once = s;
    s.detach();
    assert_eq!(s, once);
    s.attach(7, 0x50_0000);
    assert!(s.attached);
    assert_eq!(s.process_id, Some(7));
    assert_eq!((s.player_count, s.box_count), (0, 0));
}
