use ac_esp::memory::MemorySnapshot;
use ac_esp::offset;
use ac_esp::scan::{
    entity_slot_address, is_key_down, is_live_health, misc_writes, module_field, plan_entity, scan_slots, should_aim, EntityPlan,
    EntityReading,
};
use ac_esp::state::Features;

#[test]
fn addresses_of_globals_and_slots() {
    assert_eq!(module_field(0x40_0000, offset::ENTITY_LIST), 0x58_AC04);
    assert_eq!(module_field(0x40_0000, offset::PLAYER_COUNT), 0x58_AC0C);
    assert_eq!(entity_slot_address(0x1000, 0), 0x1000);
    assert_eq!(entity_slot_address(0x1000, 3), 0x100C);
}

#[test]
fn misc_writes_follow_switches() {
    let mut f = Features::default();
    assert!(misc_writes(&f, 0x2000).is_empty());
    f.inf_ammo = true;
    f.inf_hp = true;
    f.no_recoil = true;
    let w = misc_writes(&f, 0x2000);
    assert_eq!(w.len(), 3);
    assert_eq!(w[0].address, 0x2140);
    assert_eq!(MemorySnapshot::new(w[0].address, w[0].bytes.clone()).read_i32(0x2140), 420);
    assert_eq!(w[1].address, 0x20EC);
    assert_eq!(MemorySnapshot::new(w[1].address, w[1].bytes.clone()).read_i32(0x20EC), 67);
    assert_eq!(w[2].address, 0x2040);
    assert_eq!(w[2].bytes, vec![0, 0, 0, 0]);
}

#[test]
fn misc_writes_single_switch() {
    let mut f = Features::default();
    f.inf_hp = true;
    let w = misc_writes(&f, 0x100);
    assert_eq!(w.len(), 1);
    assert_eq!(w[0].address, 0x1EC);
    assert_eq!(w[0].bytes, vec![67, 0, 0, 0]);
}

#[test]
fn health_bounds() {
    assert!(!is_live_health(0));
    assert!(!is_live_health(-3));
    assert!(is_live_health(1));
    assert!(is_live_health(1000));
    assert!(!is_live_health(1001));
}

fn reading(slot: u32, pointer: u32, health: i32, team: i32, last_vis_frame: u32) -> EntityReading {
    EntityReading { slot, pointer, health, team, last_vis_frame }
}

#[test]
fn plan_skips_empty_and_dead_slots() {
    let mut f = Features::default();
    f.esp_enabled = true;
    f.aimbot_enabled = true;
    let p = plan_entity(&f, &reading(1, 0, 100, 2, 50), 1, 10, true);
    assert!(!p.counted && !p.aim_candidate && !p.draw_box && !p.reports_visibility);
    let p = plan_entity(&f, &reading(1, 0x1234, 0, 2, 50), 1, 10, true);
    assert!(!p.counted && !p.aim_candidate && !p.draw_box && !p.reports_visibility);
    let p = plan_entity(&f, &reading(2, 0x1234, 5000, 2, 50), 1, 10, true);
    assert!(!p.counted);
}

#[test]
fn plan_live_enemy() {
    let mut f = Features::default();
    f.esp_enabled = true;
    f.aimbot_enabled = true;
    let p = plan_entity(&f, &reading(1, 0x1234, 100, 2, 50), 1, 10, true);
    assert_eq!(
        p,
        EntityPlan { counted: true, is_enemy: true, aim_candidate: true, draw_box: true, reports_visibility: true }
    );
    let p = plan_entity(&f, &reading(3, 0x1234, 100, 2, 50), 1, 10, false);
    assert_eq!(
        p,
        EntityPlan { counted: true, is_enemy: true, aim_candidate: false, draw_box: true, reports_visibility: false }
    );
}

#[test]
fn plan_team_mate_is_not_a_target() {
    let mut f = Features::default();
    f.aimbot_enabled = true;
    let p = plan_entity(&f, &reading(2, 0x1234, 100, 1, 50), 1, 10, true);
    assert!(p.counted && !p.is_enemy && !p.aim_candidate && !p.draw_box);
}

#[test]
fn plan_visibility_check() {
    let mut f = Features::default();
    f.aimbot_enabled = true;
    assert!(f.aimbot_vis_check);
    let p = plan_entity(&f, &reading(2, 0x1234, 100, 2, 9), 1, 10, true);
    assert!(!p.aim_candidate);
    let p = plan_entity(&f, &reading(2, 0x1234, 100, 2, 10), 1, 10, true);
    assert!(p.aim_candidate);
    f.aimbot_vis_check = false;
    let p = plan_entity(&f, &reading(2, 0x1234, 100, 2, 9), 1, 10, true);
    assert!(p.aim_candidate);
}

#[test]
fn key_state_high_bit() {
    assert!(is_key_down(i16::MIN));
    assert!(is_key_down(-32767));
    assert!(is_key_down(-1));
    assert!(!is_key_down(0));
    assert!(!is_key_down(1));
    assert!(!is_key_down(i16::MAX));
}

#[test]
fn aim_needs_switch_key_and_target() {
    let mut f = Features::default();
    assert!(!should_aim(&f, i16::MIN, true));
    f.aimbot_enabled = true;
    assert!(should_aim(&f, i16::MIN, true));
    assert!(!should_aim(&f, 0, true));
    assert!(!should_aim(&f, i16::MIN, false));
}

#[test]
fn scan_slots_skip_slot_zero_and_null_lists() {
    assert_eq!(scan_slots(0x1000, 5), vec![1, 2, 3, 4]);
    assert_eq!(scan_slots(0x1000, 1), Vec::<u32>::new());
    assert_eq!(scan_slots(0x1000, 0), Vec::<u32>::new());
    assert_eq!(scan_slots(0, 5), Vec::<u32>::new());
}
