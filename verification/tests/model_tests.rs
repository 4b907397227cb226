use ac_esp::memory::{i32_to_le_bytes, MemorySnapshot};
use ac_esp::model::Entity;
use ac_esp::offset;

fn entity_memory(base: usize, health: i32, team: i32, name: &[u8]) -> MemorySnapshot {
    let mut bytes = vec![0u8; 0x320];
    let h = offset::ENTITY_HEALTH as usize;
    bytes[h..h + 4].copy_from_slice(&i32_to_le_bytes(health));
    let t = offset::ENTITY_TEAM as usize;
    bytes[t..t + 4].copy_from_slice(&i32_to_le_bytes(team));
    let n = offset::ENTITY_NAME as usize;
    bytes[n..n + name.len()].copy_from_slice(name);
    let v = offset::ENTITY_LAST_VIS_FRAME as usize;
    bytes[v..v + 4].copy_from_slice(&[0x10, 0x27, 0, 0]);
    MemorySnapshot::new(base, bytes)
}

#[test]
fn entity_fields_are_read_at_their_offsets() {
    let e = Entity { process_handle: 7, base_addr: 0x0050_0000 };
    let m = entity_memory(0x0050_0000, 100, 1, b"Alice\0");
    assert_eq!(e.health(&m), 100);
    assert_eq!(e.team(&m), 1);
    assert_eq!(e.name(&m), "Alice");
    assert_eq!(e.last_visible_frame(&m), 10_000);
    assert_eq!(e.field_address(offset::ENTITY_HEALTH), 0x0050_00EC);
}

#[test]
fn entity_negative_health() {
    let e = Entity { process_handle: 0, base_addr: 0x1000 };
    let m = entity_memory(0x1000, -5, 0, b"x\0");
    assert_eq!(e.health(&m), -5);
}

#[test]
fn entity_name_fills_whole_buffer() {
    let e = Entity { process_handle: 0, base_addr: 0x1000 };
    let m = entity_memory(0x1000, 1, 0, b"ABCDEFGHIJKLMNOPQRS");
    assert_eq!(e.name(&m), "ABCDEFGHIJKLMNOP");
}

#[test]
fn entity_outside_memory_reads_defaults() {
    let e = Entity { process_handle: 0, base_addr: 0x9000 };
    let m = entity_memory(0x1000, 100, 2, b"Bob\0");
    assert_eq!(e.health(&m), 0);
    assert_eq!(e.team(&m), 0);
    assert_eq!(e.name(&m), "");
    assert_eq!(e.last_visible_frame(&m), 0);
}

#[test]
fn entity_name_is_short_and_has_no_nul() {
    let e = Entity { process_handle: 0, base_addr: 0x1000 };
    let m = entity_memory(0x1000, 1, 0, &[0xff; 16]);
    let n = e.name(&m);
    assert!(n.chars().count() <= 16);
    assert!(!n.contains('\0'));
    assert_eq!(n, "\u{FFFD}".repeat(16));
}

#[test]
fn entity_name_fits_in_48_bytes() {
    let e = Entity { process_handle: 0, base_addr: 0x1000 };
    let m = entity_memory(0x1000, 1, 0, &[0xc3; 16]);
    assert!(e.name(&m).len() <= 48);
    let m = entity_memory(0x1000, 1, 0, "Zoë\0".as_bytes());
    assert_eq!(e.name(&m).as_bytes(), "Zoë".as_bytes());
}
