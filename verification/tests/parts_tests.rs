use rfvp::subsystem::resources::parts_manager::{PartsItem, PartsManager, PartsMotion};

#[test]
fn new_motion_is_stopped_and_zero() {
    let m = PartsMotion::new();
    assert!(!m.get_running());
    assert_eq!(m.get_parts_id(), 0);
    assert_eq!(m.get_dest_alpha(), 0);
    assert_eq!(m.get_id(), 0);
    assert_eq!(m.get_elapsed(), 0);
    assert_eq!(m.get_duration(), 0);
}

#[test]
fn motion_setters_round_trip() {
    let mut m = PartsMotion::new();
    m.set_running(true);
    m.set_parts_id(4);
    m.set_dest_alpha(200);
    m.set_id(513);
    m.set_elapsed(10);
    m.set_duration(1000);
    assert!(m.get_running());
    assert_eq!(m.get_parts_id(), 4);
    assert_eq!(m.get_dest_alpha(), 200);
    assert_eq!(m.get_id(), 513);
    assert_eq!(m.get_elapsed(), 10);
    assert_eq!(m.get_duration(), 1000);
}

#[test]
fn new_item_builds() {
    let _item = PartsItem::new();
}

#[test]
fn fresh_manager_has_no_running_motion() {
    let mut pm = PartsManager::new();
    assert_eq!(pm.current_id, 0);
    for p in 0..=255u8 {
        assert_eq!(pm.next_free_id(p), None);
    }
    assert_eq!(pm.current_id, 0);
}

#[test]
fn next_free_id_none_keeps_current_id() {
    let mut pm = PartsManager::default();
    pm.current_id = 200;
    assert_eq!(pm.next_free_id(1), None);
    assert_eq!(pm.current_id, 200);
}

#[test]
fn set_rgb_and_load_parts_accept_every_part() {
    let mut pm = PartsManager::new();
    for id in 0..64u16 {
        pm.set_rgb(id, 1, 2, 3);
        pm.load_parts(id, "parts.bin");
    }
    assert_eq!(pm.current_id, 0);
}

#[test]
fn motion_getter_gives_last_write_of_its_setter() {
    let mut m = PartsMotion::new();
    m.set_dest_alpha(10);
    m.set_running(true);
    m.set_id(7);
    assert_eq!(m.get_dest_alpha(), 10);
    m.set_dest_alpha(99);
    m.set_duration(5);
    assert_eq!(m.get_dest_alpha(), 99);
}

#[test]
fn current_id_accessors() {
    let mut pm = PartsManager::new();
    pm.set_current_id(5);
    assert_eq!(pm.get_current_id(), 5);
    assert_eq!(pm.current_id, 5);
    pm.current_id = 6;
    assert_eq!(pm.get_current_id(), 6);
    assert_eq!(pm.next_free_id(6), None);
    assert_eq!(pm.get_current_id(), 6);
}
