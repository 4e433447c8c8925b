use rfvp::subsystem::resources::prim::{Prim, PrimManager, PrimType, INVAILD_PRIM_HANDLE};

fn links(m: &PrimManager, id: i16) -> (i16, i16, i16, i16, i16) {
    let p = m.get_prim(id);
    (p.get_parent(), p.get_child(), p.get_group_args2(), p.get_grand_parent(), p.get_grand_son())
}

#[test]
fn new_prim_is_blank() {
    let p = Prim::new();
    assert_eq!(p.get_type(), PrimType::PrimTypeNone);
    assert!(!p.get_draw_flag());
    assert!(!p.get_blend());
    assert_eq!(p.get_alpha(), 0);
    assert_eq!(p.get_parent(), 0);
    assert_eq!(p.get_child(), 0);
    assert_eq!(p.get_sprt(), 0);
    assert_eq!(p.get_attr(), 0);
    let d = Prim::default();
    assert_eq!(d.get_type(), PrimType::PrimTypeNone);
    assert_eq!(PrimType::default(), PrimType::PrimTypeNone);
}

#[test]
fn prim_setters_set_one_field() {
    let mut p = Prim::new();
    p.set_x(12);
    p.set_y(-7);
    p.set_type(PrimType::PrimTypeSprt);
    p.set_alpha(-3);
    p.set_text_index(9);
    assert_eq!(p.get_x(), 12);
    assert_eq!(p.get_y(), -7);
    assert_eq!(p.get_type(), PrimType::PrimTypeSprt);
    assert_eq!(p.get_alpha(), -3);
    assert_eq!(p.get_text_index(), 9);
    assert_eq!(p.get_w(), 0);
}

#[test]
fn apply_attr_adds_bits() {
    let mut p = Prim::new();
    p.set_attr(0b0101);
    p.apply_attr(0b0011);
    assert_eq!(p.get_attr(), 0b0111);
}

#[test]
fn manager_has_4096_blank_prims() {
    let m = PrimManager::new();
    assert_eq!(m.get_prim(0).get_type(), PrimType::PrimTypeNone);
    assert_eq!(m.get_prim(4095).get_x(), 0);
    assert_eq!(m.prim_get_type(4095), PrimType::PrimTypeNone);
}

#[test]
fn prim_setters_truncate_to_16_bits() {
    let mut m = PrimManager::new();
    m.prim_set_pos(5, 70000, -1);
    assert_eq!(m.get_prim(5).get_x(), 4464);
    assert_eq!(m.get_prim(5).get_y(), -1);
    // handle 65536 + 5 names prim 5
    m.prim_set_size(65541, 30, 40);
    assert_eq!(m.get_prim(5).get_w(), 30);
    assert_eq!(m.get_prim(5).get_h(), 40);
    m.prim_set_alpha(5, 300);
    assert_eq!(m.get_prim(5).get_alpha(), 44);
    m.prim_set_op(5, 1, 2);
    m.prim_set_uv(5, 3, 4);
    m.prim_set_scale(5, 100, 200);
    m.prim_set_rotation(5, 90);
    m.prim_set_sprt(5, 11);
    m.prim_set_z(5, 12);
    m.prim_set_mode(5, 13);
    m.prim_set_text(5, 14);
    m.prim_set_tile(5, 15);
    let p = m.get_prim(5);
    assert_eq!((p.get_opx(), p.get_opy()), (1, 2));
    assert_eq!((p.get_u(), p.get_v()), (3, 4));
    assert_eq!((p.get_factor_x(), p.get_factor_y()), (100, 200));
    assert_eq!(p.get_rotation(), 90);
    assert_eq!(p.get_sprt(), 11);
    assert_eq!(p.get_z(), 12);
    assert_eq!(p.get_mode(), 13);
    assert_eq!(p.get_text_index(), 14);
    assert_eq!(p.get_tile(), 15);
    assert_eq!(m.get_prim(6).get_x(), 0);
}

#[test]
fn blend_and_draw_flags_follow_nonzero() {
    let mut m = PrimManager::new();
    m.prim_set_blend(2, 7);
    m.prim_set_draw(2, -1);
    assert!(m.get_prim(2).get_blend());
    assert!(m.get_prim(2).get_draw_flag());
    m.prim_set_blend(2, 0);
    m.prim_set_draw(2, 0);
    assert!(!m.get_prim(2).get_blend());
    assert!(!m.get_prim(2).get_draw_flag());
}

#[test]
fn attribute_masks() {
    let mut m = PrimManager::new();
    m.prim_set_attr(1, -1);
    assert_eq!(m.get_prim(1).get_attr(), u32::MAX);
    m.prim_remove_attr(1, 0x0f);
    assert_eq!(m.get_prim(1).get_attr(), 0x0f);
    m.prim_add_attr(1, 0x30);
    assert_eq!(m.get_prim(1).get_attr(), 0x3f);
}

#[test]
fn init_as_group_starts_empty() {
    let mut m = PrimManager::new();
    m.prim_set_pos(10, 5, 6);
    m.prim_init_with_type(10, PrimType::PrimTypeGroup);
    let p = m.get_prim(10);
    assert_eq!(p.get_type(), PrimType::PrimTypeGroup);
    assert!(p.get_draw_flag());
    assert_eq!(p.get_child(), INVAILD_PRIM_HANDLE);
    assert_eq!(p.get_group_args2(), INVAILD_PRIM_HANDLE);
    assert_eq!((p.get_x(), p.get_y()), (0, 0));
    assert_eq!(p.get_sprt(), INVAILD_PRIM_HANDLE);
}

#[test]
fn init_with_same_type_only_clears_sprite() {
    let mut m = PrimManager::new();
    m.prim_set_pos(4, 5, 6);
    m.prim_set_sprt(4, 9);
    m.prim_init_with_type(4, PrimType::PrimTypeNone);
    let p = m.get_prim(4);
    assert_eq!(p.get_type(), PrimType::PrimTypeNone);
    assert!(!p.get_draw_flag());
    assert_eq!((p.get_x(), p.get_y()), (5, 6));
    assert_eq!(p.get_sprt(), INVAILD_PRIM_HANDLE);
}

#[test]
fn init_is_idempotent() {
    let mut m = PrimManager::new();
    m.prim_init_with_type(8, PrimType::PrimTypeText);
    let once = links(&m, 8);
    m.prim_init_with_type(8, PrimType::PrimTypeText);
    assert_eq!(links(&m, 8), once);
    assert_eq!(m.get_prim(8).get_type(), PrimType::PrimTypeText);
    assert!(m.get_prim(8).get_draw_flag());
}

#[test]
fn empty_group_that_changes_type_keeps_its_links() {
    let mut m = PrimManager::new();
    m.prim_init_with_type(3, PrimType::PrimTypeGroup);
    m.prim_init_with_type(3, PrimType::PrimTypeTile);
    assert_eq!(m.get_prim(3).get_type(), PrimType::PrimTypeTile);
    assert_eq!(m.get_prim(3).get_child(), INVAILD_PRIM_HANDLE);
}

#[test]
fn group_in_empty_group() {
    let mut m = PrimManager::new();
    m.set_prim_group_in(1, 3);
    assert_eq!(m.prim_get_type(1), PrimType::PrimTypeGroup);
    assert_eq!(links(&m, 1).1, 3);
    assert_eq!(links(&m, 1).2, 3);
    assert_eq!(links(&m, 3), (1, 0, 0, INVAILD_PRIM_HANDLE, INVAILD_PRIM_HANDLE));
}

#[test]
fn unlinking_the_only_member_empties_the_group() {
    let mut m = PrimManager::new();
    m.set_prim_group_in(1, 3);
    m.unlink_prim(3);
    assert_eq!(links(&m, 1).1, INVAILD_PRIM_HANDLE);
    assert_eq!(links(&m, 1).2, INVAILD_PRIM_HANDLE);
    assert_eq!(links(&m, 3).0, INVAILD_PRIM_HANDLE);
}

#[test]
fn unlink_is_idempotent() {
    let mut m = PrimManager::new();
    m.set_prim_group_in(1, 3);
    m.unlink_prim(3);
    let once: Vec<_> = (0..5).map(|i| links(&m, i)).collect();
    m.unlink_prim(3);
    let twice: Vec<_> = (0..5).map(|i| links(&m, i)).collect();
    assert_eq!(once, twice);
}

#[test]
fn unlink_of_prim_in_no_group_changes_nothing() {
    let mut m = PrimManager::new();
    m.set_prim_group_in(1, 3);
    m.unlink_prim(3);
    m.prim_set_pos(3, 2, 2);
    m.unlink_prim(3);
    assert_eq!(m.get_prim(3).get_x(), 2);
    assert_eq!(links(&m, 3).0, INVAILD_PRIM_HANDLE);
}

#[test]
fn unlink_fresh_prim_points_prim_zero_past_it() {
    // A fresh prim names prim 0 as its group and its neighbours.
    let mut m = PrimManager::new();
    m.prim_set_pos(0, 1, 1);
    m.unlink_prim(7);
    assert_eq!(links(&m, 7).0, INVAILD_PRIM_HANDLE);
    assert_eq!(links(&m, 0), (0, 0, 0, 0, 0));
}

#[test]
fn second_member_goes_after_the_last() {
    let mut m = PrimManager::new();
    m.set_prim_group_in(1, 3);
    // prim 3 names prim 0 in its group_args2, so prim 0 is pointed at 4
    m.set_prim_group_in(1, 4);
    assert_eq!(links(&m, 1).1, 3);
    assert_eq!(links(&m, 1).2, 4);
    assert_eq!(links(&m, 4), (1, 0, 0, 3, INVAILD_PRIM_HANDLE));
    assert_eq!(links(&m, 0).4, 4);
}

#[test]
fn move_after_prim_in_a_group() {
    let mut m = PrimManager::new();
    m.set_prim_group_in(1, 3);
    m.prim_move(3, 5);
    assert_eq!(links(&m, 5), (1, 0, 0, 3, INVAILD_PRIM_HANDLE));
    assert_eq!(links(&m, 3).4, 5);
    assert_eq!(links(&m, 1).2, 5);
}

#[test]
fn move_after_prim_in_no_group_only_unlinks() {
    let mut m = PrimManager::new();
    m.set_prim_group_in(1, 3);
    m.unlink_prim(3);
    m.set_prim_group_in(2, 6);
    m.prim_move(3, 6);
    assert_eq!(links(&m, 6).0, INVAILD_PRIM_HANDLE);
    assert_eq!(links(&m, 2).1, INVAILD_PRIM_HANDLE);
}

#[test]
fn default_manager_is_empty_and_new_is_full() {
    let _empty = PrimManager::default();
    let m = PrimManager::new();
    assert_eq!(m.get_prim(4095).get_parent(), 0);
}

#[test]
fn group_that_changes_type_walks_its_detached_members() {
    let mut m = PrimManager::new();
    m.set_prim_group_in(1, 3);
    m.prim_move(3, 7);
    m.prim_move(7, 8);
    m.unlink_prim(7);
    m.unlink_prim(3);
    m.unlink_prim(8);
    // prim 1 still names prim 3 as first member, but no member names prim 1
    assert_eq!(links(&m, 1).1, 3);
    assert_eq!(links(&m, 3).0, INVAILD_PRIM_HANDLE);
    assert_eq!(links(&m, 3).4, 8);
    m.prim_init_with_type(1, PrimType::PrimTypeText);
    assert_eq!(m.prim_get_type(1), PrimType::PrimTypeText);
    assert!(m.get_prim(1).get_draw_flag());
    assert_eq!(links(&m, 1).1, 3);
    assert_eq!(m.get_prim(1).get_sprt(), INVAILD_PRIM_HANDLE);
}

#[test]
fn unlink_of_middle_member_points_predecessor_at_itself() {
    let mut m = PrimManager::new();
    m.set_prim_group_in(1, 3);
    m.prim_move(3, 7);
    m.prim_move(7, 8);
    assert_eq!(links(&m, 3).4, 7);
    assert_eq!(links(&m, 7).4, 8);
    m.unlink_prim(7);
    assert_eq!(links(&m, 3).4, 8);
    assert_eq!(links(&m, 3).3, 3);
    assert_eq!(links(&m, 8).3, 7);
}

#[test]
fn get_prim_mut_changes_the_table() {
    let mut m = PrimManager::new();
    m.get_prim_mut(9).set_z(42);
    assert_eq!(m.get_prim(9).get_z(), 42);
    assert_eq!(m.get_prim(10).get_z(), 0);
}

#[test]
fn unlink_with_two_neighbours_never_reads_the_group_handle() {
    let mut m = PrimManager::new();
    let p = m.get_prim_mut(5);
    p.set_parent(5000);
    p.set_grand_parent(6);
    p.set_grand_son(7);
    m.unlink_prim(5);
    assert_eq!(links(&m, 5).0, INVAILD_PRIM_HANDLE);
    assert_eq!(links(&m, 6).4, 7);
    assert_eq!(links(&m, 6).3, 6);
}

#[test]
fn prim_getter_gives_last_write_of_its_setter() {
    let mut p = Prim::new();
    p.set_sprt(3);
    p.set_x(1);
    p.set_attr(4);
    p.apply_attr(1);
    p.set_parent(2);
    assert_eq!(p.get_sprt(), 3);
    assert_eq!(p.get_attr(), 5);
    p.set_sprt(-9);
    p.set_y(8);
    assert_eq!(p.get_sprt(), -9);
    assert_eq!(p.get_x(), 1);
}
