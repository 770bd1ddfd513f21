use party_screen::data::Pokemon;
use party_screen::geom::{Rect, Vec2D};
use party_screen::graphics::{anim_end, anim_frame, Font};
use party_screen::input::{Button, InputFrame};
use party_screen::menu::{hp_bar_colors, hp_bar_width, lerp, mon_cell, BackgroundStyle, PokeAction};

#[test]
fn rules_hp_bar_width_is_the_proportional_pixel_count() {
    assert_eq!(hp_bar_width(30, 60), 24);
    assert_eq!(hp_bar_width(60, 60), 48);
    assert_eq!(hp_bar_width(0, 60), 0);
    assert_eq!(hp_bar_width(1, 60), 0);
    assert_eq!(hp_bar_width(20, 60), 16);
    assert_eq!(hp_bar_width(655, 655), 48);
}

#[test]
fn rules_hp_bar_colors_have_three_tiers_at_fixed_breakpoints() {
    assert_eq!(hp_bar_colors(0), (15, 14));
    assert_eq!(hp_bar_colors(11), (15, 14));
    assert_eq!(hp_bar_colors(12), (11, 10));
    assert_eq!(hp_bar_colors(23), (11, 10));
    assert_eq!(hp_bar_colors(24), (13, 12));
    assert_eq!(hp_bar_colors(48), (13, 12));
}

#[test]
fn rules_layout_cells_form_two_rows_of_three() {
    assert_eq!(mon_cell(0), Vec2D { x: 1, y: 1 });
    assert_eq!(mon_cell(1), Vec2D { x: 11, y: 1 });
    assert_eq!(mon_cell(2), Vec2D { x: 21, y: 1 });
    assert_eq!(mon_cell(3), Vec2D { x: 1, y: 10 });
    assert_eq!(mon_cell(4), Vec2D { x: 11, y: 10 });
    assert_eq!(mon_cell(5), Vec2D { x: 21, y: 10 });
}

#[test]
fn rules_background_styles_pick_their_palette_banks() {
    assert_eq!(BackgroundStyle::Focused.palette_index(), 0);
    assert_eq!(BackgroundStyle::Unfocused.palette_index(), 1);
    assert_eq!(BackgroundStyle::SwitchFocused.palette_index(), 2);
    assert_eq!(BackgroundStyle::SwitchUnfocused.palette_index(), 3);
    assert_eq!(BackgroundStyle::KoFocused.palette_index(), 4);
    assert_eq!(BackgroundStyle::KoUnfocused.palette_index(), 5);
}

#[test]
fn rules_fainted_entries_use_the_ko_tint_whatever_the_focus() {
    assert_eq!(BackgroundStyle::Focused.for_hp(true), BackgroundStyle::KoFocused);
    assert_eq!(BackgroundStyle::Unfocused.for_hp(true), BackgroundStyle::KoUnfocused);
    assert_eq!(BackgroundStyle::SwitchFocused.for_hp(true), BackgroundStyle::SwitchFocused);
    assert_eq!(BackgroundStyle::Focused.for_hp(false), BackgroundStyle::Focused);
}

#[test]
fn rules_actions_round_trip_through_their_list_ids() {
    let all = [PokeAction::Summary, PokeAction::Switch, PokeAction::GiveItem, PokeAction::TakeItem];
    for a in all {
        assert_eq!(PokeAction::from_id(a.id()), Some(a));
    }
    assert_eq!(PokeAction::from_id(0), None);
    assert_eq!(PokeAction::from_id(5), None);
}

#[test]
fn rules_action_labels_are_device_encoded() {
    let name = PokeAction::Switch.name();
    // "Switch": S w i t c h, then the end sentinel
    assert_eq!(
        name.to_bytes(),
        vec![0xBB + 18, 0xD5 + 22, 0xD5 + 8, 0xD5 + 19, 0xD5 + 2, 0xD5 + 7, 0xFF]
    );
}

#[test]
fn rules_lerp_slides_between_the_endpoints() {
    assert_eq!(lerp(8, 88, 0, 20), 8);
    assert_eq!(lerp(8, 88, 20, 20), 88);
    assert_eq!(lerp(8, 88, 10, 20), 48);
}

#[test]
fn rules_vectors_and_rects_convert_tiles_to_pixels() {
    let v = Vec2D::new(3, 10);
    let p = v.tile_to_pixel();
    assert_eq!(p, Vec2D { x: 24, y: 80 });
    assert_eq!(Vec2D::new(9, 8).size(), 72);
    let r = Rect::from_vecs(Vec2D::new(1, 2), Vec2D::new(9, 8));
    assert_eq!(r, Rect { x: 1, y: 2, width: 9, height: 8 });
    assert_eq!(r.dim(), Vec2D { x: 9, y: 8 });
    assert_eq!(r.pos(), Vec2D { x: 1, y: 2 });
    assert_eq!(r.tile_to_pixel(), Rect { x: 8, y: 16, width: 72, height: 64 });
}

#[test]
fn rules_buttons_map_to_hardware_bits() {
    assert_eq!(Button::A.code(), 0x1);
    assert_eq!(Button::B.code(), 0x2);
    assert_eq!(Button::Right.code(), 0x10);
    assert_eq!(Button::Left.code(), 0x20);
    assert_eq!(Button::Up.code(), 0x40);
    assert_eq!(Button::Down.code(), 0x80);
    assert_eq!(Button::L.code(), 0x200);
    let f = InputFrame::press(Button::A);
    assert!(Button::A.pressed(&f));
    assert!(!Button::B.pressed(&f));
    assert!(Button::A.held(&f));
    assert!(Button::A.repeat(&f));
    let idle = InputFrame::idle();
    assert!(!Button::A.pressed(&idle));
}

#[test]
fn rules_anim_commands_encode_their_bitfields() {
    let cmd = anim_frame(0x1234, 9, true, false);
    assert_eq!(cmd.lo, 0x34);
    assert_eq!(cmd.hi, 0x12);
    assert_eq!(cmd.ctrl, 9 | 0x40);
    let both = anim_frame(4, 0x3F, true, true);
    assert_eq!(both.ctrl, 0x3F | 0x40 | 0x80);
    let end = anim_end();
    assert_eq!((end.lo, end.hi, end.ctrl), (0xFF, 0xFF, 0xFF));
}

#[test]
fn rules_font_width_counts_glyphs() {
    let font = Font::new(0);
    let text = party_screen::charmap::Pkstr::from_bytes(vec![0xBB, 0xD5, 0xFF]);
    assert_eq!(font.width_for(&text), 18);
}

#[test]
fn rules_roster_records_report_their_fields() {
    let mut p = Pokemon::new(25, false, 36, 48, 90, 7, 0, true, 0xCAFE, 13, vec![0xBB, 0xFF]);
    assert_eq!(p.species(), 25);
    assert!(!p.is_egg());
    assert_eq!(p.level(), 36);
    assert_eq!(p.hp(), 48);
    assert_eq!(p.max_hp(), 90);
    assert_eq!(p.item(), Some(7));
    assert!(p.shiny());
    assert_eq!(p.personality(), 0xCAFE);
    assert_eq!(p.tera_type(), 13);
    assert_eq!(p.name(), vec![0xBB, 0xFF]);
    assert_eq!(p.status(), 0);
    p.set_item(0);
    assert_eq!(p.item(), None);
}

#[test]
fn rules_fainted_records_report_the_fainted_status() {
    let p = Pokemon::new(1, false, 5, 0, 20, 0, 3, false, 1, 0, vec![0xFF]);
    assert_eq!(p.status(), 7);
    let q = Pokemon::new(1, false, 5, 1, 20, 0, 3, false, 1, 0, vec![0xFF]);
    assert_eq!(q.status(), 3);
}

#[test]
fn rules_swapping_records_exchanges_them() {
    let mut a = Pokemon::new(1, false, 5, 10, 20, 0, 0, false, 1, 0, vec![0xFF]);
    let mut b = Pokemon::new(2, false, 6, 11, 21, 3, 0, false, 2, 1, vec![0xFF]);
    Pokemon::swap(&mut a, &mut b);
    assert_eq!(a.species(), 2);
    assert_eq!(b.species(), 1);
    assert_eq!(a.item(), Some(3));
    assert_eq!(b.item(), None);
}
