use party_screen::codec::AllocBuf;
use party_screen::geom::{Rect, Vec2D};
use party_screen::gpu::Gpu;
use party_screen::graphics::{
    fade_palette, load_bg_palette, load_obj_palette, Background, BackgroundIndex, Font,
    ListMenu, ListResult, ObjPalette, PaletteMask, SheetSprite, SpriteAnims, SpriteSheet, Tilemap,
    Window,
};
use party_screen::input::{Button, InputFrame};

fn colors(n: usize) -> AllocBuf {
    AllocBuf::new(vec![0u8; 2 * n], 2)
}

#[test]
fn staging_windows_stage_fills_texts_and_copies() {
    let mut gpu = Gpu::new();
    let tiles = AllocBuf::new(vec![0u8; 64], 32);
    let map = Tilemap { map: 4, buffer: AllocBuf::new(Vec::new(), 2) };
    let bg = Background::load(&mut gpu, BackgroundIndex::Background1, 1, &tiles, map);
    let pal = load_bg_palette(&mut gpu, 0, &colors(16));
    let win = Window::create(&mut gpu, bg.handle(), Rect::new(1, 1, 9, 2), pal, 0x20);
    let h = win.handle();
    let id = h.index();

    h.fill(&mut gpu, 3);
    assert_eq!(gpu.window_states[id].fill, 3);
    h.fill_rect(&mut gpu, 11, Rect::new(16, 27, 24, 1));
    assert_eq!(gpu.window_states[id].rect_fills.len(), 1);
    assert_eq!(gpu.window_states[id].rect_fills[0].color, 11);

    let font = Font::new(0);
    let text = party_screen::charmap::Pkstr::from_bytes(vec![0xBB, 0xFF]);
    h.print_text(&mut gpu, &text, Vec2D::new(4, 0), font);
    assert_eq!(gpu.window_states[id].texts.len(), 1);
    assert_eq!(gpu.window_states[id].texts[0].text, vec![0xBB, 0xFF]);

    h.put_tilemap(&mut gpu);
    assert!(gpu.window_states[id].tilemap_put);
    h.copy_to_vram(&mut gpu);
    assert!(gpu.window_states[id].pending_copy);
    // the external flush performs the copy; the staged content stays
    gpu.tick();
    assert!(!gpu.window_states[id].pending_copy);
    assert_eq!(gpu.window_states[id].texts.len(), 1);

    h.clear_with_border(&mut gpu);
    assert_eq!(gpu.window_states[id].texts.len(), 0);
    assert!(!gpu.window_states[id].tilemap_put);

    win.release(&mut gpu);
    assert_eq!(gpu.windows.live_count(), 0);
    bg.release(&mut gpu);
    assert_eq!(gpu.bgs.live_count(), 0);
}

#[test]
fn staging_window_blit_rejects_a_malformed_tile_source() {
    let mut gpu = Gpu::new();
    let tiles = AllocBuf::new(vec![0u8; 64], 32);
    let map = Tilemap { map: 4, buffer: AllocBuf::new(Vec::new(), 2) };
    let bg = Background::load(&mut gpu, BackgroundIndex::Background1, 1, &tiles, map);
    let pal = load_bg_palette(&mut gpu, 0, &colors(16));
    let win = Window::create(&mut gpu, bg.handle(), Rect::new(0, 0, 9, 4), pal, 0x20);
    let h = win.handle();
    let id = h.index();

    // two 32-byte tiles resident: indexes 0 and 1 are readable, 9 is not
    let tileset = AllocBuf::new(vec![0u8; 64], 32);
    let good_map = AllocBuf::new(vec![1u8; 9], 1);
    assert!(h.copy_tilemap(&mut gpu, &tileset, &good_map, Rect::new(0, 3, 9, 1)));
    assert_eq!(gpu.window_states[id].blits.len(), 1);
    assert_eq!(gpu.window_states[id].blits[0], Rect::new(0, 24, 72, 8));

    let bad_map = AllocBuf::new(vec![9u8; 9], 1);
    assert!(!h.copy_tilemap(&mut gpu, &tileset, &bad_map, Rect::new(0, 3, 9, 1)));
    assert_eq!(gpu.window_states[id].blits.len(), 1);

    // a rectangle wider than the map is malformed too
    assert!(!h.copy_tilemap(&mut gpu, &tileset, &good_map, Rect::new(0, 0, 10, 1)));
}

#[test]
fn staging_sprites_stage_position_and_visibility() {
    let mut gpu = Gpu::new();
    let sheet = SpriteSheet::load(AllocBuf::new(vec![0u8; 32], 32), 15000, 1);
    let pal = load_obj_palette(&mut gpu, 13, &colors(16));
    let anims = SpriteAnims::dummy();
    let sprite = SheetSprite::load(&mut gpu, &sheet, &anims, pal);
    let h = sprite.handle();
    let id = h.index();
    assert_eq!(gpu.sprites.live_count(), 1);

    h.set_pos(&mut gpu, Vec2D::new(70, 52));
    assert_eq!(h.get_pos(&gpu), Vec2D::new(70, 52));
    h.set_priority(&mut gpu, 2);
    h.set_subpriority(&mut gpu, 1);
    h.set_invisible(&mut gpu, true);
    h.start_animation(&mut gpu, 5);
    assert_eq!(gpu.sprite_states[id].priority, 2);
    assert_eq!(gpu.sprite_states[id].subpriority, 1);
    assert!(gpu.sprite_states[id].invisible);
    assert_eq!(gpu.sprite_states[id].anim, 5);
    assert_eq!(gpu.sprite_states[id].palette, 13);

    sprite.release(&mut gpu);
    assert_eq!(gpu.sprites.live_count(), 0);
}

#[test]
fn staging_fades_play_one_level_per_flush_tick() {
    let mut gpu = Gpu::new();
    fade_palette(&mut gpu, PaletteMask::all(), 0, 16, 0, 0);
    assert!(gpu.fade_is_active());
    for _ in 0..16 {
        assert!(gpu.fade_is_active());
        gpu.tick();
    }
    assert!(!gpu.fade_is_active());
}

#[test]
fn staging_palette_mask_sets_one_bit_per_bank() {
    let mut gpu = Gpu::new();
    let bg0 = load_bg_palette(&mut gpu, 0, &colors(16));
    let bg1 = load_bg_palette(&mut gpu, 1, &colors(16));
    let obj2 = ObjPalette::raw(2);
    let mask = PaletteMask::from_palettes(&vec![bg0, bg1], &vec![obj2]);
    fade_palette(&mut gpu, mask, 0, 0, 16, 0);
    assert_eq!(gpu.fade_mask, 0b11 | 0x4_0000);
}

#[test]
fn staging_backgrounds_stage_scroll_show_and_fills() {
    let mut gpu = Gpu::new();
    let tiles = AllocBuf::new(vec![0u8; 64], 32);
    let map = Tilemap { map: 0, buffer: AllocBuf::new(Vec::new(), 2) };
    let bg = Background::load(&mut gpu, BackgroundIndex::Background3, 3, &tiles, map);
    let h = bg.handle();
    let id = h.index();
    assert_eq!(id, 3);

    h.show(&mut gpu);
    h.set_pos(&mut gpu, 4, 8);
    let pal = load_bg_palette(&mut gpu, 0, &colors(16));
    h.fill(&mut gpu, Rect::new(0, 0, 2, 2), 7, pal);
    assert!(gpu.bg_states[id].shown);
    assert_eq!((gpu.bg_states[id].x, gpu.bg_states[id].y), (4, 8));
    assert_eq!(gpu.bg_states[id].fills.len(), 1);
    assert_eq!(gpu.bg_states[id].fills[0].tile, 7);
    assert!(gpu.bg_states[id].copy_scheduled);
    gpu.tick();
    assert!(!gpu.bg_states[id].copy_scheduled);
}

#[test]
fn staging_list_menu_moves_clamps_and_reports() {
    let win_gpu = &mut Gpu::new();
    let tiles = AllocBuf::new(vec![0u8; 64], 32);
    let map = Tilemap { map: 4, buffer: AllocBuf::new(Vec::new(), 2) };
    let bg = Background::load(win_gpu, BackgroundIndex::Background1, 1, &tiles, map);
    let pal = load_bg_palette(win_gpu, 0, &colors(16));
    let win = Window::create(win_gpu, bg.handle(), Rect::new(21, 11, 8, 8), pal, 0x380);

    let mut list = ListMenu::create(&win, vec![1, 2, 4]);
    let down = InputFrame::press(Button::Down);
    let up = InputFrame::press(Button::Up);
    assert_eq!(list.process_input(&InputFrame::idle()), ListResult::Nothing);
    assert_eq!(list.process_input(&down), ListResult::Nothing);
    assert_eq!(list.process_input(&down), ListResult::Nothing);
    // the cursor stops at the last entry
    assert_eq!(list.process_input(&down), ListResult::Nothing);
    assert_eq!(list.process_input(&InputFrame::press(Button::A)), ListResult::Chosen(4));
    assert_eq!(list.process_input(&up), ListResult::Nothing);
    assert_eq!(list.process_input(&InputFrame::press(Button::A)), ListResult::Chosen(2));
    assert_eq!(list.process_input(&InputFrame::press(Button::B)), ListResult::Cancel);
}
