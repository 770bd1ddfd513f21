//! The screen session as a resumable computation.
//!
//! A [`ScreenTask`] is the single suspendable computation the scheduler
//! owns: the whole roster screen, from display reset through loading,
//! entry construction, the interactive loop and the final teardown. The
//! scheduler resumes it once per frame tick; a resume either counts one
//! tick off a fixed delay, polls a condition, or runs one straight-line
//! segment of the flow and suspends again. Entry construction inserts a
//! one-tick delay after every entry to amortize loading across frames.

use vstd::prelude::*;

use crate::codec::{AllocBuf, CompressedResource};
use crate::data::Pokemon;
use crate::geom::{Rect, Vec2D};
use crate::gpu::{Gpu, BG_CAP, PALETTE_CAP, SPRITE_CAP, WINDOW_CAP};
use crate::graphics::{
    fade_palette, load_bg_palettes, load_msg_box_gfx, load_obj_palette, load_user_window_gfx,
    Background, BackgroundIndex, ListMenu, ListResult, PaletteMask, SpriteSheet, Tilemap, Window,
};
use crate::input::{Button, InputFrame};
use crate::menu::{
    entry_disjoint, lerp, mon_cell, resources_wf, spec_update_index, BackgroundStyle, Entry,
    ExitAction, Menu, PokeAction, Resources, Style, LAYOUT_CELLS,
};

verus! {

/// How many frames the swap slide takes.
pub const SWAP_FRAMES: u8 = 20;

/// The compressed assets a session decompresses at load time.
pub struct AssetPack {
    /// The shared background tile pixels.
    pub tileset: CompressedResource,
    /// The six cell tint palettes in one blob.
    pub pal: CompressedResource,
    /// The scrolling backdrop tilemap.
    pub scroll_bg_map: CompressedResource,
    /// The tilemap of one entry cell.
    pub mon_bg_map: CompressedResource,
    /// The health bar tilemap.
    pub hp_map: CompressedResource,
    /// The tera type icon sheet.
    pub tera_sprite: CompressedResource,
    /// The tera type icon colors.
    pub tera_sprite_pal: CompressedResource,
    /// The status icon sheet.
    pub status_sheet: CompressedResource,
    /// The status icon colors.
    pub status_pal: CompressedResource,
    /// The item icon colors.
    pub item_icon_pal: CompressedResource,
}

/// A well-formed compressed resource of the given element size: it
/// decompresses without error to exactly its declared length.
pub open spec fn asset_ok(a: &CompressedResource, elem: nat) -> bool {
    &&& a.wf()
    &&& a.elem_size() == elem
    &&& crate::codec::rle_decode(a.payload()).is_some()
    &&& crate::codec::rle_decode(a.payload()).unwrap().len() == a.declared_len()
}

impl AssetPack {
    /// Every asset decompresses cleanly at its element size, and the
    /// palette blob covers the six cell tints.
    pub open spec fn wf(&self) -> bool {
        &&& asset_ok(&self.tileset, 32)
        &&& asset_ok(&self.pal, 2)
        &&& (self.pal.declared_len() / 2) / 16 >= 5
        &&& asset_ok(&self.scroll_bg_map, 2)
        &&& asset_ok(&self.mon_bg_map, 2)
        &&& asset_ok(&self.hp_map, 1)
        &&& asset_ok(&self.tera_sprite, 32)
        &&& asset_ok(&self.tera_sprite_pal, 2)
        &&& asset_ok(&self.status_sheet, 32)
        &&& asset_ok(&self.status_pal, 2)
        &&& asset_ok(&self.item_icon_pal, 2)
    }
}

fn load_asset(a: &CompressedResource) -> (r: AllocBuf)
    requires
        a.wf(),
        crate::codec::rle_decode(a.payload()).is_some(),
        crate::codec::rle_decode(a.payload()).unwrap().len() == a.declared_len(),
    ensures
        r.wf(),
        r.elem_size() == a.elem_size(),
        r.bytes() == crate::codec::rle_decode(a.payload()).unwrap(),
{
    match a.load() {
        Some(b) => b,
        None => {
            proof {
                assert(false);
            }
            vstd::pervasive::unreached()
        },
    }
}

/// The session resources hold exactly the decoded assets: every buffer
/// and sheet carries the decompression of its blob.
pub open spec fn resources_match_assets(res: &Resources, assets: &AssetPack) -> bool {
    &&& res.tileset.bytes() == crate::codec::rle_decode(assets.tileset.payload()).unwrap()
    &&& res.bg_map.bytes() == crate::codec::rle_decode(assets.scroll_bg_map.payload()).unwrap()
    &&& res.mon_slot_map.bytes() == crate::codec::rle_decode(
        assets.mon_bg_map.payload(),
    ).unwrap()
    &&& res.hp_bar_map.bytes() == crate::codec::rle_decode(assets.hp_map.payload()).unwrap()
    &&& res.item_icon_pal.bytes() == crate::codec::rle_decode(
        assets.item_icon_pal.payload(),
    ).unwrap()
    &&& res.tera_sheet.spec_tiles() == crate::codec::rle_decode(
        assets.tera_sprite.payload(),
    ).unwrap()
    &&& res.status_sheet.spec_tiles() == crate::codec::rle_decode(
        assets.status_sheet.payload(),
    ).unwrap()
}

/// Decompress every shared asset and claim the palette banks the session
/// draws with: background banks 0 to 5 for the cell tints, 14 and 15 for
/// the frame tiles, and object banks 12 and 13 for the status and tera
/// icons. Exactly those banks are claimed, and the returned resources
/// hold exactly the decoded assets.
pub fn load_resources(gpu: &mut Gpu, assets: &AssetPack) -> (r: Resources)
    requires
        old(gpu).wf(),
        assets.wf(),
        forall|b: int| 0 <= b < 6 ==> !old(gpu).bg_palettes.slots()[b],
        !old(gpu).bg_palettes.slots()[14],
        !old(gpu).bg_palettes.slots()[15],
        !old(gpu).obj_palettes.slots()[12],
        !old(gpu).obj_palettes.slots()[13],
    ensures
        final(gpu).wf(),
        resources_wf(&r, *final(gpu)),
        resources_match_assets(&r, assets),
        final(gpu).bg_palettes.slots().len() == PALETTE_CAP,
        forall|b: int|
            0 <= b < PALETTE_CAP
                ==> final(gpu).bg_palettes.slots()[b]
                == (old(gpu).bg_palettes.slots()[b] || b < 6 || b == 14 || b == 15),
        final(gpu).bg_palettes.live() == old(gpu).bg_palettes.live() + 8,
        final(gpu).obj_palettes.slots().len() == PALETTE_CAP,
        forall|b: int|
            0 <= b < PALETTE_CAP
                ==> final(gpu).obj_palettes.slots()[b]
                == (old(gpu).obj_palettes.slots()[b] || b == 12 || b == 13),
        final(gpu).obj_palettes.live() == old(gpu).obj_palettes.live() + 2,
        final(gpu).sprites == old(gpu).sprites,
        final(gpu).sprite_states == old(gpu).sprite_states,
        final(gpu).bgs == old(gpu).bgs,
        final(gpu).bg_states == old(gpu).bg_states,
        final(gpu).windows == old(gpu).windows,
        final(gpu).window_states == old(gpu).window_states,
        final(gpu).fade_timer == old(gpu).fade_timer,
{
    let pal_buf = load_asset(&assets.pal);
    let bg_palettes = load_bg_palettes(gpu, 0, 6, &pal_buf);
    let tileset = load_asset(&assets.tileset);
    let bg_map = load_asset(&assets.scroll_bg_map);
    let mon_slot_map = load_asset(&assets.mon_bg_map);
    let hp_bar_map = load_asset(&assets.hp_map);
    let tera_buf = load_asset(&assets.tera_sprite);
    let tera_sheet = SpriteSheet::load(tera_buf, 15000, 1);
    let tera_pal_buf = load_asset(&assets.tera_sprite_pal);
    let tera_pal = load_obj_palette(gpu, 13, &tera_pal_buf);
    let status_buf = load_asset(&assets.status_sheet);
    let status_sheet = SpriteSheet::load(status_buf, 15001, 2);
    let status_pal_buf = load_asset(&assets.status_pal);
    let status_pal = load_obj_palette(gpu, 12, &status_pal_buf);
    let item_icon_pal = load_asset(&assets.item_icon_pal);
    let msg_box_gfx = load_msg_box_gfx(gpu, 0x3B0, 14);
    let user_window_gfx = load_user_window_gfx(gpu, 0x3D0, 15);
    Resources {
        bg_palettes,
        msg_box_gfx,
        user_window_gfx,
        tileset,
        bg_map,
        mon_slot_map,
        hp_bar_map,
        tera_sheet,
        status_sheet,
        status_pal,
        tera_pal,
        item_icon_pal,
    }
}

/// Release the session's palette banks: exactly the banks
/// `load_resources` claimed fall free.
pub fn release_resources(gpu: &mut Gpu, resources: Resources)
    requires
        old(gpu).wf(),
        resources_wf(&resources, *old(gpu)),
    ensures
        final(gpu).wf(),
        final(gpu).bg_palettes.slots().len() == PALETTE_CAP,
        forall|b: int|
            0 <= b < PALETTE_CAP
                ==> final(gpu).bg_palettes.slots()[b]
                == (old(gpu).bg_palettes.slots()[b] && !(b < 6 || b == 14 || b == 15)),
        final(gpu).obj_palettes.slots().len() == PALETTE_CAP,
        forall|b: int|
            0 <= b < PALETTE_CAP
                ==> final(gpu).obj_palettes.slots()[b]
                == (old(gpu).obj_palettes.slots()[b] && !(b == 12 || b == 13)),
        final(gpu).sprites == old(gpu).sprites,
        final(gpu).sprite_states == old(gpu).sprite_states,
        final(gpu).bgs == old(gpu).bgs,
        final(gpu).bg_states == old(gpu).bg_states,
        final(gpu).windows == old(gpu).windows,
        final(gpu).window_states == old(gpu).window_states,
{
    let mut b: u8 = 0;
    while b < 6
        invariant
            b <= 6,
            gpu.wf(),
            gpu.bg_palettes.slots().len() == PALETTE_CAP,
            forall|j: int|
                0 <= j < PALETTE_CAP ==> gpu.bg_palettes.slots()[j] == (old(
                    gpu,
                ).bg_palettes.slots()[j] && !(j < b)),
            forall|j: int| b <= j < 6 ==> old(gpu).bg_palettes.slots()[j],
            old(gpu).bg_palettes.slots()[14] && old(gpu).bg_palettes.slots()[15],
            gpu.bg_palettes.slots()[14] && gpu.bg_palettes.slots()[15],
            gpu.obj_palettes == old(gpu).obj_palettes,
            gpu.sprites == old(gpu).sprites,
            gpu.sprite_states == old(gpu).sprite_states,
            gpu.bgs == old(gpu).bgs,
            gpu.bg_states == old(gpu).bg_states,
            gpu.windows == old(gpu).windows,
            gpu.window_states == old(gpu).window_states,
        decreases 6 - b,
    {
        gpu.bg_palettes.release(b as usize);
        b = b + 1;
    }
    gpu.bg_palettes.release(14);
    gpu.bg_palettes.release(15);
    gpu.obj_palettes.release(12);
    gpu.obj_palettes.release(13);
}

/// Where in the flow the task stands.
#[derive(Clone, Copy, PartialEq, Eq, Structural, Debug)]
pub enum Phase {
    /// Reset the display to a clean state.
    Boot,
    /// Decompress shared assets and claim the session palette banks.
    Load,
    /// Claim and show the three background layers.
    Backgrounds,
    /// Build one entry per live roster slot, one per tick.
    CreateEntries,
    /// Print one entry's labels per tick.
    PrintEntries,
    /// Tint every cell and start the fade from black.
    StyleEntries,
    /// Wait for the fade from black to finish.
    FadeIn,
    /// The interactive loop: navigate, confirm, cancel.
    MainLoop,
    /// An action list is up for the focused entry.
    ActionMenu,
    /// Choosing the second entry of a swap.
    SwitchSelect,
    /// The swap slide is playing.
    SwitchAnim,
    /// Wait for the fade to black, then tear everything down.
    FadeOut,
    /// The session is over.
    Done,
}

/// What one resume produced: a finished session hands back the exit
/// action and the (possibly mutated) roster; taking a held item hands
/// the item id to the host for banking.
pub struct Resumed {
    pub finished: Option<ExitAction>,
    pub banked_item: Option<usize>,
    pub roster: Option<Vec<Pokemon>>,
}

impl Resumed {
    fn pending() -> (r: Resumed)
        ensures
            r.finished.is_none(),
            r.banked_item.is_none(),
            r.roster.is_none(),
    {
        Resumed { finished: None, banked_item: None, roster: None }
    }
}

/// What one resume in the entry-construction phase does: while cells and
/// roster slots remain, the menu grows by one entry built from the roster
/// head, which leaves the roster, and the task suspends one tick;
/// otherwise the phase advances to printing with nothing changed.
pub open spec fn create_step(pre: ScreenTask, post: ScreenTask) -> bool {
    let m0 = pre.spec_menu().unwrap();
    let m1 = post.spec_menu().unwrap();
    if m0.spec_entries().len() < LAYOUT_CELLS && pre.spec_roster().len() > 0 {
        let e = m1.spec_entries().last();
        let head = pre.spec_roster()[0];
        &&& post.spec_phase() == Phase::CreateEntries
        &&& post.spec_wait() == 1
        &&& m1.spec_entries() == m0.spec_entries().push(e)
        &&& e.spec_poke() == head
        &&& e.spec_index() == m0.spec_entries().len()
        &&& e.spec_item_sprite_id().is_some() == head.spec_item().is_some()
        &&& e.spec_tera_id().is_some() == !head.spec_is_egg()
        &&& e.spec_status_id().is_some() == (head.spec_status() != 0)
        &&& m1.spec_focused() == m0.spec_focused()
        &&& post.spec_roster() == pre.spec_roster().remove(0)
    } else {
        &&& post.spec_phase() == Phase::PrintEntries
        &&& post.spec_menu() == pre.spec_menu()
        &&& post.spec_roster() == pre.spec_roster()
        &&& post.spec_next_entry() == 0
    }
}

/// What the styling pass does: the focus settles on the given initial
/// index (or the first cell when that index names no live entry), every
/// cell's tint is staged in order on the fixed background layer (the
/// focused cell focused, the rest unfocused, with the knocked-out
/// override), and the fade from black starts over every palette bank.
pub open spec fn style_step(pre: ScreenTask, post: ScreenTask, g0: Gpu, g1: Gpu) -> bool {
    let m0 = pre.spec_menu().unwrap();
    let m1 = post.spec_menu().unwrap();
    let len = m0.spec_entries().len();
    let focus: nat = if pre.spec_initial_focus() < len {
        pre.spec_initial_focus()
    } else {
        0
    };
    &&& post.spec_phase() == Phase::FadeIn
    &&& m1.spec_entries() == m0.spec_entries()
    &&& m1.spec_focused() == focus
    &&& g1.fade_timer == 16
    &&& g1.fade_mask == crate::graphics::PALETTE_MASK_ALL
    &&& ({
        let b0 = g0.bg_states@[2];
        let b1 = g1.bg_states@[2];
        &&& b1.rect_copies@.len() == b0.rect_copies@.len() + len
        &&& forall|k: int|
            0 <= k < len ==> b1.rect_copies@[b0.rect_copies@.len() + k] == crate::menu::tint_copy(
                m0.spec_entries()[k],
                if k == focus {
                    BackgroundStyle::Focused
                } else {
                    BackgroundStyle::Unfocused
                },
            )
    })
}

/// What one resume in the label-printing phase does: while entries
/// remain, the next entry's labels and health bar are staged into its
/// two windows (nothing else moves) and the task suspends one tick;
/// otherwise the phase advances to styling with nothing changed.
pub open spec fn print_step(pre: ScreenTask, post: ScreenTask, g0: Gpu, g1: Gpu) -> bool {
    let m0 = pre.spec_menu().unwrap();
    if pre.spec_next_entry() < m0.spec_entries().len() {
        let e = m0.spec_entries()[pre.spec_next_entry() as int];
        &&& post.spec_phase() == Phase::PrintEntries
        &&& post.spec_next_entry() == pre.spec_next_entry() + 1
        &&& post.spec_wait() == 1
        &&& post.spec_menu() == pre.spec_menu()
        &&& crate::menu::title_texts_grew(e, g0, g1)
        &&& crate::menu::hp_bar_updated(e, g0, g1)
        &&& forall|wid: int|
            0 <= wid < WINDOW_CAP && !e.owns_window(wid as nat) ==> g1.window_states@[wid]
                == g0.window_states@[wid]
    } else {
        &&& post.spec_phase() == Phase::StyleEntries
        &&& post.spec_menu() == pre.spec_menu()
        &&& g1 == g0
    }
}

/// What one tick of the action list does, by the list's own result.
/// Inspecting or giving an item closes the list's window, decides the
/// exit for the focused entry and starts the exit fade; taking the held
/// item closes the window, hands the item id back for banking and strips
/// it from the focused entry; choosing a swap closes the window and
/// begins switch selection at the focus; cancel closes the window and
/// returns to the loop; and no choice leaves everything but the list
/// cursor alone.
pub open spec fn action_step(
    pre: ScreenTask,
    post: ScreenTask,
    g0: Gpu,
    g1: Gpu,
    input: InputFrame,
    r: Resumed,
) -> bool {
    let l0 = pre.spec_action_menu().unwrap();
    let m0 = pre.spec_menu().unwrap();
    let m1 = post.spec_menu().unwrap();
    let f = m0.spec_focused();
    if Button::A.spec_pressed(input) {
        let chosen = l0.spec_items()[l0.spec_cursor() as int];
        &&& (chosen == 1 ==> {
            &&& post.spec_phase() == Phase::FadeOut
            &&& post.spec_exit_action() == (ExitAction::OpenSummary { index: f as u8 })
            &&& g1.fade_timer == 16
            &&& g1.windows.live() == g0.windows.live() - 1
            &&& post.spec_action_window().is_none()
            &&& m1 == m0
            &&& r.banked_item.is_none()
        })
        &&& (chosen == 3 ==> {
            &&& post.spec_phase() == Phase::FadeOut
            &&& post.spec_exit_action() == (ExitAction::OpenItemBag { index: f as u8 })
            &&& g1.fade_timer == 16
            &&& g1.windows.live() == g0.windows.live() - 1
            &&& post.spec_action_window().is_none()
            &&& m1 == m0
            &&& r.banked_item.is_none()
        })
        &&& (chosen == 4 ==> {
            &&& post.spec_phase() == Phase::MainLoop
            &&& g1.windows.live() == g0.windows.live() - 1
            &&& post.spec_action_window().is_none()
            &&& r.banked_item == m0.spec_entries()[f as int].spec_poke().spec_item()
            &&& m1.spec_focused() == f
            &&& m1.spec_entries().len() == m0.spec_entries().len()
            &&& (m0.spec_entries()[f as int].spec_poke().spec_item().is_some() ==> {
                &&& m1.spec_entries()[f as int].spec_poke() == m0.spec_entries()[
                    f as int
                ].spec_poke().spec_with_item(0)
                &&& m1.spec_entries()[f as int].spec_poke().spec_item().is_none()
                &&& m1.spec_entries()[f as int].spec_item_sprite_id().is_none()
            })
            &&& (m0.spec_entries()[f as int].spec_poke().spec_item().is_none()
                ==> m1.spec_entries()[f as int] == m0.spec_entries()[f as int])
            &&& forall|k: int|
                0 <= k < m0.spec_entries().len() && k != f ==> m1.spec_entries()[k]
                    == m0.spec_entries()[k]
        })
        &&& (chosen == 2 ==> {
            &&& post.spec_phase() == Phase::SwitchSelect
            &&& post.spec_switching() == f
            &&& g1.windows.live() == g0.windows.live() - 1
            &&& post.spec_action_window().is_none()
            &&& m1.spec_entries() == m0.spec_entries()
            &&& m1.spec_focused() == f
            &&& r.banked_item.is_none()
        })
    } else if Button::B.spec_pressed(input) {
        &&& post.spec_phase() == Phase::MainLoop
        &&& g1.windows.live() == g0.windows.live() - 1
        &&& post.spec_action_window().is_none()
        &&& m1 == m0
        &&& r.banked_item.is_none()
    } else {
        &&& post.spec_phase() == Phase::ActionMenu
        &&& g1 == g0
        &&& m1 == m0
        &&& (post.spec_action_menu() matches Some(l1) && l1.spec_items() == l0.spec_items()
            && l1.spec_cursor() == (if Button::Down.spec_pressed(input) && l0.spec_cursor() + 1
            < l0.spec_items().len() {
            l0.spec_cursor() + 1
        } else if Button::Up.spec_pressed(input) && !Button::Down.spec_pressed(input)
            && l0.spec_cursor() > 0 {
            (l0.spec_cursor() - 1) as nat
        } else {
            l0.spec_cursor()
        }))
        &&& r.banked_item.is_none()
    }
}

/// The entry's sprites stand at their fixed offsets around the base
/// position `(bx, by)`.
pub open spec fn sprite_slid(e: Entry, g: Gpu, bx: int, by: int) -> bool {
    &&& g.sprite_states@[e.spec_sprite_id() as int].x == bx + 36
    &&& g.sprite_states@[e.spec_sprite_id() as int].y == by + 32
    &&& (e.spec_item_sprite_id() matches Some(id) ==> g.sprite_states@[id as int].x == bx + 62
        && g.sprite_states@[id as int].y == by + 52)
    &&& (e.spec_tera_id() matches Some(id) ==> g.sprite_states@[id as int].x == bx + 62
        && g.sprite_states@[id as int].y == by + 20)
    &&& (e.spec_status_id() matches Some(id) ==> g.sprite_states@[id as int].x == bx + 12
        && g.sprite_states@[id as int].y == by + 44)
}

/// What one frame of the swap slide does: while frames remain, both
/// entries' sprites are staged at the positions interpolated between the
/// two cells and the frame counter rises; on the final frame the two
/// entries exchange every owned content resource, both are reprinted,
/// the cell tints are restored (the left cell unfocused, the focus
/// focused) and the loop resumes.
pub open spec fn anim_step(pre: ScreenTask, post: ScreenTask, g0: Gpu, g1: Gpu) -> bool {
    let m0 = pre.spec_menu().unwrap();
    let m1 = post.spec_menu().unwrap();
    let f = m0.spec_focused() as int;
    let sw = pre.spec_switching() as int;
    if pre.spec_anim_frame() < SWAP_FRAMES {
        let i = pre.spec_anim_frame() + 1;
        let pf = crate::menu::spec_mon_cell(f as nat);
        let ps = crate::menu::spec_mon_cell(sw as nat);
        &&& post.spec_phase() == Phase::SwitchAnim
        &&& post.spec_anim_frame() == i
        &&& post.spec_switching() == pre.spec_switching()
        &&& m1.spec_entries() == m0.spec_entries()
        &&& m1.spec_focused() == m0.spec_focused()
        &&& sprite_slid(
            m0.spec_entries()[f],
            g1,
            crate::menu::spec_lerp(8 * pf.x, 8 * ps.x, i as int, SWAP_FRAMES as int),
            crate::menu::spec_lerp(8 * pf.y, 8 * ps.y, i as int, SWAP_FRAMES as int),
        )
        &&& sprite_slid(
            m0.spec_entries()[sw],
            g1,
            crate::menu::spec_lerp(8 * ps.x, 8 * pf.x, i as int, SWAP_FRAMES as int),
            crate::menu::spec_lerp(8 * ps.y, 8 * pf.y, i as int, SWAP_FRAMES as int),
        )
    } else {
        &&& post.spec_phase() == Phase::MainLoop
        &&& m1.spec_focused() == m0.spec_focused()
        &&& m1.spec_entries().len() == m0.spec_entries().len()
        &&& crate::menu::swapped_content(
            m0.spec_entries()[f],
            m0.spec_entries()[sw],
            m1.spec_entries()[f],
        )
        &&& crate::menu::swapped_content(
            m0.spec_entries()[sw],
            m0.spec_entries()[f],
            m1.spec_entries()[sw],
        )
        &&& forall|k: int|
            0 <= k < m0.spec_entries().len() && k != f && k != sw ==> m1.spec_entries()[k]
                == m0.spec_entries()[k]
        &&& crate::menu::title_texts_grew(m1.spec_entries()[f], g0, g1)
        &&& crate::menu::title_texts_grew(m1.spec_entries()[sw], g0, g1)
        &&& crate::menu::hp_bar_updated(m1.spec_entries()[f], g0, g1)
        &&& crate::menu::hp_bar_updated(m1.spec_entries()[sw], g0, g1)
        &&& ({
            let b0 = g0.bg_states@[2];
            let b1 = g1.bg_states@[2];
            &&& b1.rect_copies@ == b0.rect_copies@.push(
                crate::menu::tint_copy(m1.spec_entries()[sw], BackgroundStyle::Unfocused),
            ).push(crate::menu::tint_copy(m1.spec_entries()[f], BackgroundStyle::Focused))
            &&& b1.copy_scheduled == true
        })
    }
}

/// What the exit phase does: while the fade to black still plays,
/// nothing moves; once it is done, the whole session is torn down —
/// every slot the entries own falls free across the sprite, window and
/// object-palette tables, the three background layers and the session
/// palette banks are released, the exit action is reported exactly once
/// and the roster comes back in cell order.
pub open spec fn fade_out_step(
    pre: ScreenTask,
    post: ScreenTask,
    g0: Gpu,
    g1: Gpu,
    r: Resumed,
) -> bool {
    if g0.fade_active() {
        &&& post.spec_phase() == Phase::FadeOut
        &&& g1 == g0
        &&& post.spec_menu() == pre.spec_menu()
        &&& r.finished.is_none() && r.roster.is_none()
    } else {
        let es = pre.spec_menu().unwrap().spec_entries();
        &&& post.spec_phase() == Phase::Done
        &&& r.finished == Some(pre.spec_exit_action())
        &&& (r.roster matches Some(ros) && ros@.len() == es.len() && forall|i: int|
            0 <= i < es.len() ==> ros@[i] == (#[trigger] es[i]).spec_poke())
        &&& forall|sid: int|
            0 <= sid < SPRITE_CAP ==> g1.sprites.slots()[sid] == (g0.sprites.slots()[sid]
                && !crate::menu::entries_own_sprite(es, sid as nat))
        &&& forall|wid: int|
            0 <= wid < WINDOW_CAP ==> g1.windows.slots()[wid] == (g0.windows.slots()[wid]
                && !crate::menu::entries_own_window(es, wid as nat))
        &&& forall|pid: int|
            0 <= pid < PALETTE_CAP ==> g1.obj_palettes.slots()[pid] == (g0.obj_palettes.slots()[
                pid
            ] && !crate::menu::entries_own_obj_pal(es, pid as nat) && !(pid == 12 || pid == 13))
        &&& forall|b: int|
            0 <= b < PALETTE_CAP ==> g1.bg_palettes.slots()[b] == (g0.bg_palettes.slots()[b] && !(
            b < 6 || b == 14 || b == 15))
        &&& g1.bgs.slots().len() == BG_CAP
        &&& !g1.bgs.slots()[1] && !g1.bgs.slots()[2] && !g1.bgs.slots()[3]
        &&& g1.bgs.slots()[0] == g0.bgs.slots()[0]
    }
}

/// What one tick of switch selection does: cancel restores the tints and
/// returns to the loop; confirm on the first-picked entry itself also
/// returns, while confirm elsewhere starts the swap slide; and otherwise
/// the switch cursor moves by the navigation rules.
pub open spec fn switch_select_step(pre: ScreenTask, post: ScreenTask, input: InputFrame) -> bool {
    let m0 = pre.spec_menu().unwrap();
    let m1 = post.spec_menu().unwrap();
    &&& m1.spec_entries() == m0.spec_entries()
    &&& (Button::B.spec_pressed(input) ==> post.spec_phase() == Phase::MainLoop
        && m1.spec_focused() == m0.spec_focused())
    &&& (!Button::B.spec_pressed(input) && Button::A.spec_pressed(input) ==> {
        &&& (m0.spec_focused() == pre.spec_switching() ==> post.spec_phase() == Phase::MainLoop)
        &&& (m0.spec_focused() != pre.spec_switching() ==> post.spec_phase() == Phase::SwitchAnim
            && post.spec_switching() == pre.spec_switching() && post.spec_anim_frame() == 0)
        &&& m1.spec_focused() == m0.spec_focused()
    })
    &&& (!Button::B.spec_pressed(input) && !Button::A.spec_pressed(input) ==> {
        &&& post.spec_phase() == Phase::SwitchSelect
        &&& m1.spec_focused() == spec_update_index(
            m0.spec_entries().len(),
            m0.spec_focused(),
            input,
        )
        &&& post.spec_switching() == pre.spec_switching()
    })
}

/// The single suspendable computation for the whole roster screen.
pub struct ScreenTask {
    phase: Phase,
    wait: u8,
    resume_count: u64,
    style: Style,
    initial_focus: u8,
    roster: Vec<Pokemon>,
    assets: AssetPack,
    resources: Option<Resources>,
    scroll_bg: Option<Background>,
    fixed_bg: Option<Background>,
    fg: Option<Background>,
    menu: Option<Menu>,
    action_window: Option<Window>,
    action_menu: Option<ListMenu>,
    next_entry: u8,
    switching: u8,
    anim_frame: u8,
    exit_action: ExitAction,
}

impl ScreenTask {
    pub closed spec fn spec_phase(&self) -> Phase {
        self.phase
    }

    /// Ticks left on the current fixed delay.
    pub closed spec fn spec_wait(&self) -> nat {
        self.wait as nat
    }

    /// How many times the task has been resumed.
    pub closed spec fn spec_resume_count(&self) -> nat {
        self.resume_count as nat
    }

    pub closed spec fn spec_menu(&self) -> Option<Menu> {
        self.menu
    }

    pub closed spec fn spec_action_menu(&self) -> Option<ListMenu> {
        self.action_menu
    }

    pub closed spec fn spec_action_window(&self) -> Option<Window> {
        self.action_window
    }

    /// The roster slots not yet turned into entries.
    pub closed spec fn spec_roster(&self) -> Seq<Pokemon> {
        self.roster@
    }

    pub closed spec fn spec_assets(&self) -> AssetPack {
        self.assets
    }

    pub closed spec fn spec_resources(&self) -> Option<Resources> {
        self.resources
    }

    pub closed spec fn spec_initial_focus(&self) -> nat {
        self.initial_focus as nat
    }

    /// The next entry to build or print.
    pub closed spec fn spec_next_entry(&self) -> nat {
        self.next_entry as nat
    }

    pub closed spec fn spec_anim_frame(&self) -> nat {
        self.anim_frame as nat
    }

    pub closed spec fn spec_switching(&self) -> nat {
        self.switching as nat
    }

    pub closed spec fn spec_exit_action(&self) -> ExitAction {
        self.exit_action
    }

    pub closed spec fn spec_style(&self) -> Style {
        self.style
    }

    /// The task has completed; a completed task is never resumed.
    pub open spec fn is_done(&self) -> bool {
        self.spec_phase() == Phase::Done
    }

    spec fn roster_wf(&self) -> bool {
        forall|i: int| 0 <= i < self.roster@.len() ==> (#[trigger] self.roster@[i]).wf()
    }

    spec fn backgrounds_wf(&self, gpu: Gpu) -> bool {
        &&& self.scroll_bg matches Some(b) && b.id() == 3
        &&& self.fixed_bg matches Some(b) && b.id() == 2
        &&& self.fg matches Some(b) && b.id() == 1
        &&& gpu.bgs.slots().len() == BG_CAP
        &&& gpu.bgs.slots()[1] && gpu.bgs.slots()[2] && gpu.bgs.slots()[3]
    }

    spec fn session_wf(&self, gpu: Gpu) -> bool {
        &&& self.resources matches Some(r) && resources_wf(&r, gpu)
        &&& self.backgrounds_wf(gpu)
        &&& self.menu matches Some(m) && m.wf(gpu) && m.spec_style() == self.style
    }

    /// The task's invariant against the display it runs on.
    pub closed spec fn wf(&self, gpu: Gpu) -> bool {
        &&& gpu.wf()
        &&& self.roster_wf()
        &&& match self.phase {
            Phase::Boot => self.assets.wf() && self.roster@.len() >= 1,
            Phase::Load => {
                &&& self.assets.wf()
                &&& self.roster@.len() >= 1
                &&& gpu.sprites.live() == 0
                &&& gpu.windows.live() == 0
                &&& forall|b: int| 0 <= b < BG_CAP ==> !gpu.bgs.slots()[b]
                &&& forall|b: int| 0 <= b < PALETTE_CAP ==> !gpu.bg_palettes.slots()[b]
                &&& forall|b: int| 0 <= b < PALETTE_CAP ==> !gpu.obj_palettes.slots()[b]
            },
            Phase::Backgrounds => {
                &&& self.resources matches Some(r) && resources_wf(&r, gpu)
                &&& self.roster@.len() >= 1
                &&& gpu.sprites.live() == 0
                &&& gpu.windows.live() == 0
                &&& forall|b: int| 0 <= b < BG_CAP ==> !gpu.bgs.slots()[b]
                &&& forall|b: int| 6 <= b < 12 ==> !gpu.obj_palettes.slots()[b]
            },
            Phase::CreateEntries => {
                &&& self.session_wf(gpu)
                &&& self.menu matches Some(m) && {
                    &&& m.spec_entries().len() == self.next_entry
                    &&& gpu.sprites.live() <= 4 * m.spec_entries().len()
                    &&& gpu.windows.live() == 2 * m.spec_entries().len()
                    &&& forall|b: int|
                        6 + m.spec_entries().len() <= b < 12 ==> !gpu.obj_palettes.slots()[b]
                    &&& m.spec_entries().len() + self.roster@.len() >= 1
                }
            },
            Phase::PrintEntries | Phase::StyleEntries | Phase::FadeIn | Phase::MainLoop
                | Phase::SwitchSelect | Phase::SwitchAnim | Phase::FadeOut => {
                &&& self.session_wf(gpu)
                &&& self.menu matches Some(m) && {
                    &&& 1 <= m.spec_entries().len() <= LAYOUT_CELLS
                    &&& gpu.windows.live() == 2 * m.spec_entries().len()
                    &&& (self.phase == Phase::PrintEntries ==> self.next_entry
                        <= m.spec_entries().len())
                    &&& ((self.phase == Phase::FadeIn || self.phase == Phase::MainLoop
                        || self.phase == Phase::SwitchSelect || self.phase == Phase::SwitchAnim)
                        ==> m.spec_focused() < m.spec_entries().len())
                    &&& (self.phase == Phase::SwitchSelect ==> (self.switching as nat)
                        < m.spec_entries().len())
                    &&& (self.phase == Phase::SwitchAnim ==> (self.switching as nat)
                        < m.spec_entries().len() && self.switching as nat != m.spec_focused()
                        && self.anim_frame <= SWAP_FRAMES)
                }
            },
            Phase::ActionMenu => {
                &&& self.session_wf(gpu)
                &&& self.menu matches Some(m) && {
                    &&& 1 <= m.spec_entries().len() <= LAYOUT_CELLS
                    &&& m.spec_focused() < m.spec_entries().len()
                    &&& gpu.windows.live() == 2 * m.spec_entries().len() + 1
                    &&& self.action_window matches Some(w) && w.id() < WINDOW_CAP
                        && gpu.windows.slots()[w.id() as int] && !m.spec_entries()[0].owns_window(
                        w.id(),
                    )
                    &&& forall|i: int|
                        0 <= i < m.spec_entries().len()
                            ==> !(#[trigger] m.spec_entries()[i]).owns_window(
                            self.action_window.unwrap().id(),
                        )
                    &&& self.action_menu matches Some(l) && l.wf()
                }
            },
            Phase::Done => true,
        }
    }

    /// A fresh task for one screen session over the given roster.
    pub fn new(style: Style, roster: Vec<Pokemon>, initial_focus: u8, assets: AssetPack) -> (t:
        ScreenTask)
        requires
            roster@.len() >= 1,
            forall|i: int| 0 <= i < roster@.len() ==> (#[trigger] roster@[i]).wf(),
            assets.wf(),
        ensures
            t.spec_phase() == Phase::Boot,
            t.spec_wait() == 0,
            t.spec_resume_count() == 0,
            !t.is_done(),
            forall|g: Gpu| g.wf() ==> #[trigger] t.wf(g),
    {
        ScreenTask {
            phase: Phase::Boot,
            wait: 0,
            resume_count: 0,
            style,
            initial_focus,
            roster,
            assets,
            resources: None,
            scroll_bg: None,
            fixed_bg: None,
            fg: None,
            menu: None,
            action_window: None,
            action_menu: None,
            next_entry: 0,
            switching: 0,
            anim_frame: 0,
            exit_action: ExitAction::ReturnToCaller,
        }
    }

    /// The current phase.
    pub fn phase(&self) -> (r: Phase)
        ensures
            r == self.spec_phase(),
    {
        self.phase
    }

    /// Ticks left on the current fixed delay.
    pub fn wait_ticks(&self) -> (r: u8)
        ensures
            r as nat == self.spec_wait(),
    {
        self.wait
    }

    /// How many times the task has been resumed.
    pub fn resumes(&self) -> (r: u64)
        ensures
            r as nat == self.spec_resume_count(),
    {
        self.resume_count
    }

    /// The menu, once the session has built it.
    pub fn menu_ref(&self) -> (r: &Option<Menu>)
        ensures
            *r == self.spec_menu(),
    {
        &self.menu
    }

    /// Everything but the wait counter and the resume count is the same.
    pub closed spec fn same_but_wait(a: ScreenTask, b: ScreenTask) -> bool {
        b == (ScreenTask { wait: b.wait, resume_count: b.resume_count, ..a })
    }

    /// Resume the task once, for one frame tick.
    ///
    /// A pending fixed delay of `n` ticks consumes exactly `n` resumes:
    /// while the counter is positive, a resume only decrements it and
    /// touches nothing else, and the suspended logic continues on the
    /// resume after the counter reaches zero; a delay of zero never
    /// suspends at all. Every resume increments the resume count by
    /// exactly one, and the task reports it finished exactly when it has
    /// reached its final phase.
    pub fn resume(&mut self, gpu: &mut Gpu, input: &InputFrame) -> (r: Resumed)
        requires
            old(gpu).wf(),
            old(self).wf(*old(gpu)),
            !old(self).is_done(),
        ensures
            final(gpu).wf(),
            final(self).wf(*final(gpu)),
            final(self).spec_resume_count() == (if old(self).spec_resume_count()
                < 0xFFFF_FFFF_FFFF_FFFF {
                old(self).spec_resume_count() + 1
            } else {
                old(self).spec_resume_count()
            }),
            old(self).spec_wait() > 0 ==> {
                &&& final(self).spec_wait() == old(self).spec_wait() - 1
                &&& ScreenTask::same_but_wait(*old(self), *final(self))
                &&& final(self).spec_phase() == old(self).spec_phase()
                &&& *final(gpu) == *old(gpu)
                &&& r.finished.is_none() && r.banked_item.is_none() && r.roster.is_none()
            },
            r.finished.is_some() <==> final(self).is_done(),
            r.finished.is_some() ==> r.finished == Some(final(self).spec_exit_action()),
            old(self).spec_wait() == 0 && old(self).spec_phase() == Phase::Boot ==> {
                &&& final(self).spec_phase() == Phase::Load
                &&& final(gpu).sprites.live() == 0
                &&& final(gpu).bgs.live() == 0
                &&& final(gpu).windows.live() == 0
                &&& final(gpu).bg_palettes.live() == 0
                &&& final(gpu).obj_palettes.live() == 0
            },
            old(self).spec_wait() == 0 && old(self).spec_phase() == Phase::Load
                ==> (final(self).spec_resources() matches Some(res) && resources_match_assets(
                &res,
                &old(self).spec_assets(),
            )) && final(self).spec_phase() == Phase::Backgrounds,
            old(self).spec_wait() == 0 && old(self).spec_phase() == Phase::Backgrounds ==> {
                &&& final(self).spec_phase() == Phase::CreateEntries
                &&& (final(self).spec_menu() matches Some(m) && m.spec_entries().len() == 0
                    && m.spec_style() == old(self).spec_style())
                &&& final(gpu).bgs.slots().len() == BG_CAP
                &&& final(gpu).bgs.slots()[1] && final(gpu).bgs.slots()[2]
                &&& final(gpu).bgs.slots()[3]
            },
            old(self).spec_wait() == 0 && old(self).spec_phase() == Phase::CreateEntries
                ==> create_step(*old(self), *final(self)),
            old(self).spec_wait() == 0 && old(self).spec_phase() == Phase::PrintEntries
                ==> print_step(*old(self), *final(self), *old(gpu), *final(gpu)),
            old(self).spec_wait() == 0 && old(self).spec_phase() == Phase::StyleEntries
                ==> style_step(*old(self), *final(self), *old(gpu), *final(gpu)),
            old(self).spec_wait() == 0 && old(self).spec_phase() == Phase::FadeIn
                ==> final(self).spec_phase() == (if old(gpu).fade_active() {
                Phase::FadeIn
            } else {
                Phase::MainLoop
            }) && final(self).spec_menu() == old(self).spec_menu() && *final(gpu) == *old(gpu),
            old(self).spec_wait() == 0 && old(self).spec_phase() == Phase::ActionMenu
                ==> action_step(*old(self), *final(self), *old(gpu), *final(gpu), *input, r),
            old(self).spec_wait() == 0 && old(self).spec_phase() == Phase::SwitchSelect
                ==> switch_select_step(*old(self), *final(self), *input),
            old(self).spec_wait() == 0 && old(self).spec_phase() == Phase::SwitchAnim
                ==> anim_step(*old(self), *final(self), *old(gpu), *final(gpu)),
            old(self).spec_wait() == 0 && old(self).spec_phase() == Phase::FadeOut
                ==> fade_out_step(*old(self), *final(self), *old(gpu), *final(gpu), r),
            old(self).spec_wait() == 0 && old(self).spec_phase() == Phase::MainLoop ==> {
                if Button::B.spec_pressed(*input) {
                    final(self).spec_phase() == Phase::FadeOut && final(gpu).fade_timer == 16
                        && final(self).spec_exit_action() == old(self).spec_exit_action()
                } else {
                    {
                        let m0 = old(self).spec_menu().unwrap();
                        let m1 = final(self).spec_menu().unwrap();
                        let nf = spec_update_index(
                            m0.spec_entries().len(),
                            m0.spec_focused(),
                            *input,
                        );
                        &&& m1.spec_focused() == nf
                        &&& m1.spec_entries() == m0.spec_entries()
                        &&& (nf != m0.spec_focused() ==> final(self).spec_phase()
                            == Phase::MainLoop)
                        &&& (nf == m0.spec_focused() && Button::A.spec_pressed(*input)
                            ==> final(self).spec_phase() == Phase::ActionMenu
                            && (final(self).spec_action_menu() matches Some(l) && l.spec_items()
                            == crate::menu::spec_available_actions(
                            m0.spec_style(),
                            m0.spec_entries()[nf as int].spec_poke(),
                        ).map_values(|a: PokeAction| a.spec_id()) && l.spec_cursor() == 0))
                        &&& (nf == m0.spec_focused() && !Button::A.spec_pressed(*input)
                            ==> final(self).spec_phase() == Phase::MainLoop)
                    }
                }
            },
    {
        if self.resume_count < 0xFFFF_FFFF_FFFF_FFFF {
            self.resume_count = self.resume_count + 1;
        }
        if self.wait > 0 {
            self.wait = self.wait - 1;
            return Resumed::pending();
        }
        match self.phase {
            Phase::Boot => self.step_boot(gpu),
            Phase::Load => self.step_load(gpu),
            Phase::Backgrounds => self.step_backgrounds(gpu),
            Phase::CreateEntries => self.step_create(gpu),
            Phase::PrintEntries => self.step_print(gpu),
            Phase::StyleEntries => self.step_style(gpu),
            Phase::FadeIn => self.step_fade_in(gpu),
            Phase::MainLoop => self.step_main(gpu, input),
            Phase::ActionMenu => self.step_action(gpu, input),
            Phase::SwitchSelect => self.step_switch_select(gpu, input),
            Phase::SwitchAnim => self.step_anim(gpu),
            Phase::FadeOut => self.step_fade_out(gpu),
            Phase::Done => {
                proof {
                    assert(false);
                }
                vstd::pervasive::unreached()
            },
        }
    }

    /// Reset the display: every table falls free, nothing is staged.
    fn step_boot(&mut self, gpu: &mut Gpu) -> (r: Resumed)
        requires
            old(gpu).wf(),
            old(self).wf(*old(gpu)),
            old(self).spec_phase() == Phase::Boot,
        ensures
            final(gpu).wf(),
            final(self).wf(*final(gpu)),
            final(self).spec_phase() == Phase::Load,
            final(self).spec_wait() == 1,
            final(self).spec_roster() == old(self).spec_roster(),
            final(gpu).sprites.live() == 0,
            final(gpu).bgs.live() == 0,
            final(gpu).windows.live() == 0,
            final(gpu).bg_palettes.live() == 0,
            final(gpu).obj_palettes.live() == 0,
            !final(gpu).fade_active(),
            !final(self).is_done(),
            final(self).spec_resume_count() == old(self).spec_resume_count(),
            r.finished.is_none() && r.banked_item.is_none() && r.roster.is_none(),
    {
        *gpu = Gpu::new();
        self.phase = Phase::Load;
        self.wait = 1;
        Resumed::pending()
    }

    /// Decompress the shared assets and claim the session palette banks.
    fn step_load(&mut self, gpu: &mut Gpu) -> (r: Resumed)
        requires
            old(gpu).wf(),
            old(self).wf(*old(gpu)),
            old(self).spec_phase() == Phase::Load,
        ensures
            final(gpu).wf(),
            final(self).wf(*final(gpu)),
            final(self).spec_phase() == Phase::Backgrounds,
            !final(self).is_done(),
            final(self).spec_resume_count() == old(self).spec_resume_count(),
            r.finished.is_none() && r.banked_item.is_none() && r.roster.is_none(),
            final(self).spec_resources() matches Some(res) && resources_match_assets(
                &res,
                &old(self).spec_assets(),
            ),
    {
        let resources = load_resources(gpu, &self.assets);
        self.resources = Some(resources);
        self.phase = Phase::Backgrounds;
        self.wait = 1;
        Resumed::pending()
    }

    /// Claim the three background layers, show them, and start with an
    /// empty menu.
    fn step_backgrounds(&mut self, gpu: &mut Gpu) -> (r: Resumed)
        requires
            old(gpu).wf(),
            old(self).wf(*old(gpu)),
            old(self).spec_phase() == Phase::Backgrounds,
        ensures
            final(gpu).wf(),
            final(self).wf(*final(gpu)),
            final(self).spec_phase() == Phase::CreateEntries,
            final(self).spec_wait() == 1,
            final(self).spec_roster() == old(self).spec_roster(),
            final(self).spec_resources() == old(self).spec_resources(),
            (final(self).spec_menu() matches Some(m) && m.spec_entries().len() == 0
                && m.spec_focused() == 0 && m.spec_style() == old(self).spec_style()),
            final(gpu).bgs.slots().len() == BG_CAP,
            final(gpu).bgs.slots()[1] && final(gpu).bgs.slots()[2] && final(gpu).bgs.slots()[3],
            final(gpu).bg_states@[1].shown && final(gpu).bg_states@[2].shown
                && final(gpu).bg_states@[3].shown,
            !final(self).is_done(),
            final(self).spec_resume_count() == old(self).spec_resume_count(),
            r.finished.is_none() && r.banked_item.is_none() && r.roster.is_none(),
    {
        let res = match &self.resources {
            Some(r) => r,
            None => {
                proof {
                    assert(false);
                }
                vstd::pervasive::unreached()
            },
        };
        let scroll_map = Tilemap { map: 0, buffer: AllocBuf::new(Vec::new(), 2) };
        let scroll = Background::load(gpu, BackgroundIndex::Background3, 3, &res.tileset, scroll_map);
        scroll.handle().show(gpu);

        let fixed_map = Tilemap { map: 2, buffer: AllocBuf::new(Vec::new(), 2) };
        let fixed = Background::load(gpu, BackgroundIndex::Background2, 2, &res.tileset, fixed_map);
        fixed.handle().set_pos(gpu, 0, 0);
        fixed.handle().show(gpu);

        let fg_map = Tilemap { map: 4, buffer: AllocBuf::new(Vec::new(), 2) };
        let fg = Background::load(gpu, BackgroundIndex::Background1, 1, &res.tileset, fg_map);
        fg.handle().set_pos(gpu, 0, 0);
        fg.handle().show(gpu);
        fg.handle().copy_tilemap_to_vram(gpu);

        self.scroll_bg = Some(scroll);
        self.fixed_bg = Some(fixed);
        self.fg = Some(fg);
        self.menu = Some(Menu::new(self.style, Vec::new(), 0));
        self.next_entry = 0;
        self.phase = Phase::CreateEntries;
        self.wait = 1;
        Resumed::pending()
    }

    /// Build one entry from the next roster slot, then suspend one tick
    /// to spread the loading across frames.
    fn step_create(&mut self, gpu: &mut Gpu) -> (r: Resumed)
        requires
            old(gpu).wf(),
            old(self).wf(*old(gpu)),
            old(self).spec_phase() == Phase::CreateEntries,
        ensures
            final(gpu).wf(),
            final(self).wf(*final(gpu)),
            final(self).spec_phase() == Phase::CreateEntries || final(self).spec_phase()
                == Phase::PrintEntries,
            !final(self).is_done(),
            final(self).spec_resume_count() == old(self).spec_resume_count(),
            r.finished.is_none() && r.banked_item.is_none() && r.roster.is_none(),
            create_step(*old(self), *final(self)),
    {
        let menu_len = match &self.menu {
            Some(m) => m.len(),
            None => {
                proof {
                    assert(false);
                }
                vstd::pervasive::unreached()
            },
        };
        if menu_len < LAYOUT_CELLS && self.roster.len() > 0 {
            let poke = self.roster.remove(0);
            let res = match &self.resources {
                Some(r) => r,
                None => {
                    proof {
                        assert(false);
                    }
                    vstd::pervasive::unreached()
                },
            };
            let fixed_h = match &self.fixed_bg {
                Some(b) => b.handle(),
                None => {
                    proof {
                        assert(false);
                    }
                    vstd::pervasive::unreached()
                },
            };
            let fg_h = match &self.fg {
                Some(b) => b.handle(),
                None => {
                    proof {
                        assert(false);
                    }
                    vstd::pervasive::unreached()
                },
            };
            let ghost gpu0 = *gpu;
            let entry = Entry::create(gpu, res, fixed_h, fg_h, poke, menu_len as u8);
            match &mut self.menu {
                Some(m) => {
                    proof {
                        assert(entry.wf(*gpu));
                        assert forall|i: int|
                            0 <= i < m.spec_entries().len() implies entry_disjoint(
                            #[trigger] m.spec_entries()[i],
                            entry,
                        ) && entry_disjoint(entry, m.spec_entries()[i]) by {
                            assert(m.spec_entries()[i].wf(gpu0));
                            crate::menu::lemma_fresh_entry_disjoint(
                                m.spec_entries()[i],
                                entry,
                                gpu0,
                            );
                        }
                        assert forall|i: int|
                            0 <= i < m.spec_entries().len() implies (
                        #[trigger] m.spec_entries()[i]).wf(*gpu) by {
                            assert(m.spec_entries()[i].wf(gpu0));
                        }
                    }
                    m.push_entry(gpu, entry);
                },
                None => {
                    proof {
                        assert(false);
                    }
                    vstd::pervasive::unreached()
                },
            }
            self.next_entry = self.next_entry + 1;
            self.wait = 1;
        } else {
            self.next_entry = 0;
            self.phase = Phase::PrintEntries;
        }
        Resumed::pending()
    }

    /// Print one entry's labels, then suspend one tick.
    fn step_print(&mut self, gpu: &mut Gpu) -> (r: Resumed)
        requires
            old(gpu).wf(),
            old(self).wf(*old(gpu)),
            old(self).spec_phase() == Phase::PrintEntries,
        ensures
            final(gpu).wf(),
            final(self).wf(*final(gpu)),
            final(self).spec_phase() == Phase::PrintEntries || final(self).spec_phase()
                == Phase::StyleEntries,
            !final(self).is_done(),
            final(self).spec_resume_count() == old(self).spec_resume_count(),
            r.finished.is_none() && r.banked_item.is_none() && r.roster.is_none(),
            print_step(*old(self), *final(self), *old(gpu), *final(gpu)),
    {
        let menu = match &self.menu {
            Some(m) => m,
            None => {
                proof {
                    assert(false);
                }
                vstd::pervasive::unreached()
            },
        };
        let res = match &self.resources {
            Some(r) => r,
            None => {
                proof {
                    assert(false);
                }
                vstd::pervasive::unreached()
            },
        };
        if (self.next_entry as usize) < menu.len() {
            let ghost gpu0 = *gpu;
            let _ = menu.entry_at(self.next_entry as usize).print_info(gpu, res);
            proof {
                assert forall|i: int|
                    0 <= i < menu.spec_entries().len() implies (
                #[trigger] menu.spec_entries()[i]).wf(*gpu) by {
                    assert(menu.spec_entries()[i].wf(gpu0));
                }
            }
            self.next_entry = self.next_entry + 1;
            self.wait = 1;
        } else {
            self.phase = Phase::StyleEntries;
        }
        Resumed::pending()
    }

    /// Tint every cell (focused or not), settle the initial focus, and
    /// start the fade from black.
    fn step_style(&mut self, gpu: &mut Gpu) -> (r: Resumed)
        requires
            old(gpu).wf(),
            old(self).wf(*old(gpu)),
            old(self).spec_phase() == Phase::StyleEntries,
        ensures
            final(gpu).wf(),
            final(self).wf(*final(gpu)),
            final(self).spec_phase() == Phase::FadeIn,
            !final(self).is_done(),
            final(self).spec_resume_count() == old(self).spec_resume_count(),
            r.finished.is_none() && r.banked_item.is_none() && r.roster.is_none(),
            style_step(*old(self), *final(self), *old(gpu), *final(gpu)),
    {
        let res = match &self.resources {
            Some(r) => r,
            None => {
                proof {
                    assert(false);
                }
                vstd::pervasive::unreached()
            },
        };
        let fixed_h = match &self.fixed_bg {
            Some(b) => b.handle(),
            None => {
                proof {
                    assert(false);
                }
                vstd::pervasive::unreached()
            },
        };
        let menu = match &mut self.menu {
            Some(m) => m,
            None => {
                proof {
                    assert(false);
                }
                vstd::pervasive::unreached()
            },
        };
        let len = menu.len();
        let focus: u8 = if (self.initial_focus as usize) < len {
            self.initial_focus
        } else {
            0
        };
        menu.set_focused(gpu, focus);
        let ghost entries0 = menu.spec_entries();
        let ghost base = gpu.bg_states@[2].rect_copies@.len();
        let mut k: usize = 0;
        while k < len
            invariant
                k <= len,
                gpu.wf(),
                menu.wf(*gpu),
                resources_wf(res, *gpu),
                len == menu.spec_entries().len(),
                menu.spec_entries() == entries0,
                menu.spec_focused() == focus,
                (focus as nat) < len,
                fixed_h.id() == 2,
                gpu.bgs.slots()[fixed_h.id() as int],
                gpu.bgs == old(gpu).bgs,
                gpu.sprites == old(gpu).sprites,
                gpu.windows == old(gpu).windows,
                gpu.bg_palettes == old(gpu).bg_palettes,
                gpu.obj_palettes == old(gpu).obj_palettes,
                gpu.fade_timer == old(gpu).fade_timer,
                gpu.bg_states@.len() == BG_CAP,
                gpu.bg_states@[2].rect_copies@.len() == base + k,
                forall|m: int|
                    0 <= m < k ==> gpu.bg_states@[2].rect_copies@[base + m]
                        == crate::menu::tint_copy(
                        entries0[m],
                        if m == focus as int {
                            BackgroundStyle::Focused
                        } else {
                            BackgroundStyle::Unfocused
                        },
                    ),
            decreases len - k,
        {
            let style = if k == focus as usize {
                BackgroundStyle::Focused
            } else {
                BackgroundStyle::Unfocused
            };
            menu.update_entry_bg(gpu, res, fixed_h, k as u8, style);
            k = k + 1;
        }
        fade_palette(gpu, PaletteMask::all(), 0, 16, 0, 0);
        self.phase = Phase::FadeIn;
        Resumed::pending()
    }

    /// Poll the fade from black once; the loop begins the tick after it
    /// finishes.
    fn step_fade_in(&mut self, gpu: &mut Gpu) -> (r: Resumed)
        requires
            old(gpu).wf(),
            old(self).wf(*old(gpu)),
            old(self).spec_phase() == Phase::FadeIn,
        ensures
            final(gpu).wf(),
            final(self).wf(*final(gpu)),
            final(self).spec_phase() == (if old(gpu).fade_active() {
                Phase::FadeIn
            } else {
                Phase::MainLoop
            }),
            final(self).spec_menu() == old(self).spec_menu(),
            *final(gpu) == *old(gpu),
            !final(self).is_done(),
            final(self).spec_resume_count() == old(self).spec_resume_count(),
            r.finished.is_none() && r.banked_item.is_none() && r.roster.is_none(),
    {
        if !gpu.fade_is_active() {
            self.phase = Phase::MainLoop;
        }
        Resumed::pending()
    }

    /// One tick of the interactive loop: cancel starts the exit fade,
    /// directional input moves the focus, confirm opens the action list.
    fn step_main(&mut self, gpu: &mut Gpu, input: &InputFrame) -> (r: Resumed)
        requires
            old(gpu).wf(),
            old(self).wf(*old(gpu)),
            old(self).spec_phase() == Phase::MainLoop,
        ensures
            final(gpu).wf(),
            final(self).wf(*final(gpu)),
            !final(self).is_done(),
            final(self).spec_resume_count() == old(self).spec_resume_count(),
            r.finished.is_none() && r.banked_item.is_none() && r.roster.is_none(),
            if Button::B.spec_pressed(*input) {
                final(self).spec_phase() == Phase::FadeOut && final(gpu).fade_timer == 16
                    && final(self).spec_exit_action() == old(self).spec_exit_action()
            } else {
                {
                    let m0 = old(self).spec_menu().unwrap();
                    let m1 = final(self).spec_menu().unwrap();
                    let nf = spec_update_index(m0.spec_entries().len(), m0.spec_focused(), *input);
                    &&& m1.spec_focused() == nf
                    &&& m1.spec_entries() == m0.spec_entries()
                    &&& (nf != m0.spec_focused() ==> final(self).spec_phase() == Phase::MainLoop)
                    &&& (nf == m0.spec_focused() && Button::A.spec_pressed(*input)
                        ==> final(self).spec_phase() == Phase::ActionMenu
                        && (final(self).spec_action_menu() matches Some(l) && l.spec_items()
                        == crate::menu::spec_available_actions(
                        m0.spec_style(),
                        m0.spec_entries()[nf as int].spec_poke(),
                    ).map_values(|a: PokeAction| a.spec_id()) && l.spec_cursor() == 0))
                    &&& (nf == m0.spec_focused() && !Button::A.spec_pressed(*input)
                        ==> final(self).spec_phase() == Phase::MainLoop)
                }
            },
    {
        if Button::B.pressed(input) {
            fade_palette(gpu, PaletteMask::all(), 0, 0, 16, 0);
            self.phase = Phase::FadeOut;
            return Resumed::pending();
        }
        let res = match &self.resources {
            Some(r) => r,
            None => {
                proof {
                    assert(false);
                }
                vstd::pervasive::unreached()
            },
        };
        let fixed_h = match &self.fixed_bg {
            Some(b) => b.handle(),
            None => {
                proof {
                    assert(false);
                }
                vstd::pervasive::unreached()
            },
        };
        let fg_h = match &self.fg {
            Some(b) => b.handle(),
            None => {
                proof {
                    assert(false);
                }
                vstd::pervasive::unreached()
            },
        };
        let menu = match &mut self.menu {
            Some(m) => m,
            None => {
                proof {
                    assert(false);
                }
                vstd::pervasive::unreached()
            },
        };
        let focused = menu.focused_index();
        let nf = menu.update_index(focused, input);
        if nf != focused {
            menu.change_focus(gpu, res, fixed_h, nf);
            return Resumed::pending();
        }
        if Button::A.pressed(input) {
            let entry = menu.entry_at(focused as usize);
            let actions = menu.available_actions(entry);
            let mut ids: Vec<i32> = Vec::new();
            let mut k: usize = 0;
            while k < actions.len()
                invariant
                    k <= actions@.len(),
                    ids@ =~= actions@.take(k as int).map_values(|a: PokeAction| a.spec_id()),
                decreases actions@.len() - k,
            {
                ids.push(actions[k].id());
                proof {
                    assert(actions@.take(k + 1).map_values(|a: PokeAction| a.spec_id())
                        =~= actions@.take(k as int).map_values(|a: PokeAction| a.spec_id()).push(
                        actions@[k as int].spec_id(),
                    ));
                }
                k = k + 1;
            }
            proof {
                assert(actions@.take(actions@.len() as int) =~= actions@);
            }
            let win = Window::create(
                gpu,
                fg_h,
                Rect { x: 21, y: 11, width: 8, height: 8 },
                res.msg_box_gfx.palette,
                0x380,
            );
            win.handle().put_tilemap(gpu);
            win.handle().copy_to_vram(gpu);
            win.handle().draw_border(gpu, res.user_window_gfx);
            let list = ListMenu::create(&win, ids);
            proof {
                let m = self.menu.unwrap();
                assert forall|i: int|
                    0 <= i < m.spec_entries().len() implies !(
                #[trigger] m.spec_entries()[i]).owns_window(win.id()) by {
                    assert(m.spec_entries()[i].wf(*old(gpu)));
                }
            }
            self.action_window = Some(win);
            self.action_menu = Some(list);
            self.phase = Phase::ActionMenu;
        }
        Resumed::pending()
    }

    /// Close the action list's window and list state.
    fn close_action_menu(&mut self, gpu: &mut Gpu)
        requires
            old(gpu).wf(),
            old(self).wf(*old(gpu)),
            old(self).spec_phase() == Phase::ActionMenu,
        ensures
            final(gpu).wf(),
            final(self).wf(*final(gpu)),
            final(self).spec_phase() == Phase::MainLoop,
            final(self).spec_menu() == old(self).spec_menu(),
            final(self).spec_resume_count() == old(self).spec_resume_count(),
            final(self).spec_exit_action() == old(self).spec_exit_action(),
            final(self).spec_action_window().is_none(),
            final(self).spec_action_menu().is_none(),
            final(gpu).windows.live() == old(gpu).windows.live() - 1,
            final(gpu).fade_timer == old(gpu).fade_timer,
            final(gpu).sprites == old(gpu).sprites,
            final(gpu).obj_palettes == old(gpu).obj_palettes,
            final(gpu).bgs == old(gpu).bgs,
            final(gpu).bg_palettes == old(gpu).bg_palettes,
    {
        let mut taken: Option<Window> = None;
        core::mem::swap(&mut self.action_window, &mut taken);
        match taken {
            Some(w) => {
                w.handle().clear_with_border(gpu);
                w.release(gpu);
            },
            None => {
                proof {
                    assert(false);
                }
                vstd::pervasive::unreached()
            },
        }
        self.action_menu = None;
        self.phase = Phase::MainLoop;
        proof {
            let m = self.menu.unwrap();
            assert forall|i: int|
                0 <= i < m.spec_entries().len() implies (#[trigger] m.spec_entries()[i]).wf(*gpu) by {
                assert(m.spec_entries()[i].wf(*old(gpu)));
            }
        }
    }

    /// One tick of the action list: feed it the frame's input and carry
    /// out whatever it yields. Inspecting or giving an item decides the
    /// exit and starts the exit fade; taking the held item banks it with
    /// the host and returns to the loop; choosing a swap begins the
    /// switch selection.
    fn step_action(&mut self, gpu: &mut Gpu, input: &InputFrame) -> (r: Resumed)
        requires
            old(gpu).wf(),
            old(self).wf(*old(gpu)),
            old(self).spec_phase() == Phase::ActionMenu,
        ensures
            final(gpu).wf(),
            final(self).wf(*final(gpu)),
            !final(self).is_done(),
            final(self).spec_resume_count() == old(self).spec_resume_count(),
            r.finished.is_none() && r.roster.is_none(),
            action_step(*old(self), *final(self), *old(gpu), *final(gpu), *input, r),
    {
        let result = match &mut self.action_menu {
            Some(l) => l.process_input(input),
            None => {
                proof {
                    assert(false);
                }
                vstd::pervasive::unreached()
            },
        };
        proof {
            let m = self.menu.unwrap();
            assert forall|i: int|
                0 <= i < m.spec_entries().len() implies (#[trigger] m.spec_entries()[i]).wf(*gpu) by {
                assert(m.spec_entries()[i].wf(*old(gpu)));
            }
        }
        match result {
            ListResult::Nothing => Resumed::pending(),
            ListResult::Cancel => {
                self.close_action_menu(gpu);
                Resumed::pending()
            },
            ListResult::Chosen(id) => {
                let action = match PokeAction::from_id(id) {
                    Some(a) => a,
                    None => {
                        // An id outside the action set never comes back:
                        // the list holds only ids of real actions.
                        self.close_action_menu(gpu);
                        return Resumed::pending();
                    },
                };
                match action {
                    PokeAction::Summary => {
                        let f = match &self.menu {
                            Some(m) => m.focused_index(),
                            None => {
                                proof {
                                    assert(false);
                                }
                                vstd::pervasive::unreached()
                            },
                        };
                        self.exit_action = ExitAction::OpenSummary { index: f };
                        self.close_action_menu(gpu);
                        fade_palette(gpu, PaletteMask::all(), 0, 0, 16, 0);
                        self.phase = Phase::FadeOut;
                        Resumed::pending()
                    },
                    PokeAction::GiveItem => {
                        let f = match &self.menu {
                            Some(m) => m.focused_index(),
                            None => {
                                proof {
                                    assert(false);
                                }
                                vstd::pervasive::unreached()
                            },
                        };
                        self.exit_action = ExitAction::OpenItemBag { index: f };
                        self.close_action_menu(gpu);
                        fade_palette(gpu, PaletteMask::all(), 0, 0, 16, 0);
                        self.phase = Phase::FadeOut;
                        Resumed::pending()
                    },
                    PokeAction::TakeItem => {
                        self.close_action_menu(gpu);
                        let item = match &mut self.menu {
                            Some(m) => m.take_hold_item(gpu),
                            None => {
                                proof {
                                    assert(false);
                                }
                                vstd::pervasive::unreached()
                            },
                        };
                        Resumed { finished: None, banked_item: item, roster: None }
                    },
                    PokeAction::Switch => {
                        let f = match &self.menu {
                            Some(m) => m.focused_index(),
                            None => {
                                proof {
                                    assert(false);
                                }
                                vstd::pervasive::unreached()
                            },
                        };
                        self.close_action_menu(gpu);
                        self.switching = f;
                        let res = match &self.resources {
                            Some(r) => r,
                            None => {
                                proof {
                                    assert(false);
                                }
                                vstd::pervasive::unreached()
                            },
                        };
                        let fixed_h = match &self.fixed_bg {
                            Some(b) => b.handle(),
                            None => {
                                proof {
                                    assert(false);
                                }
                                vstd::pervasive::unreached()
                            },
                        };
                        match &self.menu {
                            Some(m) => {
                                m.update_entry_bg(
                                    gpu,
                                    res,
                                    fixed_h,
                                    f,
                                    BackgroundStyle::SwitchFocused,
                                );
                            },
                            None => {
                                proof {
                                    assert(false);
                                }
                                vstd::pervasive::unreached()
                            },
                        }
                        self.phase = Phase::SwitchSelect;
                        Resumed::pending()
                    },
                }
            },
        }
    }

    /// One tick of switch selection: cancel restores the tints and
    /// returns to the loop, directional input moves the switch cursor,
    /// and confirm starts the swap slide (or returns, when the second
    /// entry is the first).
    fn step_switch_select(&mut self, gpu: &mut Gpu, input: &InputFrame) -> (r: Resumed)
        requires
            old(gpu).wf(),
            old(self).wf(*old(gpu)),
            old(self).spec_phase() == Phase::SwitchSelect,
        ensures
            final(gpu).wf(),
            final(self).wf(*final(gpu)),
            !final(self).is_done(),
            final(self).spec_resume_count() == old(self).spec_resume_count(),
            r.finished.is_none() && r.banked_item.is_none() && r.roster.is_none(),
            switch_select_step(*old(self), *final(self), *input),
    {
        let res = match &self.resources {
            Some(r) => r,
            None => {
                proof {
                    assert(false);
                }
                vstd::pervasive::unreached()
            },
        };
        let fixed_h = match &self.fixed_bg {
            Some(b) => b.handle(),
            None => {
                proof {
                    assert(false);
                }
                vstd::pervasive::unreached()
            },
        };
        let switching = self.switching;
        let menu = match &mut self.menu {
            Some(m) => m,
            None => {
                proof {
                    assert(false);
                }
                vstd::pervasive::unreached()
            },
        };
        if Button::B.pressed(input) {
            menu.update_entry_bg(gpu, res, fixed_h, switching, BackgroundStyle::Unfocused);
            let f = menu.focused_index();
            menu.update_entry_bg(gpu, res, fixed_h, f, BackgroundStyle::Focused);
            self.phase = Phase::MainLoop;
            return Resumed::pending();
        }
        if Button::A.pressed(input) {
            let f = menu.focused_index();
            if f == switching {
                menu.update_entry_bg(gpu, res, fixed_h, f, BackgroundStyle::Focused);
                self.phase = Phase::MainLoop;
            } else {
                self.anim_frame = 0;
                self.phase = Phase::SwitchAnim;
            }
            return Resumed::pending();
        }
        let focused = menu.focused_index();
        let nf = menu.update_index(focused, input);
        if nf != focused {
            menu.change_focus_switch(gpu, res, fixed_h, switching, nf);
        }
        Resumed::pending()
    }

    /// One frame of the swap slide: both entries move one interpolation
    /// step between their cells; on the last frame every owned content
    /// resource is exchanged, both entries are reprinted, and the tints
    /// are restored.
    fn step_anim(&mut self, gpu: &mut Gpu) -> (r: Resumed)
        requires
            old(gpu).wf(),
            old(self).wf(*old(gpu)),
            old(self).spec_phase() == Phase::SwitchAnim,
        ensures
            final(gpu).wf(),
            final(self).wf(*final(gpu)),
            !final(self).is_done(),
            final(self).spec_resume_count() == old(self).spec_resume_count(),
            r.finished.is_none() && r.banked_item.is_none() && r.roster.is_none(),
            anim_step(*old(self), *final(self), *old(gpu), *final(gpu)),
    {
        let res = match &self.resources {
            Some(r) => r,
            None => {
                proof {
                    assert(false);
                }
                vstd::pervasive::unreached()
            },
        };
        let fixed_h = match &self.fixed_bg {
            Some(b) => b.handle(),
            None => {
                proof {
                    assert(false);
                }
                vstd::pervasive::unreached()
            },
        };
        let switching = self.switching;
        let menu = match &mut self.menu {
            Some(m) => m,
            None => {
                proof {
                    assert(false);
                }
                vstd::pervasive::unreached()
            },
        };
        let f = menu.focused_index();
        proof {
            assert(crate::menu::entry_disjoint(
                menu.spec_entries()[f as int],
                menu.spec_entries()[switching as int],
            ));
            assert(crate::menu::entry_disjoint(
                menu.spec_entries()[switching as int],
                menu.spec_entries()[f as int],
            ));
        }
        if self.anim_frame < SWAP_FRAMES {
            let i = (self.anim_frame + 1) as i32;
            let n = SWAP_FRAMES as i32;
            let pos_f = mon_cell(f).tile_to_pixel();
            let pos_s = mon_cell(switching).tile_to_pixel();
            let fx = lerp(pos_f.x, pos_s.x, i, n);
            let fy = lerp(pos_f.y, pos_s.y, i, n);
            let sx = lerp(pos_s.x, pos_f.x, i, n);
            let sy = lerp(pos_s.y, pos_f.y, i, n);
            let ghost gpu0 = *gpu;
            menu.entry_at(f as usize).update_pos(gpu, Vec2D { x: fx, y: fy });
            menu.entry_at(switching as usize).update_pos(gpu, Vec2D { x: sx, y: sy });
            proof {
                assert forall|i2: int|
                    0 <= i2 < menu.spec_entries().len() implies (
                #[trigger] menu.spec_entries()[i2]).wf(*gpu) by {
                    assert(menu.spec_entries()[i2].wf(gpu0));
                }
            }
            self.anim_frame = self.anim_frame + 1;
        } else {
            menu.swap_entries(gpu, f as usize, switching as usize);
            let ghost gpu1 = *gpu;
            let _ = menu.entry_at(f as usize).print_info(gpu, res);
            let _ = menu.entry_at(switching as usize).print_info(gpu, res);
            proof {
                assert forall|i2: int|
                    0 <= i2 < menu.spec_entries().len() implies (
                #[trigger] menu.spec_entries()[i2]).wf(*gpu) by {
                    assert(menu.spec_entries()[i2].wf(gpu1));
                }
            }
            menu.update_entry_bg(gpu, res, fixed_h, switching, BackgroundStyle::Unfocused);
            menu.update_entry_bg(gpu, res, fixed_h, f, BackgroundStyle::Focused);
            self.phase = Phase::MainLoop;
        }
        Resumed::pending()
    }

    /// Poll the exit fade once; when it has finished, tear the whole
    /// session down: the menu, the background layers and the session
    /// palette banks all release their claims, and the mutated roster
    /// goes back to the host with the exit action.
    fn step_fade_out(&mut self, gpu: &mut Gpu) -> (r: Resumed)
        requires
            old(gpu).wf(),
            old(self).wf(*old(gpu)),
            old(self).spec_phase() == Phase::FadeOut,
        ensures
            final(gpu).wf(),
            final(self).wf(*final(gpu)),
            final(self).spec_resume_count() == old(self).spec_resume_count(),
            final(self).spec_exit_action() == old(self).spec_exit_action(),
            r.finished.is_some() <==> final(self).is_done(),
            r.finished.is_some() ==> r.finished == Some(final(self).spec_exit_action()),
            r.banked_item.is_none(),
            old(gpu).fade_active() ==> final(self).spec_phase() == Phase::FadeOut,
            !old(gpu).fade_active() ==> final(self).spec_phase() == Phase::Done
                && r.roster.is_some(),
            fade_out_step(*old(self), *final(self), *old(gpu), *final(gpu), r),
    {
        if gpu.fade_is_active() {
            return Resumed::pending();
        }
        let mut menu_taken: Option<Menu> = None;
        core::mem::swap(&mut self.menu, &mut menu_taken);
        let roster = match menu_taken {
            Some(m) => m.release(gpu),
            None => {
                proof {
                    assert(false);
                }
                vstd::pervasive::unreached()
            },
        };
        let mut bg_taken: Option<Background> = None;
        core::mem::swap(&mut self.scroll_bg, &mut bg_taken);
        match bg_taken {
            Some(b) => b.release(gpu),
            None => {
                proof {
                    assert(false);
                }
                vstd::pervasive::unreached()
            },
        }
        let mut bg_taken2: Option<Background> = None;
        core::mem::swap(&mut self.fixed_bg, &mut bg_taken2);
        match bg_taken2 {
            Some(b) => b.release(gpu),
            None => {
                proof {
                    assert(false);
                }
                vstd::pervasive::unreached()
            },
        }
        let mut bg_taken3: Option<Background> = None;
        core::mem::swap(&mut self.fg, &mut bg_taken3);
        match bg_taken3 {
            Some(b) => b.release(gpu),
            None => {
                proof {
                    assert(false);
                }
                vstd::pervasive::unreached()
            },
        }
        let mut res_taken: Option<Resources> = None;
        core::mem::swap(&mut self.resources, &mut res_taken);
        match res_taken {
            Some(r2) => release_resources(gpu, r2),
            None => {
                proof {
                    assert(false);
                }
                vstd::pervasive::unreached()
            },
        }
        self.phase = Phase::Done;
        Resumed {
            finished: Some(self.exit_action),
            banked_item: None,
            roster: Some(roster),
        }
    }
}

} // verus!
