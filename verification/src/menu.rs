//! The roster menu: per-cell entries, focus navigation, action selection
//! and entry swapping.
//!
//! Six layout cells are arranged in two rows of three. Horizontal focus
//! movement wraps around the live entries; vertical movement jumps by the
//! row stride and clamps to the valid range instead of wrapping. Each
//! entry owns the sprites and windows that draw it, and swapping two
//! entries exchanges every owned content resource while the cells, their
//! windows and the table claims stay put.

use vstd::prelude::*;

use crate::charmap::{spec_decimal, spec_map, Pkstr, PKSTR_END};
use crate::codec::AllocBuf;
use crate::data::Pokemon;
use crate::geom::{Rect, Vec2D};
use crate::gpu::{
    same_but_sprite_states, Gpu, PALETTE_CAP, SPRITE_CAP, WINDOW_CAP,
};
use crate::gpu::{SpriteState, WinFill};
use crate::graphics::{
    BgHandle, BgPalette, Font, ObjPalette, PokemonSpritePic, SheetSprite, Sprite, SpriteAnims,
    SpriteImage, SpriteSheet, TilesetHandle, Window, WindowHandle,
};
use crate::input::{Button, InputFrame};

verus! {

/// The number of layout cells on the screen.
pub const LAYOUT_CELLS: usize = 6;

/// The layout stride between the two rows: vertical movement jumps by
/// this many cells.
pub const ROW_STRIDE: usize = 3;

/// The pixel width of a full health bar.
pub const HP_BAR_PIXELS: u16 = 48;

/// How the screen was entered: a full session allows mutation, a
/// read-only one only inspection.
#[derive(Clone, Copy, PartialEq, Eq, Structural, Debug)]
pub enum Style {
    Party,
    ReadOnly,
}

/// The tint an entry's background cell is drawn with.
#[derive(Clone, Copy, PartialEq, Eq, Structural, Debug)]
pub enum BackgroundStyle {
    Focused,
    Unfocused,
    SwitchFocused,
    SwitchUnfocused,
    KoFocused,
    KoUnfocused,
}

impl BackgroundStyle {
    /// The palette bank the tint is drawn with.
    pub open spec fn spec_palette_index(self) -> nat {
        match self {
            BackgroundStyle::Focused => 0,
            BackgroundStyle::Unfocused => 1,
            BackgroundStyle::SwitchFocused => 2,
            BackgroundStyle::SwitchUnfocused => 3,
            BackgroundStyle::KoFocused => 4,
            BackgroundStyle::KoUnfocused => 5,
        }
    }

    /// The palette bank the tint is drawn with.
    pub fn palette_index(self) -> (r: usize)
        ensures
            r == self.spec_palette_index(),
    {
        match self {
            BackgroundStyle::Focused => 0,
            BackgroundStyle::Unfocused => 1,
            BackgroundStyle::SwitchFocused => 2,
            BackgroundStyle::SwitchUnfocused => 3,
            BackgroundStyle::KoFocused => 4,
            BackgroundStyle::KoUnfocused => 5,
        }
    }

    /// A fainted entry is drawn in the knocked-out variant of its focus
    /// style, whatever state the menu is in.
    pub open spec fn spec_for_hp(self, ko: bool) -> BackgroundStyle {
        if ko {
            match self {
                BackgroundStyle::Focused => BackgroundStyle::KoFocused,
                BackgroundStyle::Unfocused => BackgroundStyle::KoUnfocused,
                other => other,
            }
        } else {
            self
        }
    }

    /// The style with the knocked-out override applied.
    pub fn for_hp(self, ko: bool) -> (r: BackgroundStyle)
        ensures
            r == self.spec_for_hp(ko),
    {
        if ko {
            match self {
                BackgroundStyle::Focused => BackgroundStyle::KoFocused,
                BackgroundStyle::Unfocused => BackgroundStyle::KoUnfocused,
                other => other,
            }
        } else {
            self
        }
    }
}

/// An action the focused entry can offer.
#[derive(Clone, Copy, PartialEq, Eq, Structural, Debug)]
pub enum PokeAction {
    Summary,
    Switch,
    GiveItem,
    TakeItem,
}

impl PokeAction {
    /// The id the selection list reports the action under.
    pub open spec fn spec_id(self) -> i32 {
        match self {
            PokeAction::Summary => 1,
            PokeAction::Switch => 2,
            PokeAction::GiveItem => 3,
            PokeAction::TakeItem => 4,
        }
    }

    /// The id the selection list reports the action under.
    pub fn id(self) -> (r: i32)
        ensures
            r == self.spec_id(),
    {
        match self {
            PokeAction::Summary => 1,
            PokeAction::Switch => 2,
            PokeAction::GiveItem => 3,
            PokeAction::TakeItem => 4,
        }
    }

    /// The action with the given list id, if any.
    pub fn from_id(id: i32) -> (r: Option<PokeAction>)
        ensures
            match r {
                Some(a) => a.spec_id() == id,
                None => id != 1 && id != 2 && id != 3 && id != 4,
            },
    {
        if id == 1 {
            Some(PokeAction::Summary)
        } else if id == 2 {
            Some(PokeAction::Switch)
        } else if id == 3 {
            Some(PokeAction::GiveItem)
        } else if id == 4 {
            Some(PokeAction::TakeItem)
        } else {
            None
        }
    }

    /// The action's ASCII label.
    pub open spec fn spec_label(self) -> Seq<u8> {
        match self {
            PokeAction::Summary => seq![83u8, 117u8, 109u8, 109u8, 97u8, 114u8, 121u8],
            PokeAction::Switch => seq![83u8, 119u8, 105u8, 116u8, 99u8, 104u8],
            PokeAction::GiveItem => seq![
                71u8,
                105u8,
                118u8,
                101u8,
                32u8,
                73u8,
                116u8,
                101u8,
                109u8,
            ],
            PokeAction::TakeItem => seq![
                84u8,
                97u8,
                107u8,
                101u8,
                32u8,
                73u8,
                116u8,
                101u8,
                109u8,
            ],
        }
    }

    /// The action's label in the device's text encoding.
    pub fn name(self) -> (r: Pkstr)
        ensures
            r@ == self.spec_label().map_values(|b: u8| spec_map(b)).push(PKSTR_END),
    {
        let mut label: Vec<u8> = Vec::new();
        match self {
            PokeAction::Summary => {
                label.push(83);
                label.push(117);
                label.push(109);
                label.push(109);
                label.push(97);
                label.push(114);
                label.push(121);
                proof {
                    assert(label@ =~= self.spec_label());
                }
            },
            PokeAction::Switch => {
                label.push(83);
                label.push(119);
                label.push(105);
                label.push(116);
                label.push(99);
                label.push(104);
                proof {
                    assert(label@ =~= self.spec_label());
                }
            },
            PokeAction::GiveItem => {
                label.push(71);
                label.push(105);
                label.push(118);
                label.push(101);
                label.push(32);
                label.push(73);
                label.push(116);
                label.push(101);
                label.push(109);
                proof {
                    assert(label@ =~= self.spec_label());
                }
            },
            PokeAction::TakeItem => {
                label.push(84);
                label.push(97);
                label.push(107);
                label.push(101);
                label.push(32);
                label.push(73);
                label.push(116);
                label.push(101);
                label.push(109);
                proof {
                    assert(label@ =~= self.spec_label());
                }
            },
        }
        let encoded = crate::charmap::encode_plain(&label);
        Pkstr::from_bytes(encoded)
    }
}

/// What runs when the session ends.
#[derive(Clone, Copy, PartialEq, Eq, Structural, Debug)]
pub enum ExitAction {
    /// Hand control straight back to the caller.
    ReturnToCaller,
    /// Open the detail view of the entry at this index.
    OpenSummary { index: u8 },
    /// Open the item-transfer flow for the entry at this index.
    OpenItemBag { index: u8 },
}

/// Vertical focus movement: jump by `delta` (one row stride up or down)
/// and clamp into the live entries, never wrapping.
pub open spec fn spec_updown(len: nat, base: nat, delta: int) -> nat {
    if base + delta < 0 {
        0
    } else if base + delta > len - 1 {
        (len - 1) as nat
    } else {
        (base + delta) as nat
    }
}

/// Horizontal focus movement: step by `delta` and wrap around the live
/// entries.
pub open spec fn spec_leftright(len: nat, base: nat, delta: int) -> nat {
    (((base + delta) % (len as int) + len) % (len as int)) as nat
}

/// The focus index after one frame of directional input: right and left
/// wrap around the live entries, up and down jump by the row stride and
/// clamp.
pub open spec fn spec_update_index(len: nat, base: nat, input: InputFrame) -> nat {
    if Button::Right.spec_pressed(input) {
        spec_leftright(len, base, 1)
    } else if Button::Left.spec_pressed(input) {
        spec_leftright(len, base, -1)
    } else if Button::Up.spec_pressed(input) {
        spec_updown(len, base, -(ROW_STRIDE as int))
    } else if Button::Down.spec_pressed(input) {
        spec_updown(len, base, ROW_STRIDE as int)
    } else {
        base
    }
}

/// Whether `action` may be offered for a roster item: everything needs a
/// mutable session, an egg can only be inspected, and an item can only be
/// taken where one is held.
pub open spec fn spec_action_available(style: Style, poke: Pokemon, action: PokeAction) -> bool {
    match action {
        PokeAction::Summary => true,
        PokeAction::Switch => style == Style::Party && !poke.spec_is_egg(),
        PokeAction::GiveItem => style == Style::Party && !poke.spec_is_egg(),
        PokeAction::TakeItem => style == Style::Party && !poke.spec_is_egg()
            && poke.spec_item().is_some(),
    }
}

/// The action list offered for a roster item, in presentation order.
pub open spec fn spec_available_actions(style: Style, poke: Pokemon) -> Seq<PokeAction> {
    seq![PokeAction::Summary] + (if spec_action_available(style, poke, PokeAction::Switch) {
        seq![PokeAction::Switch]
    } else {
        Seq::empty()
    }) + (if spec_action_available(style, poke, PokeAction::GiveItem) {
        seq![PokeAction::GiveItem]
    } else {
        Seq::empty()
    }) + (if spec_action_available(style, poke, PokeAction::TakeItem) {
        seq![PokeAction::TakeItem]
    } else {
        Seq::empty()
    })
}

/// The filled pixel width of the health bar: the current health's share
/// of the bar's full width, rounded down.
pub open spec fn spec_hp_bar_width(hp: u16, max_hp: u16) -> int {
    (hp as int) * (HP_BAR_PIXELS as int) / (max_hp as int)
}

/// The filled pixel width of the health bar.
pub fn hp_bar_width(hp: u16, max_hp: u16) -> (r: u16)
    requires
        max_hp >= 1,
        hp <= max_hp,
    ensures
        r == spec_hp_bar_width(hp, max_hp),
        r <= HP_BAR_PIXELS,
{
    let wide = (hp as u32) * (HP_BAR_PIXELS as u32) / (max_hp as u32);
    proof {
        assert((hp as int) * (HP_BAR_PIXELS as int) / (max_hp as int) <= HP_BAR_PIXELS as int)
            by (nonlinear_arith)
            requires
                max_hp >= 1,
                hp <= max_hp,
        ;
    }
    wide as u16
}

/// The two bar colors for a filled width: a red pair below a third of
/// the bar, a yellow pair below half, and a green pair above.
pub open spec fn spec_hp_bar_colors(width: int) -> (u8, u8) {
    if width < 12 {
        (15u8, 14u8)
    } else if width < 24 {
        (11u8, 10u8)
    } else {
        (13u8, 12u8)
    }
}

/// The two bar colors for a filled width.
pub fn hp_bar_colors(width: u16) -> (r: (u8, u8))
    ensures
        r == spec_hp_bar_colors(width as int),
{
    if width < 12 {
        (15, 14)
    } else if width < 24 {
        (11, 10)
    } else {
        (13, 12)
    }
}

/// The tile position of a layout cell: two rows of three, the upper row
/// along the top, the lower row below it.
pub open spec fn spec_mon_cell(index: nat) -> Vec2D {
    if index == 0 {
        Vec2D { x: 1, y: 1 }
    } else if index == 1 {
        Vec2D { x: 11, y: 1 }
    } else if index == 2 {
        Vec2D { x: 21, y: 1 }
    } else if index == 3 {
        Vec2D { x: 1, y: 10 }
    } else if index == 4 {
        Vec2D { x: 11, y: 10 }
    } else {
        Vec2D { x: 21, y: 10 }
    }
}

/// The tile position of a layout cell.
pub fn mon_cell(index: u8) -> (r: Vec2D)
    requires
        index < LAYOUT_CELLS,
    ensures
        r == spec_mon_cell(index as nat),
{
    if index == 0 {
        Vec2D { x: 1, y: 1 }
    } else if index == 1 {
        Vec2D { x: 11, y: 1 }
    } else if index == 2 {
        Vec2D { x: 21, y: 1 }
    } else if index == 3 {
        Vec2D { x: 1, y: 10 }
    } else if index == 4 {
        Vec2D { x: 11, y: 10 }
    } else {
        Vec2D { x: 21, y: 10 }
    }
}

/// The screen position interpolated `i` frames into an `n`-frame slide
/// from `from` to `to`.
pub open spec fn spec_lerp(from: int, to: int, i: int, n: int) -> int {
    to * i / n + from * (n - i) / n
}

/// One axis of the swap slide: the weighted mix of the two endpoints.
pub fn lerp(from: i32, to: i32, i: i32, n: i32) -> (r: i32)
    requires
        0 < n <= 64,
        0 <= i <= n,
        0 <= from <= 0x10000,
        0 <= to <= 0x10000,
    ensures
        r == spec_lerp(from as int, to as int, i as int, n as int),
        0 <= r <= from + to,
{
    proof {
        assert(0 <= (to as int) * (i as int) <= 0x1000000 && 0 <= (from as int) * ((n - i) as int)
            <= 0x1000000 && (to as int) * (i as int) / (n as int) <= to as int && (from as int) * (
        (n - i) as int) / (n as int) <= from as int) by (nonlinear_arith)
            requires
                0 < n <= 64,
                0 <= i <= n,
                0 <= from <= 0x10000,
                0 <= to <= 0x10000,
        ;
    }
    to * i / n + from * (n - i) / n
}

/// The shared resources a session loads once and every entry draws from.
pub struct Resources {
    /// The six cell tint palettes, claimed in bank order from bank 0.
    pub bg_palettes: Vec<BgPalette>,
    /// The message box frame tiles and their claimed bank.
    pub msg_box_gfx: TilesetHandle,
    /// The user window frame tiles and their claimed bank.
    pub user_window_gfx: TilesetHandle,
    /// The shared background tile pixels.
    pub tileset: AllocBuf,
    /// The scrolling backdrop tilemap.
    pub bg_map: AllocBuf,
    /// The tilemap of one entry cell.
    pub mon_slot_map: AllocBuf,
    /// The health bar tilemap.
    pub hp_bar_map: AllocBuf,
    /// The shared tera type icon sheet.
    pub tera_sheet: SpriteSheet,
    /// The shared status icon sheet.
    pub status_sheet: SpriteSheet,
    /// The claimed bank the status icons draw with.
    pub status_pal: ObjPalette,
    /// The claimed bank the tera type icons draw with.
    pub tera_pal: ObjPalette,
    /// The shared item icon color data.
    pub item_icon_pal: AllocBuf,
}

/// One layout cell's visual entry: the roster item it shows and every
/// resource that draws it. The cell's two windows and background
/// rectangle belong to the cell; the sprites and the roster item are the
/// content a swap exchanges.
pub struct Entry {
    index: u8,
    poke: Pokemon,
    sprite: PokemonSpritePic,
    item_sprite: Option<Sprite>,
    item_pal: Option<ObjPalette>,
    tera_sprite: Option<SheetSprite>,
    status_sprite: Option<SheetSprite>,
    fg_title_window: Window,
    fg_hp_window: Window,
    bg_rect: Rect,
}

impl Entry {
    pub closed spec fn spec_index(&self) -> nat {
        self.index as nat
    }

    pub closed spec fn spec_poke(&self) -> Pokemon {
        self.poke
    }

    pub closed spec fn spec_sprite_id(&self) -> nat {
        self.sprite.id()
    }

    pub closed spec fn spec_item_sprite_id(&self) -> Option<nat> {
        match self.item_sprite {
            Some(s) => Some(s.id()),
            None => None,
        }
    }

    pub closed spec fn spec_tera_id(&self) -> Option<nat> {
        match self.tera_sprite {
            Some(s) => Some(s.id()),
            None => None,
        }
    }

    pub closed spec fn spec_status_id(&self) -> Option<nat> {
        match self.status_sprite {
            Some(s) => Some(s.id()),
            None => None,
        }
    }

    pub closed spec fn spec_item_pal_id(&self) -> Option<nat> {
        match self.item_pal {
            Some(p) => Some(p.id()),
            None => None,
        }
    }

    pub closed spec fn spec_title_window_id(&self) -> nat {
        self.fg_title_window.id()
    }

    pub closed spec fn spec_hp_window_id(&self) -> nat {
        self.fg_hp_window.id()
    }

    pub closed spec fn spec_bg_rect(&self) -> Rect {
        self.bg_rect
    }

    /// Whether the entry owns the given sprite object slot.
    pub open spec fn owns_sprite(&self, id: nat) -> bool {
        ||| id == self.spec_sprite_id()
        ||| self.spec_item_sprite_id() == Some(id)
        ||| self.spec_tera_id() == Some(id)
        ||| self.spec_status_id() == Some(id)
    }

    /// Whether the entry owns the given window slot.
    pub open spec fn owns_window(&self, id: nat) -> bool {
        id == self.spec_title_window_id() || id == self.spec_hp_window_id()
    }

    /// Whether the entry owns the given object palette bank.
    pub open spec fn owns_obj_pal(&self, id: nat) -> bool {
        self.spec_item_pal_id() == Some(id)
    }

    /// How many sprite object slots the entry owns: one primary picture
    /// plus the optional held item, tera type and status icons.
    pub open spec fn sprite_count(&self) -> nat {
        1 + (if self.spec_item_sprite_id().is_some() {
            1nat
        } else {
            0nat
        }) + (if self.spec_tera_id().is_some() {
            1nat
        } else {
            0nat
        }) + (if self.spec_status_id().is_some() {
            1nat
        } else {
            0nat
        })
    }

    /// How many object palette banks the entry owns.
    pub open spec fn obj_pal_count(&self) -> nat {
        if self.spec_item_pal_id().is_some() {
            1nat
        } else {
            0nat
        }
    }

    /// Every id the entry owns is a live claim in its table, the ids are
    /// pairwise distinct, and the roster item is well formed.
    pub open spec fn wf(&self, gpu: Gpu) -> bool {
        &&& self.spec_poke().wf()
        &&& self.spec_index() < LAYOUT_CELLS
        &&& self.spec_sprite_id() < SPRITE_CAP
        &&& gpu.sprites.slots()[self.spec_sprite_id() as int]
        &&& (self.spec_item_sprite_id() matches Some(id) ==> id < SPRITE_CAP
            && gpu.sprites.slots()[id as int] && id != self.spec_sprite_id())
        &&& (self.spec_tera_id() matches Some(id) ==> id < SPRITE_CAP && gpu.sprites.slots()[
            id as int
        ] && id != self.spec_sprite_id() && Some(id) != self.spec_item_sprite_id())
        &&& (self.spec_status_id() matches Some(id) ==> id < SPRITE_CAP && gpu.sprites.slots()[
            id as int
        ] && id != self.spec_sprite_id() && Some(id) != self.spec_item_sprite_id() && Some(id)
            != self.spec_tera_id())
        &&& self.spec_title_window_id() < WINDOW_CAP
        &&& gpu.windows.slots()[self.spec_title_window_id() as int]
        &&& self.spec_hp_window_id() < WINDOW_CAP
        &&& gpu.windows.slots()[self.spec_hp_window_id() as int]
        &&& self.spec_title_window_id() != self.spec_hp_window_id()
        &&& (self.spec_item_pal_id() matches Some(id) ==> 6 <= id && id < 12
            && gpu.obj_palettes.slots()[id as int])
        &&& self.spec_item_sprite_id().is_some() == self.spec_item_pal_id().is_some()
    }

    /// The roster item the entry shows.
    pub fn poke(&self) -> (r: &Pokemon)
        ensures
            *r == self.spec_poke(),
    {
        &self.poke
    }

    /// The entry's layout cell.
    pub fn cell_index(&self) -> (r: u8)
        ensures
            r == self.spec_index(),
    {
        self.index
    }

    /// Whether the entry shows a held item icon.
    pub fn has_item_sprite(&self) -> (r: bool)
        ensures
            r == self.spec_item_sprite_id().is_some(),
    {
        self.item_sprite.is_some()
    }

    /// Stage the entry's sprites around the cell position `pos`: the
    /// primary picture and each present icon at its fixed offset.
    pub fn update_pos(&self, gpu: &mut Gpu, pos: Vec2D)
        requires
            old(gpu).wf(),
            self.wf(*old(gpu)),
            0 <= pos.x <= 0x10000,
            0 <= pos.y <= 0x10000,
        ensures
            final(gpu).wf(),
            self.wf(*final(gpu)),
            same_but_sprite_states(*old(gpu), *final(gpu)),
            final(gpu).sprite_states@.len() == SPRITE_CAP,
            forall|sid: int|
                0 <= sid < SPRITE_CAP && !self.owns_sprite(sid as nat)
                    ==> final(gpu).sprite_states@[sid] == old(gpu).sprite_states@[sid],
            final(gpu).sprite_states@[self.spec_sprite_id() as int] == (SpriteState {
                x: (pos.x + 36) as i32,
                y: (pos.y + 32) as i32,
                ..old(gpu).sprite_states@[self.spec_sprite_id() as int]
            }),
            (self.spec_item_sprite_id() matches Some(id) ==> final(gpu).sprite_states@[id as int]
                == (SpriteState {
                x: (pos.x + 62) as i32,
                y: (pos.y + 52) as i32,
                ..old(gpu).sprite_states@[id as int]
            })),
            (self.spec_tera_id() matches Some(id) ==> final(gpu).sprite_states@[id as int]
                == (SpriteState {
                x: (pos.x + 62) as i32,
                y: (pos.y + 20) as i32,
                ..old(gpu).sprite_states@[id as int]
            })),
            (self.spec_status_id() matches Some(id) ==> final(gpu).sprite_states@[id as int]
                == (SpriteState {
                x: (pos.x + 12) as i32,
                y: (pos.y + 44) as i32,
                ..old(gpu).sprite_states@[id as int]
            })),
    {
        self.sprite.handle().set_pos(gpu, Vec2D { x: (pos.x + 36) as i32, y: pos.y + 32 });
        match &self.item_sprite {
            Some(s) => {
                s.handle().set_pos(gpu, Vec2D { x: (pos.x + 62) as i32, y: pos.y + 52 });
            },
            None => {},
        }
        match &self.tera_sprite {
            Some(s) => {
                s.handle().set_pos(gpu, Vec2D { x: (pos.x + 62) as i32, y: pos.y + 20 });
            },
            None => {},
        }
        match &self.status_sprite {
            Some(s) => {
                s.handle().set_pos(gpu, Vec2D { x: (pos.x + 12) as i32, y: pos.y + 44 });
            },
            None => {},
        }
    }

    /// Release every claim the entry holds: its sprites, its two windows
    /// and its item palette bank. Exactly the owned slots fall free,
    /// nothing else in the display moves, and the roster item comes back
    /// to its owner.
    pub fn release(self, gpu: &mut Gpu) -> (p: Pokemon)
        requires
            old(gpu).wf(),
            self.wf(*old(gpu)),
        ensures
            p == self.spec_poke(),
            final(gpu).wf(),
            final(gpu).sprites.slots().len() == SPRITE_CAP,
            forall|sid: int|
                0 <= sid < SPRITE_CAP
                    ==> final(gpu).sprites.slots()[sid]
                    == (old(gpu).sprites.slots()[sid] && !self.owns_sprite(sid as nat)),
            final(gpu).sprites.live() == old(gpu).sprites.live() - self.sprite_count(),
            final(gpu).windows.slots().len() == WINDOW_CAP,
            forall|wid: int|
                0 <= wid < WINDOW_CAP
                    ==> final(gpu).windows.slots()[wid]
                    == (old(gpu).windows.slots()[wid] && !self.owns_window(wid as nat)),
            final(gpu).windows.live() == old(gpu).windows.live() - 2,
            final(gpu).obj_palettes.slots().len() == PALETTE_CAP,
            forall|pid: int|
                0 <= pid < PALETTE_CAP
                    ==> final(gpu).obj_palettes.slots()[pid]
                    == (old(gpu).obj_palettes.slots()[pid] && !self.owns_obj_pal(pid as nat)),
            final(gpu).obj_palettes.live() == old(gpu).obj_palettes.live() - self.obj_pal_count(),
            final(gpu).bgs == old(gpu).bgs,
            final(gpu).bg_states == old(gpu).bg_states,
            final(gpu).bg_palettes == old(gpu).bg_palettes,
            final(gpu).sprite_states == old(gpu).sprite_states,
            final(gpu).window_states == old(gpu).window_states,
            final(gpu).fade_timer == old(gpu).fade_timer,
            final(gpu).fade_mask == old(gpu).fade_mask,
    {
        let Entry {
            index: _,
            poke,
            sprite,
            item_sprite,
            item_pal,
            tera_sprite,
            status_sprite,
            fg_title_window,
            fg_hp_window,
            bg_rect: _,
        } = self;
        sprite.release(gpu);
        match item_sprite {
            Some(s) => {
                s.release(gpu);
            },
            None => {},
        }
        match tera_sprite {
            Some(s) => {
                s.release(gpu);
            },
            None => {},
        }
        match status_sprite {
            Some(s) => {
                s.release(gpu);
            },
            None => {},
        }
        match item_pal {
            Some(p) => {
                gpu.obj_palettes.release(p.index() as usize);
            },
            None => {},
        }
        fg_title_window.release(gpu);
        fg_hp_window.release(gpu);
        poke
    }
}

/// Exchange the content of two entries: the roster item and every owned
/// sprite move across; each cell keeps its index, windows and background
/// rectangle.
pub fn swap_entry_contents(a: &mut Entry, b: &mut Entry)
    ensures
        final(a).spec_poke() == old(b).spec_poke(),
        final(b).spec_poke() == old(a).spec_poke(),
        final(a).spec_sprite_id() == old(b).spec_sprite_id(),
        final(b).spec_sprite_id() == old(a).spec_sprite_id(),
        final(a).spec_item_sprite_id() == old(b).spec_item_sprite_id(),
        final(b).spec_item_sprite_id() == old(a).spec_item_sprite_id(),
        final(a).spec_item_pal_id() == old(b).spec_item_pal_id(),
        final(b).spec_item_pal_id() == old(a).spec_item_pal_id(),
        final(a).spec_tera_id() == old(b).spec_tera_id(),
        final(b).spec_tera_id() == old(a).spec_tera_id(),
        final(a).spec_status_id() == old(b).spec_status_id(),
        final(b).spec_status_id() == old(a).spec_status_id(),
        final(a).spec_index() == old(a).spec_index(),
        final(b).spec_index() == old(b).spec_index(),
        final(a).spec_title_window_id() == old(a).spec_title_window_id(),
        final(b).spec_title_window_id() == old(b).spec_title_window_id(),
        final(a).spec_hp_window_id() == old(a).spec_hp_window_id(),
        final(b).spec_hp_window_id() == old(b).spec_hp_window_id(),
        final(a).spec_bg_rect() == old(a).spec_bg_rect(),
        final(b).spec_bg_rect() == old(b).spec_bg_rect(),
{
    core::mem::swap(&mut a.poke, &mut b.poke);
    core::mem::swap(&mut a.sprite, &mut b.sprite);
    core::mem::swap(&mut a.item_sprite, &mut b.item_sprite);
    core::mem::swap(&mut a.item_pal, &mut b.item_pal);
    core::mem::swap(&mut a.tera_sprite, &mut b.tera_sprite);
    core::mem::swap(&mut a.status_sprite, &mut b.status_sprite);
}


/// The palette banks and buffers a session's resources stand at: the six
/// cell tints at banks 0 to 5, the frame tiles at banks 14 and 15, the
/// status icons at object bank 12 and the tera type icons at object bank
/// 13, all claimed, with each buffer holding whole elements of its kind.
pub open spec fn resources_wf(res: &Resources, gpu: Gpu) -> bool {
    &&& res.bg_palettes@.len() == 6
    &&& forall|k: int| 0 <= k < 6 ==> (#[trigger] res.bg_palettes@[k].id()) == k
    &&& forall|k: int| 0 <= k < 6 ==> gpu.bg_palettes.slots()[k]
    &&& res.msg_box_gfx.palette.id() == 14
    &&& gpu.bg_palettes.slots()[14]
    &&& res.user_window_gfx.palette.id() == 15
    &&& gpu.bg_palettes.slots()[15]
    &&& res.status_pal.id() == 12
    &&& gpu.obj_palettes.slots()[12]
    &&& res.tera_pal.id() == 13
    &&& gpu.obj_palettes.slots()[13]
    &&& res.tileset.wf() && res.tileset.elem_size() == 32
    &&& res.bg_map.wf() && res.bg_map.elem_size() == 2
    &&& res.mon_slot_map.wf() && res.mon_slot_map.elem_size() == 2
    &&& res.hp_bar_map.wf() && res.hp_bar_map.elem_size() == 1
    &&& res.item_icon_pal.wf() && res.item_icon_pal.elem_size() == 2
}

/// The object palette bank an entry's held item icon draws with.
pub open spec fn spec_item_pal_bank(index: nat) -> nat {
    6 + index
}

/// The staged tilemap copy that tints an entry's background cell in the
/// given style, with the knocked-out override applied.
pub open spec fn tint_copy(e: Entry, style: BackgroundStyle) -> crate::gpu::BgRectCopy {
    crate::gpu::BgRectCopy {
        src: (Rect { x: 0, y: 0, width: 9, height: 8 }),
        dst: e.spec_bg_rect(),
        palette: Some(
            style.spec_for_hp(e.spec_poke().spec_hp() == 0).spec_palette_index() as u8,
        ),
    }
}

/// The encoded level label: `Lv` followed by the level in decimal.
pub open spec fn spec_lv_text(level: u8) -> Seq<u8> {
    (seq![76u8, 118u8] + spec_decimal(level as nat)).map_values(|b: u8| spec_map(b)).push(PKSTR_END)
}

/// The encoded health label: current over maximum, separated by a slash.
pub open spec fn spec_hp_text(hp: u16, max_hp: u16) -> Seq<u8> {
    (spec_decimal(hp as nat) + seq![47u8] + spec_decimal(max_hp as nat)).map_values(
        |b: u8| spec_map(b),
    ).push(PKSTR_END)
}

/// The entry's title window gained its labels since `g0`: the name text,
/// and for a non-egg the level text after it.
pub open spec fn title_texts_grew(e: Entry, g0: Gpu, g1: Gpu) -> bool {
    let t0 = g0.window_states@[e.spec_title_window_id() as int];
    let t1 = g1.window_states@[e.spec_title_window_id() as int];
    if e.spec_poke().spec_is_egg() {
        t1.texts@.len() == t0.texts@.len() + 1 && t1.texts@.last().text@
            == e.spec_poke().spec_name()
    } else {
        t1.texts@.len() == t0.texts@.len() + 2 && t1.texts@[t1.texts@.len() - 2].text@
            == e.spec_poke().spec_name() && t1.texts@.last().text@ == spec_lv_text(
            e.spec_poke().spec_level(),
        )
    }
}

/// The entry's health window gained its bar since `g0`: the health
/// numbers and the two bar fills at the width and colors computed from
/// current and maximum health. An egg's health window is untouched.
pub open spec fn hp_bar_updated(e: Entry, g0: Gpu, g1: Gpu) -> bool {
    let h0 = g0.window_states@[e.spec_hp_window_id() as int];
    let h1 = g1.window_states@[e.spec_hp_window_id() as int];
    if e.spec_poke().spec_is_egg() {
        h1 == h0
    } else {
        let width = spec_hp_bar_width(e.spec_poke().spec_hp(), e.spec_poke().spec_max_hp());
        let colors = spec_hp_bar_colors(width);
        &&& h1.texts@.len() == h0.texts@.len() + 1
        &&& h1.texts@.last().text@ == spec_hp_text(
            e.spec_poke().spec_hp(),
            e.spec_poke().spec_max_hp(),
        )
        &&& h1.rect_fills@ == h0.rect_fills@.push(
            (WinFill {
                color: colors.0,
                rect: (Rect { x: 16, y: 27, width: width as i32, height: 1 }),
            }),
        ).push(
            (WinFill {
                color: colors.1,
                rect: (Rect { x: 16, y: 28, width: width as i32, height: 2 }),
            }),
        )
        &&& h1.pending_copy == true
    }
}

impl Entry {
    /// Build the entry for one layout cell: claim its primary picture,
    /// its conditional held item, tera type and status icon sprites, its
    /// item palette bank, and its two windows; stage the cell background
    /// and every sprite position. Exactly the claimed slots change hands,
    /// and every claim is fresh.
    pub fn create(
        gpu: &mut Gpu,
        resources: &Resources,
        bg: BgHandle,
        fg: BgHandle,
        poke: Pokemon,
        index: u8,
    ) -> (e: Entry)
        requires
            old(gpu).wf(),
            resources_wf(resources, *old(gpu)),
            poke.wf(),
            index < LAYOUT_CELLS,
            old(gpu).sprites.live() + 4 <= SPRITE_CAP,
            old(gpu).windows.live() + 2 <= WINDOW_CAP,
            !old(gpu).obj_palettes.slots()[spec_item_pal_bank(index as nat) as int],
            bg.id() < crate::gpu::BG_CAP,
            old(gpu).bgs.slots()[bg.id() as int],
            fg.id() < crate::gpu::BG_CAP,
            old(gpu).bgs.slots()[fg.id() as int],
        ensures
            final(gpu).wf(),
            e.wf(*final(gpu)),
            resources_wf(resources, *final(gpu)),
            e.spec_index() == index,
            e.spec_poke() == poke,
            e.spec_item_sprite_id().is_some() == poke.spec_item().is_some(),
            e.spec_tera_id().is_some() == !poke.spec_is_egg(),
            e.spec_status_id().is_some() == (poke.spec_status() != 0),
            e.spec_bg_rect() == (Rect {
                x: spec_mon_cell(index as nat).x,
                y: spec_mon_cell(index as nat).y,
                width: 9,
                height: 8,
            }),
            forall|sid: int|
                0 <= sid < SPRITE_CAP
                    ==> final(gpu).sprites.slots()[sid]
                    == (old(gpu).sprites.slots()[sid] || e.owns_sprite(sid as nat)),
            forall|sid: int|
                0 <= sid < SPRITE_CAP && e.owns_sprite(sid as nat)
                    ==> !old(gpu).sprites.slots()[sid],
            !old(gpu).sprites.slots()[e.spec_sprite_id() as int],
            (e.spec_item_sprite_id() matches Some(id) ==> !old(gpu).sprites.slots()[id as int]),
            (e.spec_tera_id() matches Some(id) ==> !old(gpu).sprites.slots()[id as int]),
            (e.spec_status_id() matches Some(id) ==> !old(gpu).sprites.slots()[id as int]),
            final(gpu).sprites.live() == old(gpu).sprites.live() + e.sprite_count(),
            forall|wid: int|
                0 <= wid < WINDOW_CAP
                    ==> final(gpu).windows.slots()[wid]
                    == (old(gpu).windows.slots()[wid] || e.owns_window(wid as nat)),
            forall|wid: int|
                0 <= wid < WINDOW_CAP && e.owns_window(wid as nat)
                    ==> !old(gpu).windows.slots()[wid],
            !old(gpu).windows.slots()[e.spec_title_window_id() as int],
            !old(gpu).windows.slots()[e.spec_hp_window_id() as int],
            final(gpu).windows.live() == old(gpu).windows.live() + 2,
            forall|pid: int|
                0 <= pid < PALETTE_CAP
                    ==> final(gpu).obj_palettes.slots()[pid]
                    == (old(gpu).obj_palettes.slots()[pid] || e.owns_obj_pal(pid as nat)),
            forall|pid: int|
                0 <= pid < PALETTE_CAP && #[trigger] e.owns_obj_pal(pid as nat)
                    ==> pid == spec_item_pal_bank(index as nat) && !old(gpu).obj_palettes.slots()[
                    pid
                ],
            (e.spec_item_pal_id() matches Some(p) ==> !old(gpu).obj_palettes.slots()[p as int]),
            final(gpu).obj_palettes.live() == old(gpu).obj_palettes.live() + e.obj_pal_count(),
            final(gpu).bgs == old(gpu).bgs,
            final(gpu).bg_palettes == old(gpu).bg_palettes,
            final(gpu).fade_timer == old(gpu).fade_timer,
            ({
                let st = final(gpu).sprite_states@[e.spec_sprite_id() as int];
                &&& st.priority == 2
                &&& st.x == 8 * spec_mon_cell(index as nat).x + 36
                &&& st.y == 8 * spec_mon_cell(index as nat).y + 32
            }),
            (e.spec_tera_id() matches Some(id) ==> ({
                let st = final(gpu).sprite_states@[id as int];
                &&& st.anim == (poke.spec_tera_type() % 256) as u8
                &&& st.palette == 13
                &&& st.priority == 2
                &&& st.subpriority == 1
                &&& st.x == 8 * spec_mon_cell(index as nat).x + 62
                &&& st.y == 8 * spec_mon_cell(index as nat).y + 20
            })),
            (e.spec_item_sprite_id() matches Some(id) ==> ({
                let st = final(gpu).sprite_states@[id as int];
                &&& st.palette == spec_item_pal_bank(index as nat)
                &&& st.priority == 2
                &&& st.copy_requested == true
                &&& st.x == 8 * spec_mon_cell(index as nat).x + 62
                &&& st.y == 8 * spec_mon_cell(index as nat).y + 52
            })),
            (e.spec_status_id() matches Some(id) ==> ({
                let st = final(gpu).sprite_states@[id as int];
                &&& st.anim == (poke.spec_status() - 1) as u8
                &&& st.palette == 12
                &&& st.priority == 2
                &&& st.x == 8 * spec_mon_cell(index as nat).x + 12
                &&& st.y == 8 * spec_mon_cell(index as nat).y + 44
            })),
    {
        let anims = SpriteAnims::dummy();
        let sprite = PokemonSpritePic::new(gpu, &poke, index);
        sprite.handle().set_priority(gpu, 2);

        let tera_sprite: Option<SheetSprite> = if !poke.is_egg() {
            let t = SheetSprite::load(gpu, &resources.tera_sheet, &anims, resources.tera_pal);
            t.handle().start_animation(gpu, (poke.tera_type() % 256) as u8);
            t.handle().set_priority(gpu, 2);
            t.handle().set_subpriority(gpu, 1);
            Some(t)
        } else {
            None
        };

        let has_item = match poke.item() {
            Some(_) => true,
            None => false,
        };
        let mut item_sprite: Option<Sprite> = None;
        let mut item_pal: Option<ObjPalette> = None;
        if has_item {
            let bank = 6 + index;
            let pal = crate::graphics::load_obj_palette(gpu, bank, &resources.item_icon_pal);
            let icon_bytes: Vec<u8> = vec![0u8; 512];
            let icon_buf = AllocBuf::new(icon_bytes, 32);
            let image = SpriteImage { buf: icon_buf, size: 0 };
            let s = Sprite::load(gpu, image, &anims, pal);
            s.handle().set_priority(gpu, 2);
            item_sprite = Some(s);
            item_pal = Some(pal);
        }

        let status = poke.status();
        let status_sprite: Option<SheetSprite> = if status != 0 {
            let t = SheetSprite::load(gpu, &resources.status_sheet, &anims, resources.status_pal);
            t.handle().start_animation(gpu, status - 1);
            t.handle().set_priority(gpu, 2);
            Some(t)
        } else {
            None
        };

        let tile_pos = mon_cell(index);
        let block: u16 = 0x20 + 54 * (index as u16);
        let title_rect = Rect { x: tile_pos.x, y: tile_pos.y, width: 9, height: 2 };
        let fg_title_window = Window::create(gpu, fg, title_rect, resources.bg_palettes[0], block);
        fg_title_window.handle().put_tilemap(gpu);

        let hp_rect = Rect { x: tile_pos.x, y: tile_pos.y + 4, width: 9, height: 4 };
        let fg_hp_window = Window::create(gpu, fg, hp_rect, resources.bg_palettes[0], block + 18);
        fg_hp_window.handle().put_tilemap(gpu);

        let src_rect = Rect { x: 0, y: 0, width: 9, height: 8 };
        let bg_rect = Rect { x: tile_pos.x, y: tile_pos.y, width: 9, height: 8 };
        bg.copy_tile_rect(gpu, src_rect, bg_rect, None);

        let entry = Entry {
            index,
            poke,
            sprite,
            item_sprite,
            item_pal,
            tera_sprite,
            status_sprite,
            fg_title_window,
            fg_hp_window,
            bg_rect,
        };
        let pixel_pos = tile_pos.tile_to_pixel();
        entry.update_pos(gpu, pixel_pos);
        entry
    }

    /// Print the entry's labels and health bar: the name and level into
    /// the title window, and the bar background, the health numbers and
    /// the filled bar (its width and colors computed from current and
    /// maximum health) into the health window. An egg shows only its
    /// name. The result is false when the bar's tile assets are
    /// malformed; the bar background is then left out.
    pub fn print_info(&self, gpu: &mut Gpu, resources: &Resources) -> (ok: bool)
        requires
            old(gpu).wf(),
            self.wf(*old(gpu)),
            resources_wf(resources, *old(gpu)),
        ensures
            ok == (self.spec_poke().spec_is_egg() || WindowHandle::blit_source_ok(
                &resources.tileset,
                &resources.hp_bar_map,
                (Rect { x: 0, y: 3, width: 9, height: 1 }),
            )),
            final(gpu).wf(),
            self.wf(*final(gpu)),
            resources_wf(resources, *final(gpu)),
            crate::gpu::same_but_window_states(*old(gpu), *final(gpu)),
            final(gpu).window_states@.len() == WINDOW_CAP,
            forall|wid: int|
                0 <= wid < WINDOW_CAP && !self.owns_window(wid as nat)
                    ==> final(gpu).window_states@[wid] == old(gpu).window_states@[wid],
            title_texts_grew(*self, *old(gpu), *final(gpu)),
            hp_bar_updated(*self, *old(gpu), *final(gpu)),
    {
        let font = Font::new(0);
        let title = self.fg_title_window.handle();
        let hp_win = self.fg_hp_window.handle();

        let name = Pkstr::from_bytes(self.poke.name());
        title.print_text(gpu, &name, Vec2D { x: 4, y: 0 }, font);

        if self.poke.is_egg() {
            return true;
        }

        let mut lv_ascii: Vec<u8> = Vec::new();
        lv_ascii.push(76);
        lv_ascii.push(118);
        crate::charmap::push_decimal(&mut lv_ascii, self.poke.level() as u16);
        proof {
            assert(lv_ascii@ =~= seq![76u8, 118u8] + spec_decimal(self.poke.spec_level() as nat));
        }
        let lv = Pkstr::from_bytes(crate::charmap::encode_plain(&lv_ascii));
        title.print_text(gpu, &lv, Vec2D { x: 33, y: 0 }, font);

        let bar_rect = Rect { x: 0, y: 3, width: 9, height: 1 };
        let ok = hp_win.copy_tilemap(gpu, &resources.tileset, &resources.hp_bar_map, bar_rect);

        let mut hp_ascii: Vec<u8> = Vec::new();
        crate::charmap::push_decimal(&mut hp_ascii, self.poke.hp());
        hp_ascii.push(47);
        crate::charmap::push_decimal(&mut hp_ascii, self.poke.max_hp());
        proof {
            assert(hp_ascii@ =~= spec_decimal(self.poke.spec_hp() as nat) + seq![47u8]
                + spec_decimal(self.poke.spec_max_hp() as nat));
        }
        let hp_text = Pkstr::from_bytes(crate::charmap::encode_plain(&hp_ascii));
        hp_win.print_text(gpu, &hp_text, Vec2D { x: 3, y: 13 }, font);

        let width = hp_bar_width(self.poke.hp(), self.poke.max_hp());
        let colors = hp_bar_colors(width);
        hp_win.fill_rect(gpu, colors.0, Rect { x: 16, y: 27, width: width as i32, height: 1 });
        hp_win.fill_rect(gpu, colors.1, Rect { x: 16, y: 28, width: width as i32, height: 2 });
        hp_win.copy_to_vram(gpu);
        ok
    }

    /// Stage the entry's background cell tint: the style's palette, with
    /// the knocked-out override for a fainted entry, and schedule the
    /// tilemap copy.
    pub fn update_bg(&self, gpu: &mut Gpu, resources: &Resources, bg: BgHandle, style: BackgroundStyle)
        requires
            old(gpu).wf(),
            self.wf(*old(gpu)),
            resources_wf(resources, *old(gpu)),
            bg.id() < crate::gpu::BG_CAP,
            old(gpu).bgs.slots()[bg.id() as int],
        ensures
            final(gpu).wf(),
            self.wf(*final(gpu)),
            resources_wf(resources, *final(gpu)),
            crate::gpu::same_but_bg_states(*old(gpu), *final(gpu)),
            final(gpu).bg_states@.len() == crate::gpu::BG_CAP,
            forall|bid: int|
                0 <= bid < crate::gpu::BG_CAP && bid != bg.id()
                    ==> final(gpu).bg_states@[bid] == old(gpu).bg_states@[bid],
            ({
                let b0 = old(gpu).bg_states@[bg.id() as int];
                let b1 = final(gpu).bg_states@[bg.id() as int];
                let eff = style.spec_for_hp(self.spec_poke().spec_hp() == 0);
                &&& b1.rect_copies@ == b0.rect_copies@.push(
                    (crate::gpu::BgRectCopy {
                        src: (Rect { x: 0, y: 0, width: 9, height: 8 }),
                        dst: self.spec_bg_rect(),
                        palette: Some(eff.spec_palette_index() as u8),
                    }),
                )
                &&& b1.copy_scheduled == true
                &&& b1.fills@ == b0.fills@
                &&& b1.shown == b0.shown
                &&& b1.x == b0.x && b1.y == b0.y
            }),
    {
        let ko = self.poke.hp() == 0;
        let eff = style.for_hp(ko);
        let pal_index = eff.palette_index();
        let src_rect = Rect { x: 0, y: 0, width: 9, height: 8 };
        bg.copy_tile_rect(gpu, src_rect, self.bg_rect, Some(pal_index as u8));
        bg.schedule_copy_tilemap(gpu);
    }
}


/// No resource is owned by both entries: their sprite slots, windows and
/// palette banks are all different.
pub open spec fn entry_disjoint(a: Entry, b: Entry) -> bool {
    &&& !b.owns_sprite(a.spec_sprite_id())
    &&& (a.spec_item_sprite_id() matches Some(id) ==> !b.owns_sprite(id))
    &&& (a.spec_tera_id() matches Some(id) ==> !b.owns_sprite(id))
    &&& (a.spec_status_id() matches Some(id) ==> !b.owns_sprite(id))
    &&& !b.owns_window(a.spec_title_window_id())
    &&& !b.owns_window(a.spec_hp_window_id())
    &&& (a.spec_item_pal_id() matches Some(p) ==> !b.owns_obj_pal(p))
}

/// Whether any entry in `es` owns the given sprite object slot.
pub open spec fn entries_own_sprite(es: Seq<Entry>, id: nat) -> bool {
    exists|i: int| 0 <= i < es.len() && (#[trigger] es[i]).owns_sprite(id)
}

/// Whether any entry in `es` owns the given window slot.
pub open spec fn entries_own_window(es: Seq<Entry>, id: nat) -> bool {
    exists|i: int| 0 <= i < es.len() && (#[trigger] es[i]).owns_window(id)
}

/// Whether any entry in `es` owns the given object palette bank.
pub open spec fn entries_own_obj_pal(es: Seq<Entry>, id: nat) -> bool {
    exists|i: int| 0 <= i < es.len() && (#[trigger] es[i]).owns_obj_pal(id)
}

/// The exchange relation of a content swap: `x1` holds `y0`'s content
/// (roster item, sprites, item bank) over `x0`'s frame (cell, windows,
/// rectangle).
pub open spec fn swapped_content(x0: Entry, y0: Entry, x1: Entry) -> bool {
    &&& x1.spec_poke() == y0.spec_poke()
    &&& x1.spec_sprite_id() == y0.spec_sprite_id()
    &&& x1.spec_item_sprite_id() == y0.spec_item_sprite_id()
    &&& x1.spec_item_pal_id() == y0.spec_item_pal_id()
    &&& x1.spec_tera_id() == y0.spec_tera_id()
    &&& x1.spec_status_id() == y0.spec_status_id()
    &&& x1.spec_index() == x0.spec_index()
    &&& x1.spec_title_window_id() == x0.spec_title_window_id()
    &&& x1.spec_hp_window_id() == x0.spec_hp_window_id()
    &&& x1.spec_bg_rect() == x0.spec_bg_rect()
}

proof fn lemma_swap_wf(x0: Entry, y0: Entry, x1: Entry, gpu: Gpu)
    requires
        x0.wf(gpu),
        y0.wf(gpu),
        swapped_content(x0, y0, x1),
    ensures
        x1.wf(gpu),
{
}

proof fn lemma_swap_pair_disjoint(a0: Entry, b0: Entry, a1: Entry, b1: Entry)
    requires
        swapped_content(a0, b0, a1),
        swapped_content(b0, a0, b1),
        entry_disjoint(a0, b0),
        entry_disjoint(b0, a0),
    ensures
        entry_disjoint(a1, b1),
        entry_disjoint(b1, a1),
{
}

proof fn lemma_swap_third_disjoint(a0: Entry, b0: Entry, a1: Entry, c: Entry)
    requires
        swapped_content(a0, b0, a1),
        entry_disjoint(c, a0),
        entry_disjoint(a0, c),
        entry_disjoint(c, b0),
        entry_disjoint(b0, c),
    ensures
        entry_disjoint(c, a1),
        entry_disjoint(a1, c),
{
}

/// The whole menu: the live entries in cell order, the focused cell and
/// the session style.
pub struct Menu {
    style: Style,
    entries: Vec<Entry>,
    focused: u8,
}

impl Menu {
    pub closed spec fn spec_style(&self) -> Style {
        self.style
    }

    pub closed spec fn spec_entries(&self) -> Seq<Entry> {
        self.entries@
    }

    pub closed spec fn spec_focused(&self) -> nat {
        self.focused as nat
    }

    /// Every entry is well formed in `gpu`, entries sit in their cells in
    /// order, no two entries share a resource, and the focus is on a live
    /// entry.
    pub open spec fn wf(&self, gpu: Gpu) -> bool {
        &&& gpu.wf()
        &&& self.spec_entries().len() <= LAYOUT_CELLS
        &&& forall|i: int|
            0 <= i < self.spec_entries().len() ==> (#[trigger] self.spec_entries()[i]).wf(gpu)
        &&& forall|i: int|
            0 <= i < self.spec_entries().len() ==> (#[trigger] self.spec_entries()[i]).spec_index()
                == i
        &&& (self.spec_entries().len() > 0 ==> self.spec_focused() < self.spec_entries().len())
        &&& (self.spec_entries().len() == 0 ==> self.spec_focused() == 0)
        &&& forall|i: int, j: int|
            0 <= i < self.spec_entries().len() && 0 <= j < self.spec_entries().len() && i != j
                ==> entry_disjoint(
                #[trigger] self.spec_entries()[i],
                #[trigger] self.spec_entries()[j],
            )
    }

    /// Assemble a menu over already-created entries.
    pub fn new(style: Style, entries: Vec<Entry>, focused: u8) -> (m: Menu)
        ensures
            m.spec_style() == style,
            m.spec_entries() == entries@,
            m.spec_focused() == focused,
    {
        Menu { style, entries, focused }
    }

    /// The number of live entries.
    pub fn len(&self) -> (r: usize)
        ensures
            r == self.spec_entries().len(),
    {
        self.entries.len()
    }

    /// The focused entry's index.
    pub fn focused_index(&self) -> (r: u8)
        ensures
            r == self.spec_focused(),
    {
        self.focused
    }

    /// The session style.
    pub fn style(&self) -> (r: Style)
        ensures
            r == self.spec_style(),
    {
        self.style
    }

    /// The entry at the given cell.
    pub fn entry_at(&self, i: usize) -> (r: &Entry)
        requires
            i < self.spec_entries().len(),
        ensures
            *r == self.spec_entries()[i as int],
    {
        &self.entries[i]
    }

    /// Add a freshly created entry at the next cell. The entry must be
    /// disjoint from everything already shown.
    pub fn push_entry(&mut self, gpu: &Gpu, e: Entry)
        requires
            old(self).wf(*gpu),
            e.wf(*gpu),
            e.spec_index() == old(self).spec_entries().len(),
            old(self).spec_entries().len() < LAYOUT_CELLS,
            forall|i: int|
                0 <= i < old(self).spec_entries().len() ==> entry_disjoint(
                    #[trigger] old(self).spec_entries()[i],
                    e,
                ) && entry_disjoint(e, old(self).spec_entries()[i]),
        ensures
            final(self).wf(*gpu),
            final(self).spec_entries() == old(self).spec_entries().push(e),
            final(self).spec_style() == old(self).spec_style(),
            final(self).spec_focused() == old(self).spec_focused(),
    {
        self.entries.push(e);
    }

    /// Move the focus index without restyling any cell.
    pub fn set_focused(&mut self, gpu: &Gpu, f: u8)
        requires
            old(self).wf(*gpu),
            (f as nat) < old(self).spec_entries().len(),
        ensures
            final(self).wf(*gpu),
            final(self).spec_entries() == old(self).spec_entries(),
            final(self).spec_style() == old(self).spec_style(),
            final(self).spec_focused() == f,
    {
        self.focused = f;
    }

    /// Vertical focus movement: jump one row stride and clamp to the live
    /// entries.
    pub fn index_updown(&self, base: u8, delta: i32) -> (r: u8)
        requires
            1 <= self.spec_entries().len() <= LAYOUT_CELLS,
            (base as nat) < self.spec_entries().len(),
            delta == 3 || delta == -3,
        ensures
            r as nat == spec_updown(self.spec_entries().len(), base as nat, delta as int),
            (r as nat) < self.spec_entries().len(),
    {
        let len = self.entries.len();
        if delta > 0 {
            let t = base as usize + 3;
            if t > len - 1 {
                (len - 1) as u8
            } else {
                t as u8
            }
        } else {
            if base >= 3 {
                base - 3
            } else {
                0
            }
        }
    }

    /// Horizontal focus movement: step once and wrap around the live
    /// entries.
    pub fn index_leftright(&self, base: u8, delta: i32) -> (r: u8)
        requires
            1 <= self.spec_entries().len() <= LAYOUT_CELLS,
            (base as nat) < self.spec_entries().len(),
            delta == 1 || delta == -1,
        ensures
            r as nat == spec_leftright(self.spec_entries().len(), base as nat, delta as int),
            (r as nat) < self.spec_entries().len(),
    {
        let len = self.entries.len();
        let ghost l = len as int;
        if delta == 1 {
            if base as usize + 1 == len {
                proof {
                    assert((base + 1) % l == 0 && (0int + l) % l == 0) by (nonlinear_arith)
                        requires
                            l >= 1,
                            base + 1 == l,
                    ;
                }
                0
            } else {
                proof {
                    assert(((base + 1) % l + l) % l == base + 1) by (nonlinear_arith)
                        requires
                            l >= 1,
                            0 <= base + 1 < l,
                    ;
                }
                base + 1
            }
        } else {
            if base == 0 {
                proof {
                    assert(((0 - 1) % l + l) % l == l - 1) by (nonlinear_arith)
                        requires
                            l >= 1,
                    ;
                }
                (len - 1) as u8
            } else {
                proof {
                    assert(((base - 1) % l + l) % l == base - 1) by (nonlinear_arith)
                        requires
                            l >= 1,
                            0 <= base - 1 < l,
                    ;
                }
                base - 1
            }
        }
    }

    /// The focus index after one frame of directional input.
    pub fn update_index(&self, index: u8, input: &InputFrame) -> (r: u8)
        requires
            1 <= self.spec_entries().len() <= LAYOUT_CELLS,
            (index as nat) < self.spec_entries().len(),
        ensures
            r as nat == spec_update_index(self.spec_entries().len(), index as nat, *input),
            (r as nat) < self.spec_entries().len(),
    {
        if Button::Right.pressed(input) {
            return self.index_leftright(index, 1);
        }
        if Button::Left.pressed(input) {
            return self.index_leftright(index, -1);
        }
        if Button::Up.pressed(input) {
            return self.index_updown(index, -3);
        }
        if Button::Down.pressed(input) {
            return self.index_updown(index, 3);
        }
        index
    }

    /// Whether `action` may be offered for `entry`.
    pub fn action_available(&self, action: PokeAction, entry: &Entry) -> (r: bool)
        ensures
            r == spec_action_available(self.spec_style(), entry.spec_poke(), action),
    {
        match action {
            PokeAction::Summary => true,
            PokeAction::Switch => {
                let style_ok = match self.style {
                    Style::Party => true,
                    Style::ReadOnly => false,
                };
                style_ok && !entry.poke().is_egg()
            },
            PokeAction::GiveItem => {
                let style_ok = match self.style {
                    Style::Party => true,
                    Style::ReadOnly => false,
                };
                style_ok && !entry.poke().is_egg()
            },
            PokeAction::TakeItem => {
                let style_ok = match self.style {
                    Style::Party => true,
                    Style::ReadOnly => false,
                };
                style_ok && !entry.poke().is_egg() && entry.poke().item().is_some()
            },
        }
    }

    /// The action list offered for `entry`, in presentation order: an egg
    /// offers only inspection, an entry without a held item never offers
    /// taking one.
    pub fn available_actions(&self, entry: &Entry) -> (r: Vec<PokeAction>)
        ensures
            r@ == spec_available_actions(self.spec_style(), entry.spec_poke()),
            r@.len() >= 1,
    {
        let mut out: Vec<PokeAction> = Vec::new();
        out.push(PokeAction::Summary);
        if self.action_available(PokeAction::Switch, entry) {
            out.push(PokeAction::Switch);
        }
        if self.action_available(PokeAction::GiveItem, entry) {
            out.push(PokeAction::GiveItem);
        }
        if self.action_available(PokeAction::TakeItem, entry) {
            out.push(PokeAction::TakeItem);
        }
        proof {
            assert(out@ =~= spec_available_actions(self.spec_style(), entry.spec_poke()));
        }
        out
    }

    /// Stage the cell tint of one entry.
    pub fn update_entry_bg(
        &self,
        gpu: &mut Gpu,
        resources: &Resources,
        fixed_bg: BgHandle,
        entry: u8,
        style: BackgroundStyle,
    )
        requires
            old(gpu).wf(),
            self.wf(*old(gpu)),
            resources_wf(resources, *old(gpu)),
            (entry as nat) < self.spec_entries().len(),
            fixed_bg.id() < crate::gpu::BG_CAP,
            old(gpu).bgs.slots()[fixed_bg.id() as int],
        ensures
            final(gpu).wf(),
            self.wf(*final(gpu)),
            resources_wf(resources, *final(gpu)),
            crate::gpu::same_but_bg_states(*old(gpu), *final(gpu)),
            final(gpu).bg_states@.len() == crate::gpu::BG_CAP,
            forall|bid: int|
                0 <= bid < crate::gpu::BG_CAP && bid != fixed_bg.id()
                    ==> final(gpu).bg_states@[bid] == old(gpu).bg_states@[bid],
            ({
                let b0 = old(gpu).bg_states@[fixed_bg.id() as int];
                let b1 = final(gpu).bg_states@[fixed_bg.id() as int];
                &&& b1.rect_copies@ == b0.rect_copies@.push(
                    tint_copy(self.spec_entries()[entry as int], style),
                )
                &&& b1.copy_scheduled == true
                &&& b1.fills@ == b0.fills@
                &&& b1.shown == b0.shown && b1.x == b0.x && b1.y == b0.y
            }),
    {
        let e = &self.entries[entry as usize];
        e.update_bg(gpu, resources, fixed_bg, style);
    }

    /// Move the focus: the old cell is tinted unfocused, the new one
    /// focused, and the focus index moves.
    pub fn change_focus(
        &mut self,
        gpu: &mut Gpu,
        resources: &Resources,
        fixed_bg: BgHandle,
        new_index: u8,
    )
        requires
            old(gpu).wf(),
            old(self).wf(*old(gpu)),
            resources_wf(resources, *old(gpu)),
            old(self).spec_entries().len() > 0,
            (new_index as nat) < old(self).spec_entries().len(),
            fixed_bg.id() < crate::gpu::BG_CAP,
            old(gpu).bgs.slots()[fixed_bg.id() as int],
        ensures
            final(gpu).wf(),
            final(self).wf(*final(gpu)),
            resources_wf(resources, *final(gpu)),
            crate::gpu::same_but_bg_states(*old(gpu), *final(gpu)),
            final(self).spec_entries() == old(self).spec_entries(),
            final(self).spec_style() == old(self).spec_style(),
            final(self).spec_focused() == new_index,
            final(gpu).bg_states@.len() == crate::gpu::BG_CAP,
            forall|bid: int|
                0 <= bid < crate::gpu::BG_CAP && bid != fixed_bg.id()
                    ==> final(gpu).bg_states@[bid] == old(gpu).bg_states@[bid],
            ({
                let b0 = old(gpu).bg_states@[fixed_bg.id() as int];
                let b1 = final(gpu).bg_states@[fixed_bg.id() as int];
                let es = old(self).spec_entries();
                &&& b1.rect_copies@ == b0.rect_copies@.push(
                    tint_copy(es[old(self).spec_focused() as int], BackgroundStyle::Unfocused),
                ).push(tint_copy(es[new_index as int], BackgroundStyle::Focused))
                &&& b1.copy_scheduled == true
            }),
    {
        let focused = self.focused;
        self.update_entry_bg(gpu, resources, fixed_bg, focused, BackgroundStyle::Unfocused);
        self.update_entry_bg(gpu, resources, fixed_bg, new_index, BackgroundStyle::Focused);
        self.focused = new_index;
    }

    /// Move the focus during switch selection: the cell picked first
    /// keeps its switch tint, the old focus loses its tint, the new focus
    /// is tinted as the switch cursor.
    pub fn change_focus_switch(
        &mut self,
        gpu: &mut Gpu,
        resources: &Resources,
        fixed_bg: BgHandle,
        switch_index: u8,
        new_index: u8,
    )
        requires
            old(gpu).wf(),
            old(self).wf(*old(gpu)),
            resources_wf(resources, *old(gpu)),
            old(self).spec_entries().len() > 0,
            (new_index as nat) < old(self).spec_entries().len(),
            (switch_index as nat) < old(self).spec_entries().len(),
            fixed_bg.id() < crate::gpu::BG_CAP,
            old(gpu).bgs.slots()[fixed_bg.id() as int],
        ensures
            final(gpu).wf(),
            final(self).wf(*final(gpu)),
            resources_wf(resources, *final(gpu)),
            crate::gpu::same_but_bg_states(*old(gpu), *final(gpu)),
            final(self).spec_entries() == old(self).spec_entries(),
            final(self).spec_style() == old(self).spec_style(),
            final(self).spec_focused() == new_index,
            final(gpu).bg_states@.len() == crate::gpu::BG_CAP,
            forall|bid: int|
                0 <= bid < crate::gpu::BG_CAP && bid != fixed_bg.id()
                    ==> final(gpu).bg_states@[bid] == old(gpu).bg_states@[bid],
            ({
                let b0 = old(gpu).bg_states@[fixed_bg.id() as int];
                let b1 = final(gpu).bg_states@[fixed_bg.id() as int];
                let es = old(self).spec_entries();
                let previous = if switch_index == old(self).spec_focused() {
                    BackgroundStyle::SwitchUnfocused
                } else {
                    BackgroundStyle::Unfocused
                };
                &&& b1.rect_copies@ == b0.rect_copies@.push(
                    tint_copy(es[old(self).spec_focused() as int], previous),
                ).push(tint_copy(es[new_index as int], BackgroundStyle::SwitchFocused))
                &&& b1.copy_scheduled == true
            }),
    {
        let focused = self.focused;
        let previous = if switch_index == focused {
            BackgroundStyle::SwitchUnfocused
        } else {
            BackgroundStyle::Unfocused
        };
        self.update_entry_bg(gpu, resources, fixed_bg, focused, previous);
        self.update_entry_bg(gpu, resources, fixed_bg, new_index, BackgroundStyle::SwitchFocused);
        self.focused = new_index;
    }

    /// Take the focused entry's held item: the roster item loses it, the
    /// icon sprite and its palette bank are released, and the item id
    /// comes back for the host to bank. Nothing happens without a held
    /// item.
    pub fn take_hold_item(&mut self, gpu: &mut Gpu) -> (r: Option<usize>)
        requires
            old(gpu).wf(),
            old(self).wf(*old(gpu)),
            old(self).spec_entries().len() > 0,
        ensures
            final(gpu).wf(),
            final(self).wf(*final(gpu)),
            r == old(self).spec_entries()[old(self).spec_focused() as int].spec_poke().spec_item(),
            final(self).spec_style() == old(self).spec_style(),
            final(self).spec_focused() == old(self).spec_focused(),
            final(self).spec_entries().len() == old(self).spec_entries().len(),
            forall|k: int|
                0 <= k < old(self).spec_entries().len() && k != old(self).spec_focused()
                    ==> final(self).spec_entries()[k] == old(self).spec_entries()[k],
            ({
                let e0 = old(self).spec_entries()[old(self).spec_focused() as int];
                let e1 = final(self).spec_entries()[old(self).spec_focused() as int];
                if e0.spec_poke().spec_item().is_none() {
                    e1 == e0 && *final(gpu) == *old(gpu)
                } else {
                    &&& e1.spec_poke() == e0.spec_poke().spec_with_item(0)
                    &&& e1.spec_poke().spec_held_item() == 0
                    &&& e1.spec_poke().spec_item().is_none()
                    &&& e1.spec_item_sprite_id().is_none()
                    &&& e1.spec_item_pal_id().is_none()
                    &&& e1.spec_sprite_id() == e0.spec_sprite_id()
                    &&& e1.spec_tera_id() == e0.spec_tera_id()
                    &&& e1.spec_status_id() == e0.spec_status_id()
                    &&& e1.spec_index() == e0.spec_index()
                    &&& e1.spec_title_window_id() == e0.spec_title_window_id()
                    &&& e1.spec_hp_window_id() == e0.spec_hp_window_id()
                }
            }),
            final(gpu).windows == old(gpu).windows,
            final(gpu).bgs == old(gpu).bgs,
            final(gpu).bg_palettes == old(gpu).bg_palettes,
            final(gpu).obj_palettes.slots().len() == PALETTE_CAP,
            forall|b: int|
                0 <= b < PALETTE_CAP
                    ==> final(gpu).obj_palettes.slots()[b]
                    == (old(gpu).obj_palettes.slots()[b] && !(old(self).spec_entries()[old(
                    self,
                ).spec_focused() as int].owns_obj_pal(b as nat)
                    && old(self).spec_entries()[old(self).spec_focused() as int].spec_poke().spec_item().is_some())),
    {
        let f = self.focused as usize;
        let e = &mut self.entries[f];
        let item = e.poke.item();
        match item {
            None => None,
            Some(it) => {
                e.poke.set_item(0);
                let mut taken_sprite: Option<Sprite> = None;
                core::mem::swap(&mut e.item_sprite, &mut taken_sprite);
                let mut taken_pal: Option<ObjPalette> = None;
                core::mem::swap(&mut e.item_pal, &mut taken_pal);
                match taken_sprite {
                    Some(s) => {
                        s.release(gpu);
                    },
                    None => {},
                }
                match taken_pal {
                    Some(p) => {
                        gpu.obj_palettes.release(p.index() as usize);
                    },
                    None => {},
                }
                Some(it)
            },
        }
    }

    /// Swap the entries at two different cells: every owned content
    /// resource (the roster item, the primary sprite, the optional item,
    /// tera and status sprites and the item palette bank) changes cells,
    /// the cells keep their windows and rectangles, and no table claim
    /// moves at all.
    #[verifier::rlimit(100)]
    #[verifier::spinoff_prover]
    pub fn swap_entries(&mut self, gpu: &Gpu, a: usize, b: usize)
        requires
            old(self).wf(*gpu),
            a != b,
            a < old(self).spec_entries().len(),
            b < old(self).spec_entries().len(),
        ensures
            final(self).wf(*gpu),
            final(self).spec_style() == old(self).spec_style(),
            final(self).spec_focused() == old(self).spec_focused(),
            final(self).spec_entries().len() == old(self).spec_entries().len(),
            forall|k: int|
                0 <= k < old(self).spec_entries().len() && k != a && k != b
                    ==> final(self).spec_entries()[k] == old(self).spec_entries()[k],
            ({
                let a0 = old(self).spec_entries()[a as int];
                let b0 = old(self).spec_entries()[b as int];
                let a1 = final(self).spec_entries()[a as int];
                let b1 = final(self).spec_entries()[b as int];
                &&& a1.spec_poke() == b0.spec_poke()
                &&& b1.spec_poke() == a0.spec_poke()
                &&& a1.spec_sprite_id() == b0.spec_sprite_id()
                &&& b1.spec_sprite_id() == a0.spec_sprite_id()
                &&& a1.spec_item_sprite_id() == b0.spec_item_sprite_id()
                &&& b1.spec_item_sprite_id() == a0.spec_item_sprite_id()
                &&& a1.spec_item_pal_id() == b0.spec_item_pal_id()
                &&& b1.spec_item_pal_id() == a0.spec_item_pal_id()
                &&& a1.spec_tera_id() == b0.spec_tera_id()
                &&& b1.spec_tera_id() == a0.spec_tera_id()
                &&& a1.spec_status_id() == b0.spec_status_id()
                &&& b1.spec_status_id() == a0.spec_status_id()
                &&& a1.spec_index() == a0.spec_index()
                &&& b1.spec_index() == b0.spec_index()
                &&& a1.spec_title_window_id() == a0.spec_title_window_id()
                &&& b1.spec_title_window_id() == b0.spec_title_window_id()
                &&& a1.spec_hp_window_id() == a0.spec_hp_window_id()
                &&& b1.spec_hp_window_id() == b0.spec_hp_window_id()
                &&& a1.spec_bg_rect() == a0.spec_bg_rect()
                &&& b1.spec_bg_rect() == b0.spec_bg_rect()
            }),
    {
        let lo = if a < b {
            a
        } else {
            b
        };
        let hi = if a < b {
            b
        } else {
            a
        };
        let mut ehi = self.entries.remove(hi);
        let mut elo = self.entries.remove(lo);
        swap_entry_contents(&mut elo, &mut ehi);
        self.entries.insert(lo, elo);
        self.entries.insert(hi, ehi);
        proof {
            let s0 = old(self).entries@;
            let s1 = self.entries@;
            assert(s1 =~= s0.update(lo as int, s1[lo as int]).update(hi as int, s1[hi as int]));
            let a0 = s0[lo as int];
            let b0 = s0[hi as int];
            let a1 = s1[lo as int];
            let b1 = s1[hi as int];
            assert(swapped_content(a0, b0, a1));
            assert(swapped_content(b0, a0, b1));
            lemma_swap_wf(a0, b0, a1, *gpu);
            lemma_swap_wf(b0, a0, b1, *gpu);
            lemma_swap_pair_disjoint(a0, b0, a1, b1);
            assert forall|i: int, j: int|
                0 <= i < s1.len() && 0 <= j < s1.len() && i != j implies entry_disjoint(
                #[trigger] s1[i],
                #[trigger] s1[j],
            ) by {
                if i == lo as int && j == hi as int {
                } else if i == hi as int && j == lo as int {
                } else if i == lo as int {
                    lemma_swap_third_disjoint(a0, b0, a1, s0[j]);
                } else if i == hi as int {
                    lemma_swap_third_disjoint(b0, a0, b1, s0[j]);
                } else if j == lo as int {
                    lemma_swap_third_disjoint(a0, b0, a1, s0[i]);
                } else if j == hi as int {
                    lemma_swap_third_disjoint(b0, a0, b1, s0[i]);
                } else {
                    assert(entry_disjoint(s0[i], s0[j]));
                }
            }
        }
    }

    /// Tear the menu down: every entry releases everything it owns, and
    /// the roster items come back in cell order. Exactly the entries'
    /// slots fall free across all tables.
    pub fn release(self, gpu: &mut Gpu) -> (roster: Vec<Pokemon>)
        requires
            old(gpu).wf(),
            self.wf(*old(gpu)),
        ensures
            roster@.len() == self.spec_entries().len(),
            forall|i: int|
                0 <= i < self.spec_entries().len() ==> roster@[i] == (#[trigger] self.spec_entries()[i]).spec_poke(),
            final(gpu).wf(),
            final(gpu).sprites.slots().len() == SPRITE_CAP,
            forall|sid: int|
                0 <= sid < SPRITE_CAP
                    ==> final(gpu).sprites.slots()[sid]
                    == (old(gpu).sprites.slots()[sid] && !entries_own_sprite(
                    self.spec_entries(),
                    sid as nat,
                )),
            forall|wid: int|
                0 <= wid < WINDOW_CAP
                    ==> final(gpu).windows.slots()[wid]
                    == (old(gpu).windows.slots()[wid] && !entries_own_window(
                    self.spec_entries(),
                    wid as nat,
                )),
            forall|pid: int|
                0 <= pid < PALETTE_CAP
                    ==> final(gpu).obj_palettes.slots()[pid]
                    == (old(gpu).obj_palettes.slots()[pid] && !entries_own_obj_pal(
                    self.spec_entries(),
                    pid as nat,
                )),
            final(gpu).bgs == old(gpu).bgs,
            final(gpu).bg_palettes == old(gpu).bg_palettes,
    {
        let Menu { style: _, mut entries, focused: _ } = self;
        let ghost orig = entries@;
        let mut roster: Vec<Pokemon> = Vec::new();
        proof {
            assert(orig.take(orig.len() as int) =~= orig);
            assert(orig.skip(orig.len() as int) =~= Seq::<Entry>::empty());
            assert(roster@ =~= orig.skip(orig.len() as int).map_values(
                |e: Entry| e.spec_poke(),
            ));
        }
        while entries.len() > 0
            invariant
                roster@ =~= orig.skip(entries@.len() as int).map_values(|e: Entry| e.spec_poke()),
                gpu.wf(),
                entries@.len() <= orig.len(),
                entries@ =~= orig.take(entries@.len() as int),
                forall|i: int| 0 <= i < entries@.len() ==> (#[trigger] entries@[i]).wf(*gpu),
                forall|i: int, j: int|
                    0 <= i < orig.len() && 0 <= j < orig.len() && i != j ==> entry_disjoint(
                        #[trigger] orig[i],
                        #[trigger] orig[j],
                    ),
                gpu.sprites.slots().len() == SPRITE_CAP,
                forall|sid: int|
                    0 <= sid < SPRITE_CAP
                        ==> gpu.sprites.slots()[sid]
                        == (old(gpu).sprites.slots()[sid] && !entries_own_sprite(
                        orig.skip(entries@.len() as int),
                        sid as nat,
                    )),
                forall|wid: int|
                    0 <= wid < WINDOW_CAP
                        ==> gpu.windows.slots()[wid]
                        == (old(gpu).windows.slots()[wid] && !entries_own_window(
                        orig.skip(entries@.len() as int),
                        wid as nat,
                    )),
                forall|pid: int|
                    0 <= pid < PALETTE_CAP
                        ==> gpu.obj_palettes.slots()[pid]
                        == (old(gpu).obj_palettes.slots()[pid] && !entries_own_obj_pal(
                        orig.skip(entries@.len() as int),
                        pid as nat,
                    )),
                gpu.bgs == old(gpu).bgs,
                gpu.bg_palettes == old(gpu).bg_palettes,
            decreases entries@.len(),
        {
            let ghost k = entries@.len() as int;
            let e = match entries.pop() {
                Some(e) => e,
                None => {
                    proof {
                        assert(false);
                    }
                    vstd::pervasive::unreached()
                },
            };
            proof {
                assert(e == orig[k - 1]);
                assert(entries@ =~= orig.take(k - 1));
            }
            let p = e.release(gpu);
            roster.insert(0, p);
            proof {
                lemma_release_step(orig, k - 1);
                assert forall|i: int| 0 <= i < k - 1 implies (#[trigger] entries@[i]).wf(*gpu) by {
                    assert(entries@[i] == orig[i]);
                    assert(entry_disjoint(orig[i], orig[k - 1]));
                }
                assert(roster@ =~= orig.skip(k - 1).map_values(|e: Entry| e.spec_poke()));
            }
        }
        proof {
            assert(orig.skip(0) =~= orig);
            assert(roster@ =~= orig.map_values(|e: Entry| e.spec_poke()));
        }
        roster
    }
}

/// A freshly created entry is disjoint from any entry that was already
/// live when it was created: everything the old entry owns was claimed,
/// and everything the new one owns was free.
pub proof fn lemma_fresh_entry_disjoint(a: Entry, e: Entry, gpu: Gpu)
    requires
        gpu.wf(),
        a.wf(gpu),
        !gpu.sprites.slots()[e.spec_sprite_id() as int],
        (e.spec_item_sprite_id() matches Some(id) ==> !gpu.sprites.slots()[id as int]),
        (e.spec_tera_id() matches Some(id) ==> !gpu.sprites.slots()[id as int]),
        (e.spec_status_id() matches Some(id) ==> !gpu.sprites.slots()[id as int]),
        !gpu.windows.slots()[e.spec_title_window_id() as int],
        !gpu.windows.slots()[e.spec_hp_window_id() as int],
        (e.spec_item_pal_id() matches Some(p) ==> !gpu.obj_palettes.slots()[p as int]),
        e.spec_sprite_id() < SPRITE_CAP,
        (e.spec_item_sprite_id() matches Some(id) ==> id < SPRITE_CAP),
        (e.spec_tera_id() matches Some(id) ==> id < SPRITE_CAP),
        (e.spec_status_id() matches Some(id) ==> id < SPRITE_CAP),
        e.spec_title_window_id() < WINDOW_CAP,
        e.spec_hp_window_id() < WINDOW_CAP,
        (e.spec_item_pal_id() matches Some(p) ==> p < PALETTE_CAP),
    ensures
        entry_disjoint(a, e),
        entry_disjoint(e, a),
{
    assert forall|id: nat| #[trigger] a.owns_sprite(id) implies id < SPRITE_CAP
        && gpu.sprites.slots()[id as int] by {}
    assert forall|id: nat| #[trigger] a.owns_window(id) implies id < WINDOW_CAP
        && gpu.windows.slots()[id as int] by {}
    assert forall|id: nat| #[trigger] a.owns_obj_pal(id) implies id < PALETTE_CAP
        && gpu.obj_palettes.slots()[id as int] by {}
    assert forall|id: nat| id < SPRITE_CAP && #[trigger] e.owns_sprite(id) implies !gpu.sprites.slots()[
        id as int
    ] by {}
    assert forall|id: nat| id < WINDOW_CAP && #[trigger] e.owns_window(id) implies !gpu.windows.slots()[
        id as int
    ] by {}
    assert forall|id: nat|
        id < PALETTE_CAP && #[trigger] e.owns_obj_pal(id) implies !gpu.obj_palettes.slots()[
        id as int
    ] by {}
    assert(!e.owns_sprite(a.spec_sprite_id()));
    assert(!e.owns_window(a.spec_title_window_id()));
    assert(!e.owns_window(a.spec_hp_window_id()));
    assert(!a.owns_sprite(e.spec_sprite_id()));
    assert(!a.owns_window(e.spec_title_window_id()));
    assert(!a.owns_window(e.spec_hp_window_id()));
    match a.spec_item_sprite_id() {
        Some(id) => {
            assert(!e.owns_sprite(id));
        },
        None => {},
    }
    match a.spec_tera_id() {
        Some(id) => {
            assert(!e.owns_sprite(id));
        },
        None => {},
    }
    match a.spec_status_id() {
        Some(id) => {
            assert(!e.owns_sprite(id));
        },
        None => {},
    }
    match a.spec_item_pal_id() {
        Some(p) => {
            assert(!e.owns_obj_pal(p));
        },
        None => {},
    }
    match e.spec_item_sprite_id() {
        Some(id) => {
            assert(!a.owns_sprite(id));
        },
        None => {},
    }
    match e.spec_tera_id() {
        Some(id) => {
            assert(!a.owns_sprite(id));
        },
        None => {},
    }
    match e.spec_status_id() {
        Some(id) => {
            assert(!a.owns_sprite(id));
        },
        None => {},
    }
    match e.spec_item_pal_id() {
        Some(p) => {
            assert(!a.owns_obj_pal(p));
        },
        None => {},
    }
}

/// Releasing entry `k - 1` extends the released suffix by one: a slot is
/// owned by the suffix from `k - 1` exactly when entry `k - 1` or the
/// suffix from `k` owns it.
proof fn lemma_release_step(orig: Seq<Entry>, k: int)
    requires
        0 <= k < orig.len(),
    ensures
        forall|id: nat|
            entries_own_sprite(orig.skip(k + 1), id) || orig[k].owns_sprite(id)
                <==> entries_own_sprite(orig.skip(k), id),
        forall|id: nat|
            entries_own_window(orig.skip(k + 1), id) || orig[k].owns_window(id)
                <==> entries_own_window(orig.skip(k), id),
        forall|id: nat|
            entries_own_obj_pal(orig.skip(k + 1), id) || orig[k].owns_obj_pal(id)
                <==> entries_own_obj_pal(orig.skip(k), id),
{
    assert forall|id: nat|
        entries_own_sprite(orig.skip(k + 1), id) || orig[k].owns_sprite(id)
            <==> entries_own_sprite(orig.skip(k), id) by {
        if entries_own_sprite(orig.skip(k + 1), id) {
            let i = choose|i: int|
                0 <= i < orig.skip(k + 1).len() && (#[trigger] orig.skip(k + 1)[i]).owns_sprite(id);
            assert(orig.skip(k)[i + 1] == orig.skip(k + 1)[i]);
            assert(entries_own_sprite(orig.skip(k), id));
        }
        if orig[k].owns_sprite(id) {
            assert(orig.skip(k)[0] == orig[k]);
            assert(entries_own_sprite(orig.skip(k), id));
        }
        if entries_own_sprite(orig.skip(k), id) {
            let i = choose|i: int|
                0 <= i < orig.skip(k).len() && (#[trigger] orig.skip(k)[i]).owns_sprite(id);
            if i == 0 {
                assert(orig.skip(k)[0] == orig[k]);
            } else {
                assert(orig.skip(k + 1)[i - 1] == orig.skip(k)[i]);
                assert(entries_own_sprite(orig.skip(k + 1), id));
            }
        }
    }
    assert forall|id: nat|
        entries_own_window(orig.skip(k + 1), id) || orig[k].owns_window(id)
            <==> entries_own_window(orig.skip(k), id) by {
        if entries_own_window(orig.skip(k + 1), id) {
            let i = choose|i: int|
                0 <= i < orig.skip(k + 1).len() && (#[trigger] orig.skip(k + 1)[i]).owns_window(id);
            assert(orig.skip(k)[i + 1] == orig.skip(k + 1)[i]);
            assert(entries_own_window(orig.skip(k), id));
        }
        if orig[k].owns_window(id) {
            assert(orig.skip(k)[0] == orig[k]);
            assert(entries_own_window(orig.skip(k), id));
        }
        if entries_own_window(orig.skip(k), id) {
            let i = choose|i: int|
                0 <= i < orig.skip(k).len() && (#[trigger] orig.skip(k)[i]).owns_window(id);
            if i == 0 {
                assert(orig.skip(k)[0] == orig[k]);
            } else {
                assert(orig.skip(k + 1)[i - 1] == orig.skip(k)[i]);
                assert(entries_own_window(orig.skip(k + 1), id));
            }
        }
    }
    assert forall|id: nat|
        entries_own_obj_pal(orig.skip(k + 1), id) || orig[k].owns_obj_pal(id)
            <==> entries_own_obj_pal(orig.skip(k), id) by {
        if entries_own_obj_pal(orig.skip(k + 1), id) {
            let i = choose|i: int|
                0 <= i < orig.skip(k + 1).len() && (#[trigger] orig.skip(k + 1)[i]).owns_obj_pal(
                    id,
                );
            assert(orig.skip(k)[i + 1] == orig.skip(k + 1)[i]);
            assert(entries_own_obj_pal(orig.skip(k), id));
        }
        if orig[k].owns_obj_pal(id) {
            assert(orig.skip(k)[0] == orig[k]);
            assert(entries_own_obj_pal(orig.skip(k), id));
        }
        if entries_own_obj_pal(orig.skip(k), id) {
            let i = choose|i: int|
                0 <= i < orig.skip(k).len() && (#[trigger] orig.skip(k)[i]).owns_obj_pal(id);
            if i == 0 {
                assert(orig.skip(k)[0] == orig[k]);
            } else {
                assert(orig.skip(k + 1)[i - 1] == orig.skip(k)[i]);
                assert(entries_own_obj_pal(orig.skip(k + 1), id));
            }
        }
    }
}


} // verus!
