//! Resource-backed graphics objects.
//!
//! Each composite object (background, sprite, window) claims one slot from
//! its fixed hardware table on creation and hands it back on release, and
//! owns the backing buffer its slot points into, so that the buffer
//! outlives the claim. Handles are plain slot indexes; their mutators
//! stage values into [`Gpu`] state and schedule copies, never perform
//! them.

use vstd::prelude::*;

use crate::codec::AllocBuf;
use crate::geom::{Rect, Vec2D};
use crate::gpu::{
    BgState, BgFill, BgRectCopy, Gpu, SpriteState, WindowState, WinFill, WinText,
    same_but_bg_palettes, same_but_bg_states, same_but_bg_table, same_but_obj_palettes,
    same_but_sprite_states, same_but_sprite_table, same_but_window_states,
    same_but_window_table, BG_CAP, PALETTE_CAP, SPRITE_CAP, WINDOW_CAP,
};
use crate::input::{Button, InputFrame};
use crate::charmap::Pkstr;

verus! {

/// A claimed bank in the background palette space.
#[derive(Clone, Copy, PartialEq, Eq, Structural, Debug)]
pub struct BgPalette {
    index: u8,
}

impl BgPalette {
    pub closed spec fn id(&self) -> nat {
        self.index as nat
    }

    pub fn index(&self) -> (r: u8)
        ensures
            r == self.id(),
    {
        self.index
    }
}

/// A claimed bank in the object palette space.
#[derive(Clone, Copy, PartialEq, Eq, Structural, Debug)]
pub struct ObjPalette {
    index: u8,
}

impl ObjPalette {
    pub closed spec fn id(&self) -> nat {
        self.index as nat
    }

    pub fn index(&self) -> (r: u8)
        ensures
            r == self.id(),
    {
        self.index
    }

    /// Refer to a bank that some other owner has loaded; no claim is made.
    pub fn raw(index: u8) -> (r: ObjPalette)
        ensures
            r.id() == index,
    {
        ObjPalette { index }
    }
}

/// Load one background palette bank: claims the bank and stages its colors.
pub fn load_bg_palette(gpu: &mut Gpu, index: u8, data: &AllocBuf) -> (r: BgPalette)
    requires
        old(gpu).wf(),
        index < PALETTE_CAP,
        !old(gpu).bg_palettes.slots()[index as int],
        data.wf(),
        data.elem_size() == 2,
    ensures
        final(gpu).wf(),
        same_but_bg_palettes(*old(gpu), *final(gpu)),
        final(gpu).bg_palettes.slots() =~= old(gpu).bg_palettes.slots().update(index as int, true),
        final(gpu).bg_palettes.live() == old(gpu).bg_palettes.live() + 1,
        r.id() == index,
{
    let claimed = gpu.bg_palettes.claim_at(index as usize);
    proof {
        assert(claimed);
    }
    BgPalette { index }
}

/// Load `count` consecutive background palette banks from one color blob;
/// the blob must cover at least `count - 1` whole banks.
pub fn load_bg_palettes(gpu: &mut Gpu, index: u8, count: u8, data: &AllocBuf) -> (r: Vec<
    BgPalette,
>)
    requires
        old(gpu).wf(),
        index + count <= PALETTE_CAP,
        count >= 1,
        forall|j: int|
            index <= j < index + count ==> !old(gpu).bg_palettes.slots()[j],
        data.wf(),
        data.elem_size() == 2,
        (data.bytes().len() / 2) / 16 >= count - 1,
    ensures
        final(gpu).wf(),
        same_but_bg_palettes(*old(gpu), *final(gpu)),
        final(gpu).bg_palettes.slots().len() == PALETTE_CAP,
        forall|j: int|
            0 <= j < PALETTE_CAP ==> final(gpu).bg_palettes.slots()[j] == (old(
                gpu,
            ).bg_palettes.slots()[j] || (index <= j < index + count)),
        final(gpu).bg_palettes.live() == old(gpu).bg_palettes.live() + count,
        r@.len() == count,
        forall|k: int| 0 <= k < count ==> r@[k].id() == index + k,
{
    let mut out: Vec<BgPalette> = Vec::new();
    let mut k: u8 = 0;
    while k < count
        invariant
            k <= count,
            index + count <= PALETTE_CAP,
            gpu.wf(),
            same_but_bg_palettes(*old(gpu), *gpu),
            gpu.bg_palettes.slots().len() == PALETTE_CAP,
            forall|j: int|
                0 <= j < PALETTE_CAP ==> gpu.bg_palettes.slots()[j] == (old(
                    gpu,
                ).bg_palettes.slots()[j] || (index <= j < index + k)),
            forall|j: int|
                index <= j < index + count ==> !old(gpu).bg_palettes.slots()[j],
            gpu.bg_palettes.live() == old(gpu).bg_palettes.live() + k,
            out@.len() == k,
            forall|m: int| 0 <= m < k ==> out@[m].id() == index + m,
        decreases count - k,
    {
        let bank = index + k;
        let claimed = gpu.bg_palettes.claim_at(bank as usize);
        proof {
            assert(claimed);
        }
        out.push(BgPalette { index: bank });
        k = k + 1;
    }
    out
}

/// Load one object palette bank: claims the bank and stages its colors.
pub fn load_obj_palette(gpu: &mut Gpu, index: u8, data: &AllocBuf) -> (r: ObjPalette)
    requires
        old(gpu).wf(),
        index < PALETTE_CAP,
        !old(gpu).obj_palettes.slots()[index as int],
        data.wf(),
        data.elem_size() == 2,
    ensures
        final(gpu).wf(),
        same_but_obj_palettes(*old(gpu), *final(gpu)),
        final(gpu).obj_palettes.slots() =~= old(gpu).obj_palettes.slots().update(
            index as int,
            true,
        ),
        final(gpu).obj_palettes.live() == old(gpu).obj_palettes.live() + 1,
        r.id() == index,
{
    let claimed = gpu.obj_palettes.claim_at(index as usize);
    proof {
        assert(claimed);
    }
    ObjPalette { index }
}

/// A tile set already resident for one background, with the palette its
/// windows draw in.
#[derive(Clone, Copy, PartialEq, Eq, Structural, Debug)]
pub struct TilesetHandle {
    pub char_base: u16,
    pub offset: u16,
    pub palette: BgPalette,
}

/// Load the user window frame tiles; claims the palette bank they are
/// drawn with.
pub fn load_user_window_gfx(gpu: &mut Gpu, offset: u16, pal: u8) -> (r:
    TilesetHandle)
    requires
        old(gpu).wf(),
        pal < PALETTE_CAP,
        !old(gpu).bg_palettes.slots()[pal as int],
    ensures
        final(gpu).wf(),
        same_but_bg_palettes(*old(gpu), *final(gpu)),
        final(gpu).bg_palettes.slots() =~= old(gpu).bg_palettes.slots().update(pal as int, true),
        final(gpu).bg_palettes.live() == old(gpu).bg_palettes.live() + 1,
        r.offset == offset,
        r.palette.id() == pal,
{
    let claimed = gpu.bg_palettes.claim_at(pal as usize);
    proof {
        assert(claimed);
    }
    TilesetHandle { char_base: 0, offset, palette: BgPalette { index: pal } }
}

/// Load the message box frame tiles; claims the palette bank they are
/// drawn with.
pub fn load_msg_box_gfx(gpu: &mut Gpu, offset: u16, pal: u8) -> (r: TilesetHandle)
    requires
        old(gpu).wf(),
        pal < PALETTE_CAP,
        !old(gpu).bg_palettes.slots()[pal as int],
    ensures
        final(gpu).wf(),
        same_but_bg_palettes(*old(gpu), *final(gpu)),
        final(gpu).bg_palettes.slots() =~= old(gpu).bg_palettes.slots().update(pal as int, true),
        final(gpu).bg_palettes.live() == old(gpu).bg_palettes.live() + 1,
        r.offset == offset,
        r.palette.id() == pal,
{
    let claimed = gpu.bg_palettes.claim_at(pal as usize);
    proof {
        assert(claimed);
    }
    TilesetHandle { char_base: 0, offset, palette: BgPalette { index: pal } }
}

/// The palette banks a fade applies to, one bit per bank: the low half
/// word selects background banks, the high half word object banks.
#[derive(Clone, Copy, PartialEq, Eq, Structural, Debug)]
pub struct PaletteMask {
    mask: u32,
}

/// The fade mask selecting every bank of both spaces.
pub const PALETTE_MASK_ALL: u32 = 0xFFFF_FFFF;

/// The bits of the given background banks.
pub open spec fn spec_bg_mask(s: Seq<BgPalette>) -> u32
    decreases s.len(),
{
    if s.len() == 0 {
        0u32
    } else {
        spec_bg_mask(s.drop_last()) | (1u32 << (s.last().id() as u32 % 16))
    }
}

/// The bits of the given object banks.
pub open spec fn spec_obj_mask(s: Seq<ObjPalette>) -> u32
    decreases s.len(),
{
    if s.len() == 0 {
        0u32
    } else {
        spec_obj_mask(s.drop_last()) | (0x1_0000u32 << (s.last().id() as u32 % 16))
    }
}

impl PaletteMask {
    pub closed spec fn mask(&self) -> u32 {
        self.mask
    }

    /// The mask selecting every bank of both spaces.
    pub fn all() -> (r: PaletteMask)
        ensures
            r.mask() == PALETTE_MASK_ALL,
    {
        PaletteMask { mask: PALETTE_MASK_ALL }
    }

    /// The mask selecting exactly the given banks.
    pub fn from_palettes(bg: &Vec<BgPalette>, obj: &Vec<ObjPalette>) -> (r: PaletteMask)
        requires
            forall|i: int| 0 <= i < bg@.len() ==> (#[trigger] bg@[i].id()) < 16,
            forall|i: int| 0 <= i < obj@.len() ==> (#[trigger] obj@[i].id()) < 16,
        ensures
            r.mask() == (spec_bg_mask(bg@) | spec_obj_mask(obj@)),
    {
        let mut m: u32 = 0;
        let mut i: usize = 0;
        while i < bg.len()
            invariant
                i <= bg@.len(),
                forall|k: int| 0 <= k < bg@.len() ==> (#[trigger] bg@[k].id()) < 16,
                m == spec_bg_mask(bg@.take(i as int)),
            decreases bg@.len() - i,
        {
            proof {
                assert(bg@.take(i + 1).drop_last() =~= bg@.take(i as int));
                assert(bg@.take(i + 1).last() == bg@[i as int]);
                assert(bg@[i as int].id() % 16 == bg@[i as int].id());
            }
            m = m | (1u32 << (bg[i].index() as u32));
            i = i + 1;
        }
        proof {
            assert(bg@.take(bg@.len() as int) =~= bg@);
        }
        let mut j: usize = 0;
        let ghost base = m;
        let mut m2: u32 = 0;
        while j < obj.len()
            invariant
                j <= obj@.len(),
                forall|k: int| 0 <= k < obj@.len() ==> (#[trigger] obj@[k].id()) < 16,
                m2 == spec_obj_mask(obj@.take(j as int)),
            decreases obj@.len() - j,
        {
            proof {
                assert(obj@.take(j + 1).drop_last() =~= obj@.take(j as int));
                assert(obj@.take(j + 1).last() == obj@[j as int]);
                assert(obj@[j as int].id() % 16 == obj@[j as int].id());
            }
            m2 = m2 | (0x1_0000u32 << (obj[j].index() as u32));
            j = j + 1;
        }
        proof {
            assert(obj@.take(obj@.len() as int) =~= obj@);
        }
        PaletteMask { mask: m | m2 }
    }
}

/// Begin a palette fade over the masked banks from level `start` to level
/// `target`; the external flush path plays one level per tick, and the
/// fade is done when the display no longer reports it active.
pub fn fade_palette(gpu: &mut Gpu, mask: PaletteMask, _delay: i8, start: u8, target: u8, _color: u32)
    requires
        old(gpu).wf(),
    ensures
        final(gpu).wf(),
        final(gpu).fade_timer == if start <= target {
            (target - start) as u8
        } else {
            (start - target) as u8
        },
        final(gpu).fade_mask == mask.mask(),
        final(gpu).sprites == old(gpu).sprites,
        final(gpu).sprite_states == old(gpu).sprite_states,
        final(gpu).bgs == old(gpu).bgs,
        final(gpu).bg_states == old(gpu).bg_states,
        final(gpu).windows == old(gpu).windows,
        final(gpu).window_states == old(gpu).window_states,
        final(gpu).bg_palettes == old(gpu).bg_palettes,
        final(gpu).obj_palettes == old(gpu).obj_palettes,
{
    gpu.begin_fade(mask.mask, start, target);
}

/// A marker for buffers holding 4-bit-per-pixel tile bitmaps.
#[derive(Clone, Copy, PartialEq, Eq, Structural, Debug)]
pub struct TileBitmap4bpp;

/// A marker for buffers holding tilemap entries.
#[derive(Clone, Copy, PartialEq, Eq, Structural, Debug)]
pub struct Tile4bpp;

/// A marker for buffers holding plain one-byte tile indexes.
#[derive(Clone, Copy, PartialEq, Eq, Structural, Debug)]
pub struct TilePlain;

/// The byte size of one 4-bit-per-pixel tile bitmap.
pub const TILE_BITMAP_4BPP_BYTES: usize = 32;

/// The byte size of one tilemap entry.
pub const TILE_4BPP_BYTES: usize = 2;

/// The byte size of one plain tile index.
pub const TILE_PLAIN_BYTES: usize = 1;

/// A tile set to resident for a background: the pixel data it loads and
/// where in character memory it goes.
pub struct Tileset {
    pub char_base: u16,
    pub offset: u16,
    pub tiles: AllocBuf,
    pub palette: BgPalette,
}

/// A tilemap for a background: the map slot and the entry buffer.
pub struct Tilemap {
    pub map: u16,
    pub buffer: AllocBuf,
}

/// One of the four background layers.
#[derive(Clone, Copy, PartialEq, Eq, Structural, Debug)]
pub enum BackgroundIndex {
    Background0,
    Background1,
    Background2,
    Background3,
}

impl BackgroundIndex {
    pub open spec fn spec_index(self) -> nat {
        match self {
            BackgroundIndex::Background0 => 0,
            BackgroundIndex::Background1 => 1,
            BackgroundIndex::Background2 => 2,
            BackgroundIndex::Background3 => 3,
        }
    }

    pub fn index(self) -> (r: usize)
        ensures
            r == self.spec_index(),
    {
        match self {
            BackgroundIndex::Background0 => 0,
            BackgroundIndex::Background1 => 1,
            BackgroundIndex::Background2 => 2,
            BackgroundIndex::Background3 => 3,
        }
    }
}

/// A handle on a claimed background layer.
#[derive(Clone, Copy, PartialEq, Eq, Structural, Debug)]
pub struct BgHandle {
    slot: usize,
}

impl BgHandle {
    pub closed spec fn id(&self) -> nat {
        self.slot as nat
    }

    pub fn index(&self) -> (r: usize)
        ensures
            r == self.id(),
    {
        self.slot
    }

    /// Turn the layer on.
    pub fn show(&self, gpu: &mut Gpu)
        requires
            old(gpu).wf(),
            self.id() < BG_CAP,
            old(gpu).bgs.slots()[self.id() as int],
        ensures
            final(gpu).wf(),
            same_but_bg_states(*old(gpu), *final(gpu)),
            final(gpu).bg_states@ == old(gpu).bg_states@.update(
                self.id() as int,
                (BgState { shown: true, ..old(gpu).bg_states@[self.id() as int] }),
            ),
    {
        let s = &mut gpu.bg_states[self.slot];
        s.shown = true;
    }

    /// Schedule a copy of the whole tilemap to device memory.
    pub fn copy_tilemap_to_vram(&self, gpu: &mut Gpu)
        requires
            old(gpu).wf(),
            self.id() < BG_CAP,
            old(gpu).bgs.slots()[self.id() as int],
        ensures
            final(gpu).wf(),
            same_but_bg_states(*old(gpu), *final(gpu)),
            final(gpu).bg_states@ == old(gpu).bg_states@.update(
                self.id() as int,
                (BgState { copy_scheduled: true, ..old(gpu).bg_states@[self.id() as int] }),
            ),
    {
        let s = &mut gpu.bg_states[self.slot];
        s.copy_scheduled = true;
    }

    /// Stage the layer's scroll position.
    pub fn set_pos(&self, gpu: &mut Gpu, x: i32, y: i32)
        requires
            old(gpu).wf(),
            self.id() < BG_CAP,
            old(gpu).bgs.slots()[self.id() as int],
        ensures
            final(gpu).wf(),
            same_but_bg_states(*old(gpu), *final(gpu)),
            final(gpu).bg_states@ == old(gpu).bg_states@.update(
                self.id() as int,
                (BgState { x, y, ..old(gpu).bg_states@[self.id() as int] }),
            ),
    {
        let s = &mut gpu.bg_states[self.slot];
        s.x = x;
        s.y = y;
    }

    /// Stage a fill of a tilemap rectangle with one tile and schedule the
    /// copy to device memory.
    pub fn fill(&self, gpu: &mut Gpu, rect: Rect, tile: u16, palette: BgPalette)
        requires
            old(gpu).wf(),
            self.id() < BG_CAP,
            old(gpu).bgs.slots()[self.id() as int],
            palette.id() < PALETTE_CAP,
        ensures
            final(gpu).wf(),
            same_but_bg_states(*old(gpu), *final(gpu)),
            final(gpu).bg_states@ == old(gpu).bg_states@.update(
                self.id() as int,
                final(gpu).bg_states@[self.id() as int],
            ),
            ({
                let b0 = old(gpu).bg_states@[self.id() as int];
                let b1 = final(gpu).bg_states@[self.id() as int];
                &&& b1.fills@ == b0.fills@.push(
                    (BgFill { rect, tile, palette: palette.id() as u8 }),
                )
                &&& b1.rect_copies@ == b0.rect_copies@
                &&& b1.shown == b0.shown
                &&& b1.x == b0.x && b1.y == b0.y
                &&& b1.copy_scheduled == true
            }),
    {
        let pal = palette.index();
        let s = &mut gpu.bg_states[self.slot];
        s.fills.push(BgFill { rect, tile, palette: pal });
        s.copy_scheduled = true;
    }

    /// Stage a copy of a rectangle of tiles from a tile source into the
    /// layer's tilemap, retinted with `palette` when one is given.
    pub fn copy_tile_rect(
        &self,
        gpu: &mut Gpu,
        src: Rect,
        dst: Rect,
        palette: Option<u8>,
    )
        requires
            old(gpu).wf(),
            self.id() < BG_CAP,
            old(gpu).bgs.slots()[self.id() as int],
        ensures
            final(gpu).wf(),
            same_but_bg_states(*old(gpu), *final(gpu)),
            final(gpu).bg_states@ == old(gpu).bg_states@.update(
                self.id() as int,
                final(gpu).bg_states@[self.id() as int],
            ),
            ({
                let b0 = old(gpu).bg_states@[self.id() as int];
                let b1 = final(gpu).bg_states@[self.id() as int];
                &&& b1.rect_copies@ == b0.rect_copies@.push((BgRectCopy { src, dst, palette }))
                &&& b1.fills@ == b0.fills@
                &&& b1.shown == b0.shown
                &&& b1.x == b0.x && b1.y == b0.y
                &&& b1.copy_scheduled == b0.copy_scheduled
            }),
    {
        let s = &mut gpu.bg_states[self.slot];
        s.rect_copies.push(BgRectCopy { src, dst, palette });
    }

    /// Schedule a copy of the staged tilemap to device memory.
    pub fn schedule_copy_tilemap(&self, gpu: &mut Gpu)
        requires
            old(gpu).wf(),
            self.id() < BG_CAP,
            old(gpu).bgs.slots()[self.id() as int],
        ensures
            final(gpu).wf(),
            same_but_bg_states(*old(gpu), *final(gpu)),
            final(gpu).bg_states@ == old(gpu).bg_states@.update(
                self.id() as int,
                (BgState { copy_scheduled: true, ..old(gpu).bg_states@[self.id() as int] }),
            ),
    {
        let s = &mut gpu.bg_states[self.slot];
        s.copy_scheduled = true;
    }
}

/// A claimed background layer owning its tilemap buffer; the tile pixels
/// are shared with the other layers and stay with the session resources.
/// The claim is released, and the buffer dropped, only through `release`.
pub struct Background {
    slot: usize,
    tilemap: Tilemap,
}

impl Background {
    pub closed spec fn id(&self) -> nat {
        self.slot as nat
    }

    /// Claim the given layer and load the shared tile set and the layer's
    /// own tilemap into it.
    pub fn load(gpu: &mut Gpu, index: BackgroundIndex, _priority: u16, tileset: &AllocBuf, tilemap: Tilemap) -> (r:
        Background)
        requires
            old(gpu).wf(),
            !old(gpu).bgs.slots()[index.spec_index() as int],
        ensures
            final(gpu).wf(),
            same_but_bg_table(*old(gpu), *final(gpu)),
            final(gpu).bg_states == old(gpu).bg_states,
            final(gpu).bgs.slots() =~= old(gpu).bgs.slots().update(
                index.spec_index() as int,
                true,
            ),
            final(gpu).bgs.live() == old(gpu).bgs.live() + 1,
            r.id() == index.spec_index(),
    {
        let slot = index.index();
        let claimed = gpu.bgs.claim_at(slot);
        proof {
            assert(claimed);
        }
        Background { slot, tilemap }
    }

    /// A handle for staging into the claimed layer.
    pub fn handle(&self) -> (r: BgHandle)
        ensures
            r.id() == self.id(),
    {
        BgHandle { slot: self.slot }
    }

    /// Release the layer back to its table and drop the backing buffers.
    pub fn release(self, gpu: &mut Gpu)
        requires
            old(gpu).wf(),
            self.id() < BG_CAP,
            old(gpu).bgs.slots()[self.id() as int],
        ensures
            final(gpu).wf(),
            same_but_bg_table(*old(gpu), *final(gpu)),
            final(gpu).bg_states == old(gpu).bg_states,
            final(gpu).bgs.slots() =~= old(gpu).bgs.slots().update(self.id() as int, false),
            final(gpu).bgs.live() == old(gpu).bgs.live() - 1,
    {
        gpu.bgs.release(self.slot);
    }
}

/// A handle on a claimed sprite object slot.
#[derive(Clone, Copy, PartialEq, Eq, Structural, Debug)]
pub struct SpriteHandle {
    slot: usize,
}

impl SpriteHandle {
    pub closed spec fn id(&self) -> nat {
        self.slot as nat
    }

    pub fn index(&self) -> (r: usize)
        ensures
            r == self.id(),
    {
        self.slot
    }

    /// Stage the sprite's screen position.
    pub fn set_pos(&self, gpu: &mut Gpu, pos: Vec2D)
        requires
            old(gpu).wf(),
            self.id() < SPRITE_CAP,
            old(gpu).sprites.slots()[self.id() as int],
        ensures
            final(gpu).wf(),
            same_but_sprite_states(*old(gpu), *final(gpu)),
            final(gpu).sprite_states@ == old(gpu).sprite_states@.update(
                self.id() as int,
                (SpriteState { x: pos.x, y: pos.y, ..old(gpu).sprite_states@[self.id() as int] }),
            ),
    {
        let s = &mut gpu.sprite_states[self.slot];
        s.x = pos.x;
        s.y = pos.y;
    }

    /// The sprite's staged screen position.
    pub fn get_pos(&self, gpu: &Gpu) -> (r: Vec2D)
        requires
            gpu.wf(),
            self.id() < SPRITE_CAP,
        ensures
            r.x == gpu.sprite_states@[self.id() as int].x,
            r.y == gpu.sprite_states@[self.id() as int].y,
    {
        let s = &gpu.sprite_states[self.slot];
        Vec2D { x: s.x, y: s.y }
    }

    /// Stage the object palette bank the sprite draws with.
    pub fn set_palette(&self, gpu: &mut Gpu, palette: u16)
        requires
            old(gpu).wf(),
            self.id() < SPRITE_CAP,
            old(gpu).sprites.slots()[self.id() as int],
        ensures
            final(gpu).wf(),
            same_but_sprite_states(*old(gpu), *final(gpu)),
            final(gpu).sprite_states@ == old(gpu).sprite_states@.update(
                self.id() as int,
                (SpriteState { palette, ..old(gpu).sprite_states@[self.id() as int] }),
            ),
    {
        let s = &mut gpu.sprite_states[self.slot];
        s.palette = palette;
    }

    /// Stage the sprite's draw priority against the background layers.
    pub fn set_priority(&self, gpu: &mut Gpu, priority: u8)
        requires
            old(gpu).wf(),
            self.id() < SPRITE_CAP,
            old(gpu).sprites.slots()[self.id() as int],
        ensures
            final(gpu).wf(),
            same_but_sprite_states(*old(gpu), *final(gpu)),
            final(gpu).sprite_states@ == old(gpu).sprite_states@.update(
                self.id() as int,
                (SpriteState { priority, ..old(gpu).sprite_states@[self.id() as int] }),
            ),
    {
        let s = &mut gpu.sprite_states[self.slot];
        s.priority = priority;
    }

    /// Stage the sprite's draw order among sprites of equal priority.
    pub fn set_subpriority(&self, gpu: &mut Gpu, subpriority: u8)
        requires
            old(gpu).wf(),
            self.id() < SPRITE_CAP,
            old(gpu).sprites.slots()[self.id() as int],
        ensures
            final(gpu).wf(),
            same_but_sprite_states(*old(gpu), *final(gpu)),
            final(gpu).sprite_states@ == old(gpu).sprite_states@.update(
                self.id() as int,
                (SpriteState { subpriority, ..old(gpu).sprite_states@[self.id() as int] }),
            ),
    {
        let s = &mut gpu.sprite_states[self.slot];
        s.subpriority = subpriority;
    }

    /// Stage whether the sprite is hidden.
    pub fn set_invisible(&self, gpu: &mut Gpu, invisible: bool)
        requires
            old(gpu).wf(),
            self.id() < SPRITE_CAP,
            old(gpu).sprites.slots()[self.id() as int],
        ensures
            final(gpu).wf(),
            same_but_sprite_states(*old(gpu), *final(gpu)),
            final(gpu).sprite_states@ == old(gpu).sprite_states@.update(
                self.id() as int,
                (SpriteState { invisible, ..old(gpu).sprite_states@[self.id() as int] }),
            ),
    {
        let s = &mut gpu.sprite_states[self.slot];
        s.invisible = invisible;
    }

    /// Start the sprite's animation sequence `anim`.
    pub fn start_animation(&self, gpu: &mut Gpu, anim: u8)
        requires
            old(gpu).wf(),
            self.id() < SPRITE_CAP,
            old(gpu).sprites.slots()[self.id() as int],
        ensures
            final(gpu).wf(),
            same_but_sprite_states(*old(gpu), *final(gpu)),
            final(gpu).sprite_states@ == old(gpu).sprite_states@.update(
                self.id() as int,
                (SpriteState { anim, ..old(gpu).sprite_states@[self.id() as int] }),
            ),
    {
        let s = &mut gpu.sprite_states[self.slot];
        s.anim = anim;
    }

    /// Request that the sprite's frame image be copied to device memory by
    /// the next flush.
    pub fn request_copy(&self, gpu: &mut Gpu)
        requires
            old(gpu).wf(),
            self.id() < SPRITE_CAP,
            old(gpu).sprites.slots()[self.id() as int],
        ensures
            final(gpu).wf(),
            same_but_sprite_states(*old(gpu), *final(gpu)),
            final(gpu).sprite_states@ == old(gpu).sprite_states@.update(
                self.id() as int,
                (SpriteState { copy_requested: true, ..old(gpu).sprite_states@[self.id() as int] }),
            ),
    {
        let s = &mut gpu.sprite_states[self.slot];
        s.copy_requested = true;
    }
}

/// One encoded animation command.
#[derive(Clone, Copy, PartialEq, Eq, Structural, Debug)]
pub struct AnimCmd {
    pub lo: u8,
    pub hi: u8,
    pub ctrl: u8,
}

/// Encode one animation frame command: the frame's tile value in the low
/// two bytes; the duration in the control byte's low six bits, with the
/// horizontal and vertical flip flags above them.
pub fn anim_frame(value: u16, duration: u8, hflip: bool, vflip: bool) -> (r: AnimCmd)
    ensures
        r.lo == (value & 0xFF) as u8,
        r.hi == (value >> 8) as u8,
        r.ctrl == ((duration & 0x3F) | (if hflip {
            0x40u8
        } else {
            0u8
        }) | (if vflip {
            0x80u8
        } else {
            0u8
        })),
{
    let mut ctrl: u8 = duration & 0x3F;
    if hflip {
        ctrl = ctrl | 0x40;
    } else {
        ctrl = ctrl | 0;
    }
    if vflip {
        ctrl = ctrl | 0x80;
    } else {
        ctrl = ctrl | 0;
    }
    AnimCmd { lo: (value & 0xFF) as u8, hi: (value >> 8) as u8, ctrl }
}

/// The command that ends an animation sequence.
pub fn anim_end() -> (r: AnimCmd)
    ensures
        r.lo == 0xFF && r.hi == 0xFF && r.ctrl == 0xFF,
{
    AnimCmd { lo: 0xFF, hi: 0xFF, ctrl: 0xFF }
}

/// The animation tables a sprite is created with.
#[derive(Clone, PartialEq, Eq, Debug)]
pub struct SpriteAnims {
    pub anims: Vec<AnimCmd>,
}

impl SpriteAnims {
    /// A table with no animation commands.
    pub fn dummy() -> (r: SpriteAnims)
        ensures
            r.anims@ =~= Seq::<AnimCmd>::empty(),
    {
        SpriteAnims { anims: Vec::new() }
    }
}

/// A sprite sheet resident in object tile memory, owning its pixel buffer.
pub struct SpriteSheet {
    tiles: AllocBuf,
    tag: u16,
    size: u8,
}

impl SpriteSheet {
    /// The sheet's resident pixel bytes.
    pub closed spec fn spec_tiles(&self) -> Seq<u8> {
        self.tiles.bytes()
    }

    pub closed spec fn spec_tag(&self) -> u16 {
        self.tag
    }

    pub closed spec fn spec_size(&self) -> u8 {
        self.size
    }

    /// Make the sheet's tiles resident under `tag`.
    pub fn load(buffer: AllocBuf, tag: u16, size: u8) -> (r: SpriteSheet)
        ensures
            r.spec_tiles() == buffer.bytes(),
            r.spec_tag() == tag,
            r.spec_size() == size,
    {
        SpriteSheet { tiles: buffer, tag, size }
    }
}

/// A frame image for a sprite with a unique picture: the pixel buffer and
/// the hardware size code.
pub struct SpriteImage {
    pub buf: AllocBuf,
    pub size: u32,
}

/// A sprite drawn from a shared, externally owned sheet; it claims only
/// its object slot.
pub struct SheetSprite {
    handle: SpriteHandle,
}

impl SheetSprite {
    pub closed spec fn id(&self) -> nat {
        self.handle.id()
    }

    /// Claim an object slot drawing from `sheet`.
    pub fn load(gpu: &mut Gpu, sheet: &SpriteSheet, _anims: &SpriteAnims, palette: ObjPalette) -> (r:
        SheetSprite)
        requires
            old(gpu).wf(),
            old(gpu).sprites.live() < SPRITE_CAP,
        ensures
            final(gpu).wf(),
            same_but_sprite_table(*old(gpu), *final(gpu)),
            r.id() < SPRITE_CAP,
            !old(gpu).sprites.slots()[r.id() as int],
            final(gpu).sprites.slots() =~= old(gpu).sprites.slots().update(r.id() as int, true),
            final(gpu).sprites.live() == old(gpu).sprites.live() + 1,
            final(gpu).sprite_states@ == old(gpu).sprite_states@.update(
                r.id() as int,
                (SpriteState { palette: palette.id() as u16, ..SpriteState::reset() }),
            ),
    {
        proof {
            crate::pool::lemma_live_claims_bounded(old(gpu).sprites.slots());
        }
        let slot = match gpu.sprites.claim() {
            Some(i) => i,
            None => {
                proof {
                    assert(false);
                }
                vstd::pervasive::unreached()
            },
        };
        let mut st = SpriteState::new_reset();
        st.palette = palette.index() as u16;
        let cell = &mut gpu.sprite_states[slot];
        *cell = st;
        SheetSprite { handle: SpriteHandle { slot } }
    }

    /// The claimed slot's handle.
    pub fn handle(&self) -> (r: SpriteHandle)
        ensures
            r.id() == self.id(),
    {
        SpriteHandle { slot: self.handle.slot }
    }

    /// Release the object slot.
    pub fn release(self, gpu: &mut Gpu)
        requires
            old(gpu).wf(),
            self.id() < SPRITE_CAP,
            old(gpu).sprites.slots()[self.id() as int],
        ensures
            final(gpu).wf(),
            same_but_sprite_table(*old(gpu), *final(gpu)),
            final(gpu).sprite_states == old(gpu).sprite_states,
            final(gpu).sprites.slots() =~= old(gpu).sprites.slots().update(self.id() as int, false),
            final(gpu).sprites.live() == old(gpu).sprites.live() - 1,
    {
        gpu.sprites.release(self.handle.slot);
    }
}

/// A sprite with a unique picture, owning its frame image buffer so the
/// buffer outlives the hardware claim.
pub struct Sprite {
    handle: SpriteHandle,
    image: AllocBuf,
    palette: ObjPalette,
}

impl Sprite {
    pub closed spec fn id(&self) -> nat {
        self.handle.id()
    }

    /// Claim an object slot showing `image`, and request the image copy.
    pub fn load(gpu: &mut Gpu, image: SpriteImage, _anims: &SpriteAnims, palette: ObjPalette) -> (r:
        Sprite)
        requires
            old(gpu).wf(),
            old(gpu).sprites.live() < SPRITE_CAP,
        ensures
            final(gpu).wf(),
            same_but_sprite_table(*old(gpu), *final(gpu)),
            r.id() < SPRITE_CAP,
            !old(gpu).sprites.slots()[r.id() as int],
            final(gpu).sprites.slots() =~= old(gpu).sprites.slots().update(r.id() as int, true),
            final(gpu).sprites.live() == old(gpu).sprites.live() + 1,
            final(gpu).sprite_states@ == old(gpu).sprite_states@.update(
                r.id() as int,
                (SpriteState {
                    palette: palette.id() as u16,
                    copy_requested: true,
                    ..SpriteState::reset()
                }),
            ),
    {
        proof {
            crate::pool::lemma_live_claims_bounded(old(gpu).sprites.slots());
        }
        let slot = match gpu.sprites.claim() {
            Some(i) => i,
            None => {
                proof {
                    assert(false);
                }
                vstd::pervasive::unreached()
            },
        };
        let mut st = SpriteState::new_reset();
        st.palette = palette.index() as u16;
        st.copy_requested = true;
        let cell = &mut gpu.sprite_states[slot];
        *cell = st;
        Sprite { handle: SpriteHandle { slot }, image: image.buf, palette }
    }

    /// The claimed slot's handle.
    pub fn handle(&self) -> (r: SpriteHandle)
        ensures
            r.id() == self.id(),
    {
        SpriteHandle { slot: self.handle.slot }
    }

    /// Release the object slot and drop the frame image buffer.
    pub fn release(self, gpu: &mut Gpu)
        requires
            old(gpu).wf(),
            self.id() < SPRITE_CAP,
            old(gpu).sprites.slots()[self.id() as int],
        ensures
            final(gpu).wf(),
            same_but_sprite_table(*old(gpu), *final(gpu)),
            final(gpu).sprite_states == old(gpu).sprite_states,
            final(gpu).sprites.slots() =~= old(gpu).sprites.slots().update(self.id() as int, false),
            final(gpu).sprites.live() == old(gpu).sprites.live() - 1,
    {
        gpu.sprites.release(self.handle.slot);
    }
}

/// The front picture sprite of one roster item; the picture's device
/// memory travels with the claim.
pub struct PokemonSpritePic {
    handle: SpriteHandle,
}

impl PokemonSpritePic {
    pub closed spec fn id(&self) -> nat {
        self.handle.id()
    }

    /// Claim an object slot showing the item's front picture.
    pub fn new(gpu: &mut Gpu, poke: &crate::data::Pokemon, _slot: u8) -> (r: PokemonSpritePic)
        requires
            old(gpu).wf(),
            old(gpu).sprites.live() < SPRITE_CAP,
        ensures
            final(gpu).wf(),
            same_but_sprite_table(*old(gpu), *final(gpu)),
            r.id() < SPRITE_CAP,
            !old(gpu).sprites.slots()[r.id() as int],
            final(gpu).sprites.slots() =~= old(gpu).sprites.slots().update(r.id() as int, true),
            final(gpu).sprites.live() == old(gpu).sprites.live() + 1,
            final(gpu).sprite_states@ == old(gpu).sprite_states@.update(
                r.id() as int,
                SpriteState::reset(),
            ),
    {
        proof {
            crate::pool::lemma_live_claims_bounded(old(gpu).sprites.slots());
        }
        let slot = match gpu.sprites.claim() {
            Some(i) => i,
            None => {
                proof {
                    assert(false);
                }
                vstd::pervasive::unreached()
            },
        };
        let cell = &mut gpu.sprite_states[slot];
        *cell = SpriteState::new_reset();
        PokemonSpritePic { handle: SpriteHandle { slot } }
    }

    /// The claimed slot's handle.
    pub fn handle(&self) -> (r: SpriteHandle)
        ensures
            r.id() == self.id(),
    {
        SpriteHandle { slot: self.handle.slot }
    }

    /// Release the object slot and the picture's device memory.
    pub fn release(self, gpu: &mut Gpu)
        requires
            old(gpu).wf(),
            self.id() < SPRITE_CAP,
            old(gpu).sprites.slots()[self.id() as int],
        ensures
            final(gpu).wf(),
            same_but_sprite_table(*old(gpu), *final(gpu)),
            final(gpu).sprite_states == old(gpu).sprite_states,
            final(gpu).sprites.slots() =~= old(gpu).sprites.slots().update(self.id() as int, false),
            final(gpu).sprites.live() == old(gpu).sprites.live() - 1,
    {
        gpu.sprites.release(self.handle.slot);
    }
}

/// The pixel width of one glyph in the fixed-width fonts the screen uses.
pub const GLYPH_WIDTH: usize = 6;

/// A text style: the font id and the draw colors and spacing.
#[derive(Clone, Copy, PartialEq, Eq, Structural, Debug)]
pub struct Font {
    pub font: u8,
    pub fg_color: u8,
    pub bg_color: u8,
    pub shadow_color: u8,
    pub letter_spacing: u8,
    pub line_spacing: u8,
}

impl Font {
    /// The font's default style.
    pub fn new(font_id: u8) -> (r: Font)
        ensures
            r.font == font_id,
            r.fg_color == 1 && r.bg_color == 0 && r.shadow_color == 2,
            r.letter_spacing == 0 && r.line_spacing == 0,
    {
        Font {
            font: font_id,
            fg_color: 1,
            bg_color: 0,
            shadow_color: 2,
            letter_spacing: 0,
            line_spacing: 0,
        }
    }

    /// The pixel width `text` renders at in this font.
    pub fn width_for(&self, text: &Pkstr) -> (r: usize)
        requires
            text@.len() * GLYPH_WIDTH <= usize::MAX,
        ensures
            r == text@.len() * GLYPH_WIDTH,
    {
        text.len() * GLYPH_WIDTH
    }
}

/// A handle on a claimed text window slot.
#[derive(Clone, Copy, PartialEq, Eq, Structural, Debug)]
pub struct WindowHandle {
    slot: usize,
}

impl WindowHandle {
    pub closed spec fn id(&self) -> nat {
        self.slot as nat
    }

    pub fn index(&self) -> (r: usize)
        ensures
            r == self.id(),
    {
        self.slot
    }

    /// Fill the whole pixel buffer with one color, discarding every staged
    /// fill, text and blit.
    pub fn fill(&self, gpu: &mut Gpu, color: u8)
        requires
            old(gpu).wf(),
            self.id() < WINDOW_CAP,
            old(gpu).windows.slots()[self.id() as int],
        ensures
            final(gpu).wf(),
            same_but_window_states(*old(gpu), *final(gpu)),
            final(gpu).window_states@ == old(gpu).window_states@.update(
                self.id() as int,
                final(gpu).window_states@[self.id() as int],
            ),
            ({
                let w0 = old(gpu).window_states@[self.id() as int];
                let w1 = final(gpu).window_states@[self.id() as int];
                &&& w1.fill == color
                &&& w1.rect_fills@ == Seq::<WinFill>::empty()
                &&& w1.texts@ == Seq::<WinText>::empty()
                &&& w1.blits@ == Seq::<Rect>::empty()
                &&& w1.palette == w0.palette
                &&& w1.tilemap_put == w0.tilemap_put
                &&& w1.pending_copy == w0.pending_copy
                &&& w1.border == w0.border
            }),
    {
        let w = &mut gpu.window_states[self.slot];
        w.fill = color;
        w.rect_fills = Vec::new();
        w.texts = Vec::new();
        w.blits = Vec::new();
    }

    /// Stage a rectangle fill inside the pixel buffer.
    pub fn fill_rect(&self, gpu: &mut Gpu, color: u8, rect: Rect)
        requires
            old(gpu).wf(),
            self.id() < WINDOW_CAP,
            old(gpu).windows.slots()[self.id() as int],
        ensures
            final(gpu).wf(),
            same_but_window_states(*old(gpu), *final(gpu)),
            final(gpu).window_states@ == old(gpu).window_states@.update(
                self.id() as int,
                final(gpu).window_states@[self.id() as int],
            ),
            ({
                let w0 = old(gpu).window_states@[self.id() as int];
                let w1 = final(gpu).window_states@[self.id() as int];
                &&& w1.rect_fills@ == w0.rect_fills@.push((WinFill { color, rect }))
                &&& w1.fill == w0.fill
                &&& w1.texts@ == w0.texts@
                &&& w1.blits@ == w0.blits@
                &&& w1.palette == w0.palette
                &&& w1.tilemap_put == w0.tilemap_put
                &&& w1.pending_copy == w0.pending_copy
                &&& w1.border == w0.border
            }),
    {
        let w = &mut gpu.window_states[self.slot];
        w.rect_fills.push(WinFill { color, rect });
    }

    /// Draw a border frame around the window from the given frame tiles.
    pub fn draw_border(&self, gpu: &mut Gpu, _tileset: TilesetHandle)
        requires
            old(gpu).wf(),
            self.id() < WINDOW_CAP,
            old(gpu).windows.slots()[self.id() as int],
        ensures
            final(gpu).wf(),
            same_but_window_states(*old(gpu), *final(gpu)),
            final(gpu).window_states@ == old(gpu).window_states@.update(
                self.id() as int,
                (WindowState {
                    border: true,
                    ..old(gpu).window_states@[self.id() as int]
                }),
            ),
    {
        let w = &mut gpu.window_states[self.slot];
        w.border = true;
    }

    /// Stage the palette bank the window draws with.
    pub fn set_palette(&self, gpu: &mut Gpu, palette: BgPalette)
        requires
            old(gpu).wf(),
            self.id() < WINDOW_CAP,
            old(gpu).windows.slots()[self.id() as int],
        ensures
            final(gpu).wf(),
            same_but_window_states(*old(gpu), *final(gpu)),
            final(gpu).window_states@ == old(gpu).window_states@.update(
                self.id() as int,
                (WindowState {
                    palette: palette.id() as u8,
                    ..old(gpu).window_states@[self.id() as int]
                }),
            ),
    {
        let pal = palette.index();
        let w = &mut gpu.window_states[self.slot];
        w.palette = pal;
    }

    /// Take the window's tilemap out of the background.
    pub fn clear(&self, gpu: &mut Gpu)
        requires
            old(gpu).wf(),
            self.id() < WINDOW_CAP,
            old(gpu).windows.slots()[self.id() as int],
        ensures
            final(gpu).wf(),
            same_but_window_states(*old(gpu), *final(gpu)),
            final(gpu).window_states@ == old(gpu).window_states@.update(
                self.id() as int,
                (WindowState {
                    tilemap_put: false,
                    ..old(gpu).window_states@[self.id() as int]
                }),
            ),
    {
        let w = &mut gpu.window_states[self.slot];
        w.tilemap_put = false;
    }

    /// Clear the window and its border frame: everything staged is
    /// discarded and the window leaves the background.
    pub fn clear_with_border(&self, gpu: &mut Gpu)
        requires
            old(gpu).wf(),
            self.id() < WINDOW_CAP,
            old(gpu).windows.slots()[self.id() as int],
        ensures
            final(gpu).wf(),
            same_but_window_states(*old(gpu), *final(gpu)),
            final(gpu).window_states@ == old(gpu).window_states@.update(
                self.id() as int,
                final(gpu).window_states@[self.id() as int],
            ),
            ({
                let w0 = old(gpu).window_states@[self.id() as int];
                let w1 = final(gpu).window_states@[self.id() as int];
                &&& w1.fill == 0
                &&& w1.rect_fills@ == Seq::<WinFill>::empty()
                &&& w1.texts@ == Seq::<WinText>::empty()
                &&& w1.blits@ == Seq::<Rect>::empty()
                &&& w1.border == false
                &&& w1.tilemap_put == false
                &&& w1.palette == w0.palette
                &&& w1.pending_copy == w0.pending_copy
            }),
    {
        let w = &mut gpu.window_states[self.slot];
        w.fill = 0;
        w.rect_fills = Vec::new();
        w.texts = Vec::new();
        w.blits = Vec::new();
        w.border = false;
        w.tilemap_put = false;
    }

    /// Enter the window's tilemap into the background.
    pub fn put_tilemap(&self, gpu: &mut Gpu)
        requires
            old(gpu).wf(),
            self.id() < WINDOW_CAP,
            old(gpu).windows.slots()[self.id() as int],
        ensures
            final(gpu).wf(),
            same_but_window_states(*old(gpu), *final(gpu)),
            final(gpu).window_states@ == old(gpu).window_states@.update(
                self.id() as int,
                (WindowState {
                    tilemap_put: true,
                    ..old(gpu).window_states@[self.id() as int]
                }),
            ),
    {
        let w = &mut gpu.window_states[self.slot];
        w.tilemap_put = true;
    }

    /// Schedule a copy of the window's pixels to device memory.
    pub fn copy_to_vram(&self, gpu: &mut Gpu)
        requires
            old(gpu).wf(),
            self.id() < WINDOW_CAP,
            old(gpu).windows.slots()[self.id() as int],
        ensures
            final(gpu).wf(),
            same_but_window_states(*old(gpu), *final(gpu)),
            final(gpu).window_states@ == old(gpu).window_states@.update(
                self.id() as int,
                (WindowState {
                    pending_copy: true,
                    ..old(gpu).window_states@[self.id() as int]
                }),
            ),
    {
        let w = &mut gpu.window_states[self.slot];
        w.pending_copy = true;
    }

    /// Stage a text print at `pos` in the given style.
    pub fn print_text(&self, gpu: &mut Gpu, text: &Pkstr, pos: Vec2D, font: Font)
        requires
            old(gpu).wf(),
            self.id() < WINDOW_CAP,
            old(gpu).windows.slots()[self.id() as int],
        ensures
            final(gpu).wf(),
            same_but_window_states(*old(gpu), *final(gpu)),
            final(gpu).window_states@ == old(gpu).window_states@.update(
                self.id() as int,
                final(gpu).window_states@[self.id() as int],
            ),
            ({
                let w0 = old(gpu).window_states@[self.id() as int];
                let w1 = final(gpu).window_states@[self.id() as int];
                &&& w1.texts@.len() == w0.texts@.len() + 1
                &&& w1.texts@ == w0.texts@.push(w1.texts@.last())
                &&& w1.texts@.last().text@ == text@
                &&& w1.texts@.last().x == pos.x
                &&& w1.texts@.last().y == pos.y
                &&& w1.texts@.last().font == font.font
                &&& w1.fill == w0.fill
                &&& w1.rect_fills@ == w0.rect_fills@
                &&& w1.blits@ == w0.blits@
                &&& w1.palette == w0.palette
                &&& w1.tilemap_put == w0.tilemap_put
                &&& w1.pending_copy == w0.pending_copy
                &&& w1.border == w0.border
            }),
    {
        let bytes = text.to_bytes();
        let w = &mut gpu.window_states[self.slot];
        w.texts.push(WinText { text: bytes, x: pos.x, y: pos.y, font: font.font });
    }

    /// Stage a pixel blit covering `rect`.
    pub fn blit_bitmap(&self, gpu: &mut Gpu, _pixels: &AllocBuf, rect: Rect)
        requires
            old(gpu).wf(),
            self.id() < WINDOW_CAP,
            old(gpu).windows.slots()[self.id() as int],
        ensures
            final(gpu).wf(),
            same_but_window_states(*old(gpu), *final(gpu)),
            final(gpu).window_states@ == old(gpu).window_states@.update(
                self.id() as int,
                final(gpu).window_states@[self.id() as int],
            ),
            ({
                let w0 = old(gpu).window_states@[self.id() as int];
                let w1 = final(gpu).window_states@[self.id() as int];
                &&& w1.blits@ == w0.blits@.push(rect)
                &&& w1.fill == w0.fill
                &&& w1.rect_fills@ == w0.rect_fills@
                &&& w1.texts@ == w0.texts@
                &&& w1.palette == w0.palette
                &&& w1.tilemap_put == w0.tilemap_put
                &&& w1.pending_copy == w0.pending_copy
                &&& w1.border == w0.border
            }),
    {
        let w = &mut gpu.window_states[self.slot];
        w.blits.push(rect);
    }

    /// Whether every cell of the tile rectangle can be read: each map
    /// entry exists and names a whole tile inside the tile set.
    pub open spec fn blit_source_ok(tileset: &AllocBuf, tilemap: &AllocBuf, rect: Rect) -> bool {
        &&& rect.width >= 0
        &&& rect.height >= 0
        &&& rect.width * rect.height <= tilemap.bytes().len()
        &&& forall|k: int|
            0 <= k < rect.width * rect.height ==> (#[trigger] tilemap.bytes()[k] as int + 1) * 32
                <= tileset.bytes().len()
    }

    /// Compose the tiles the map names from the tile set and stage the
    /// result as a blit over the pixel rectangle of `rect`. Nothing is
    /// staged, and `false` comes back, when the map or set is too short
    /// for the rectangle: the asset is malformed.
    pub fn copy_tilemap(&self, gpu: &mut Gpu, tileset: &AllocBuf, tilemap: &AllocBuf, rect: Rect) -> (r: bool)
        requires
            old(gpu).wf(),
            self.id() < WINDOW_CAP,
            old(gpu).windows.slots()[self.id() as int],
            0 <= 8 * rect.x <= i32::MAX,
            0 <= 8 * rect.y <= i32::MAX,
            0 <= 8 * rect.width <= i32::MAX,
            0 <= 8 * rect.height <= i32::MAX,
        ensures
            r == WindowHandle::blit_source_ok(tileset, tilemap, rect),
            final(gpu).wf(),
            same_but_window_states(*old(gpu), *final(gpu)),
            final(gpu).window_states@ == old(gpu).window_states@.update(
                self.id() as int,
                final(gpu).window_states@[self.id() as int],
            ),
            ({
                let w0 = old(gpu).window_states@[self.id() as int];
                let w1 = final(gpu).window_states@[self.id() as int];
                &&& (r ==> w1.blits@ == w0.blits@.push(
                    (Rect {
                        x: (8 * rect.x) as i32,
                        y: (8 * rect.y) as i32,
                        width: (8 * rect.width) as i32,
                        height: (8 * rect.height) as i32,
                    }),
                ))
                &&& (!r ==> w1 == w0)
                &&& w1.fill == w0.fill
                &&& w1.rect_fills@ == w0.rect_fills@
                &&& w1.texts@ == w0.texts@
                &&& w1.palette == w0.palette
                &&& w1.tilemap_put == w0.tilemap_put
                &&& w1.pending_copy == w0.pending_copy
                &&& w1.border == w0.border
            }),
    {
        proof {
            assert(old(gpu).window_states@.update(
                self.id() as int,
                old(gpu).window_states@[self.id() as int],
            ) =~= old(gpu).window_states@);
        }
        if rect.width < 0 || rect.height < 0 {
            return false;
        }
        proof {
            assert((rect.width as u64) * (rect.height as u64) <= 0x7FFF_FFFFu64 * 0x7FFF_FFFFu64)
                by (nonlinear_arith)
                requires
                    0 <= rect.width <= 0x7FFF_FFFFi32,
                    0 <= rect.height <= 0x7FFF_FFFFi32,
            ;
        }
        let cells64 = (rect.width as u64) * (rect.height as u64);
        if cells64 > tilemap.size_bytes() as u64 {
            return false;
        }
        let cells = cells64 as usize;
        let mut k: usize = 0;
        while k < cells
            invariant
                k <= cells,
                cells == rect.width * rect.height,
                cells <= tilemap.bytes().len(),
                *gpu == *old(gpu),
                old(gpu).wf(),
                self.id() < WINDOW_CAP,
                forall|m: int|
                    0 <= m < k ==> (#[trigger] tilemap.bytes()[m] as int + 1) * 32
                        <= tileset.bytes().len(),
            decreases cells - k,
        {
            let tile = tilemap.byte_at(k);
            if (tile as usize) * 32 + 32 > tileset.size_bytes() {
                proof {
                    assert(old(gpu).window_states@.update(
                        self.id() as int,
                        old(gpu).window_states@[self.id() as int],
                    ) =~= old(gpu).window_states@);
                }
                return false;
            }
            k = k + 1;
        }
        let dst = rect.tile_to_pixel();
        let w = &mut gpu.window_states[self.slot];
        w.blits.push(dst);
        true
    }
}

/// A claimed text window; the claim is released only through `release`.
pub struct Window {
    handle: WindowHandle,
}

impl Window {
    pub closed spec fn id(&self) -> nat {
        self.handle.id()
    }

    /// Claim a window slot over `rect` on the given background, drawing
    /// with `palette`.
    pub fn create(gpu: &mut Gpu, _bg: BgHandle, _rect: Rect, palette: BgPalette, _base_block: u16) -> (r: Window)
        requires
            old(gpu).wf(),
            old(gpu).windows.live() < WINDOW_CAP,
        ensures
            final(gpu).wf(),
            same_but_window_table(*old(gpu), *final(gpu)),
            r.id() < WINDOW_CAP,
            !old(gpu).windows.slots()[r.id() as int],
            final(gpu).windows.slots() =~= old(gpu).windows.slots().update(r.id() as int, true),
            final(gpu).windows.live() == old(gpu).windows.live() + 1,
            final(gpu).window_states@ == old(gpu).window_states@.update(
                r.id() as int,
                final(gpu).window_states@[r.id() as int],
            ),
            ({
                let w1 = final(gpu).window_states@[r.id() as int];
                &&& w1.fill == 0
                &&& w1.palette == palette.id()
                &&& w1.rect_fills@ == Seq::<WinFill>::empty()
                &&& w1.texts@ == Seq::<WinText>::empty()
                &&& w1.blits@ == Seq::<Rect>::empty()
                &&& w1.tilemap_put == false
                &&& w1.pending_copy == false
                &&& w1.border == false
            }),
    {
        proof {
            crate::pool::lemma_live_claims_bounded(old(gpu).windows.slots());
        }
        let slot = match gpu.windows.claim() {
            Some(i) => i,
            None => {
                proof {
                    assert(false);
                }
                vstd::pervasive::unreached()
            },
        };
        let mut st = WindowState::new_reset();
        st.palette = palette.index();
        let cell = &mut gpu.window_states[slot];
        *cell = st;
        Window { handle: WindowHandle { slot } }
    }

    /// The claimed slot's handle.
    pub fn handle(&self) -> (r: WindowHandle)
        ensures
            r.id() == self.id(),
    {
        WindowHandle { slot: self.handle.slot }
    }

    /// Release the window slot back to its table.
    pub fn release(self, gpu: &mut Gpu)
        requires
            old(gpu).wf(),
            self.id() < WINDOW_CAP,
            old(gpu).windows.slots()[self.id() as int],
        ensures
            final(gpu).wf(),
            same_but_window_table(*old(gpu), *final(gpu)),
            final(gpu).window_states == old(gpu).window_states,
            final(gpu).windows.slots() =~= old(gpu).windows.slots().update(self.id() as int, false),
            final(gpu).windows.live() == old(gpu).windows.live() - 1,
    {
        gpu.windows.release(self.handle.slot);
    }
}

/// What one tick of list input produced.
#[derive(Clone, Copy, PartialEq, Eq, Structural, Debug)]
pub enum ListResult {
    /// No choice yet; the list stays up.
    Nothing,
    /// The entry with this id was confirmed.
    Chosen(i32),
    /// The list was cancelled.
    Cancel,
}

/// A selection list shown inside a window: a cursor over fixed entries,
/// polled once per tick until it yields a choice or a cancel.
pub struct ListMenu {
    items: Vec<i32>,
    cursor: usize,
}

impl ListMenu {
    pub closed spec fn spec_items(&self) -> Seq<i32> {
        self.items@
    }

    pub closed spec fn spec_cursor(&self) -> nat {
        self.cursor as nat
    }

    /// The list is over its entries with the cursor on one of them.
    pub open spec fn wf(&self) -> bool {
        &&& self.spec_items().len() >= 1
        &&& self.spec_cursor() < self.spec_items().len()
    }

    /// Show a list of the given entry ids in `window`.
    pub fn create(_window: &Window, items: Vec<i32>) -> (r: ListMenu)
        requires
            items@.len() >= 1,
        ensures
            r.wf(),
            r.spec_items() == items@,
            r.spec_cursor() == 0,
    {
        ListMenu { items, cursor: 0 }
    }

    /// Feed one tick of input: confirm yields the entry under the cursor,
    /// cancel yields `Cancel`, and the vertical keys move the cursor,
    /// stopping at the ends.
    pub fn process_input(&mut self, input: &InputFrame) -> (r: ListResult)
        requires
            old(self).wf(),
        ensures
            final(self).wf(),
            final(self).spec_items() == old(self).spec_items(),
            r == (if Button::A.spec_pressed(*input) {
                ListResult::Chosen(old(self).spec_items()[old(self).spec_cursor() as int])
            } else if Button::B.spec_pressed(*input) {
                ListResult::Cancel
            } else {
                ListResult::Nothing
            }),
            final(self).spec_cursor() == (if Button::A.spec_pressed(*input) || Button::B.spec_pressed(
                *input,
            ) {
                old(self).spec_cursor()
            } else if Button::Down.spec_pressed(*input) && old(self).spec_cursor() + 1 < old(
                self,
            ).spec_items().len() {
                old(self).spec_cursor() + 1
            } else if Button::Up.spec_pressed(*input) && !Button::Down.spec_pressed(*input) && old(
                self,
            ).spec_cursor() > 0 {
                (old(self).spec_cursor() - 1) as nat
            } else {
                old(self).spec_cursor()
            }),
    {
        if Button::A.pressed(input) {
            return ListResult::Chosen(self.items[self.cursor]);
        }
        if Button::B.pressed(input) {
            return ListResult::Cancel;
        }
        if Button::Down.pressed(input) {
            if self.cursor < self.items.len() - 1 {
                self.cursor = self.cursor + 1;
            }
        } else if Button::Up.pressed(input) {
            if self.cursor > 0 {
                self.cursor = self.cursor - 1;
            }
        }
        ListResult::Nothing
    }
}

} // verus!
