//! The staged display state.
//!
//! The display is addressed through four fixed tables: sprite objects,
//! background layers, palette banks (one space for backgrounds, one for
//! objects) and text windows. Mutators only ever *stage* changes here and
//! *schedule* copies; a separate per-tick flush path ([`Gpu::tick`])
//! performs the scheduled copies and advances palette fades, so nothing in
//! the screen logic may assume a copy has happened by the time a mutator
//! returns.

use vstd::prelude::*;

use crate::geom::Rect;
use crate::pool::SlotTable;

verus! {

/// Sprite object slots in the hardware object table.
pub const SPRITE_CAP: usize = 64;

/// Background layers.
pub const BG_CAP: usize = 4;

/// Text windows the window manager can hold.
pub const WINDOW_CAP: usize = 32;

/// Palette banks per palette space.
pub const PALETTE_CAP: usize = 16;

/// The staged state of one sprite object slot.
#[derive(Clone, Copy, PartialEq, Eq, Structural, Debug)]
pub struct SpriteState {
    pub x: i32,
    pub y: i32,
    pub palette: u16,
    pub priority: u8,
    pub subpriority: u8,
    pub invisible: bool,
    pub anim: u8,
    pub copy_requested: bool,
}

impl SpriteState {
    /// The state a slot holds before anything is staged into it.
    pub open spec fn reset() -> SpriteState {
        SpriteState {
            x: 0,
            y: 0,
            palette: 0,
            priority: 0,
            subpriority: 0,
            invisible: false,
            anim: 0,
            copy_requested: false,
        }
    }

    pub fn new_reset() -> (s: SpriteState)
        ensures
            s == SpriteState::reset(),
    {
        SpriteState {
            x: 0,
            y: 0,
            palette: 0,
            priority: 0,
            subpriority: 0,
            invisible: false,
            anim: 0,
            copy_requested: false,
        }
    }
}

/// One staged copy of a rectangle of tiles into a background's tilemap.
#[derive(Clone, PartialEq, Eq, Debug)]
pub struct BgRectCopy {
    pub src: Rect,
    pub dst: Rect,
    /// A palette bank to retint the copied cells with, if any.
    pub palette: Option<u8>,
}

/// One staged fill of a tilemap rectangle with a single tile.
#[derive(Clone, PartialEq, Eq, Debug)]
pub struct BgFill {
    pub rect: Rect,
    pub tile: u16,
    pub palette: u8,
}

/// The staged state of one background layer.
#[derive(Clone, PartialEq, Eq, Debug)]
pub struct BgState {
    pub shown: bool,
    pub x: i32,
    pub y: i32,
    /// Whether a tilemap copy to device memory is scheduled for the next flush.
    pub copy_scheduled: bool,
    pub fills: Vec<BgFill>,
    pub rect_copies: Vec<BgRectCopy>,
}

impl BgState {
    pub fn new_reset() -> (s: BgState)
        ensures
            s.shown == false,
            s.x == 0 && s.y == 0,
            s.copy_scheduled == false,
            s.fills@ =~= Seq::<BgFill>::empty(),
            s.rect_copies@ =~= Seq::<BgRectCopy>::empty(),
    {
        BgState {
            shown: false,
            x: 0,
            y: 0,
            copy_scheduled: false,
            fills: Vec::new(),
            rect_copies: Vec::new(),
        }
    }
}

/// One staged rectangle fill inside a window's pixel buffer.
#[derive(Clone, Copy, PartialEq, Eq, Structural, Debug)]
pub struct WinFill {
    pub color: u8,
    pub rect: Rect,
}

/// One staged text print inside a window.
#[derive(Clone, PartialEq, Eq, Debug)]
pub struct WinText {
    pub text: Vec<u8>,
    pub x: i32,
    pub y: i32,
    pub font: u8,
}

/// The staged state of one text window slot.
#[derive(Clone, PartialEq, Eq, Debug)]
pub struct WindowState {
    /// The color the whole pixel buffer was last filled with.
    pub fill: u8,
    pub palette: u8,
    /// Rectangle fills staged since the last whole-buffer fill.
    pub rect_fills: Vec<WinFill>,
    /// Text prints staged since the last whole-buffer fill.
    pub texts: Vec<WinText>,
    /// Tile blits staged since the last whole-buffer fill.
    pub blits: Vec<Rect>,
    /// Whether the window's tilemap is entered in the background.
    pub tilemap_put: bool,
    /// Whether a copy to device memory is pending for the next flush.
    pub pending_copy: bool,
    /// Whether a border frame is drawn around the window.
    pub border: bool,
}

impl WindowState {
    pub fn new_reset() -> (s: WindowState)
        ensures
            s.fill == 0 && s.palette == 0,
            s.rect_fills@ =~= Seq::<WinFill>::empty(),
            s.texts@ =~= Seq::<WinText>::empty(),
            s.blits@ =~= Seq::<Rect>::empty(),
            s.tilemap_put == false && s.pending_copy == false && s.border == false,
    {
        WindowState {
            fill: 0,
            palette: 0,
            rect_fills: Vec::new(),
            texts: Vec::new(),
            blits: Vec::new(),
            tilemap_put: false,
            pending_copy: false,
            border: false,
        }
    }
}

/// The whole staged display: the four slot tables with the staged state of
/// each slot, and the palette fade the flush path is playing.
pub struct Gpu {
    pub sprites: SlotTable,
    pub sprite_states: Vec<SpriteState>,
    pub bgs: SlotTable,
    pub bg_states: Vec<BgState>,
    pub windows: SlotTable,
    pub window_states: Vec<WindowState>,
    pub bg_palettes: SlotTable,
    pub obj_palettes: SlotTable,
    /// Flush ticks left until the current palette fade is finished.
    pub fade_timer: u8,
    /// The palette banks the current fade applies to.
    pub fade_mask: u32,
}

impl Gpu {
    /// The tables have their hardware capacities and a staged state per slot.
    pub open spec fn wf(&self) -> bool {
        &&& self.sprites.capacity() == SPRITE_CAP
        &&& self.sprite_states@.len() == SPRITE_CAP
        &&& self.bgs.capacity() == BG_CAP
        &&& self.bg_states@.len() == BG_CAP
        &&& self.windows.capacity() == WINDOW_CAP
        &&& self.window_states@.len() == WINDOW_CAP
        &&& self.bg_palettes.capacity() == PALETTE_CAP
        &&& self.obj_palettes.capacity() == PALETTE_CAP
    }

    /// Whether a palette fade is still playing.
    pub open spec fn fade_active(&self) -> bool {
        self.fade_timer > 0
    }

    /// A display with every slot free and nothing staged.
    pub fn new() -> (g: Gpu)
        ensures
            g.wf(),
            g.sprites.live() == 0,
            g.bgs.live() == 0,
            g.windows.live() == 0,
            g.bg_palettes.live() == 0,
            g.obj_palettes.live() == 0,
            forall|i: int| 0 <= i < SPRITE_CAP ==> !g.sprites.slots()[i],
            forall|i: int| 0 <= i < BG_CAP ==> !g.bgs.slots()[i],
            forall|i: int| 0 <= i < WINDOW_CAP ==> !g.windows.slots()[i],
            forall|i: int| 0 <= i < PALETTE_CAP ==> !g.bg_palettes.slots()[i],
            forall|i: int| 0 <= i < PALETTE_CAP ==> !g.obj_palettes.slots()[i],
            !g.fade_active(),
    {
        let mut sprite_states: Vec<SpriteState> = Vec::new();
        let mut i: usize = 0;
        while i < SPRITE_CAP
            invariant
                sprite_states@.len() == i,
                i <= SPRITE_CAP,
            decreases SPRITE_CAP - i,
        {
            sprite_states.push(SpriteState::new_reset());
            i = i + 1;
        }
        let mut bg_states: Vec<BgState> = Vec::new();
        let mut j: usize = 0;
        while j < BG_CAP
            invariant
                bg_states@.len() == j,
                j <= BG_CAP,
            decreases BG_CAP - j,
        {
            bg_states.push(BgState::new_reset());
            j = j + 1;
        }
        let mut window_states: Vec<WindowState> = Vec::new();
        let mut k: usize = 0;
        while k < WINDOW_CAP
            invariant
                window_states@.len() == k,
                k <= WINDOW_CAP,
            decreases WINDOW_CAP - k,
        {
            window_states.push(WindowState::new_reset());
            k = k + 1;
        }
        Gpu {
            sprites: SlotTable::new(SPRITE_CAP),
            sprite_states,
            bgs: SlotTable::new(BG_CAP),
            bg_states,
            windows: SlotTable::new(WINDOW_CAP),
            window_states,
            bg_palettes: SlotTable::new(PALETTE_CAP),
            obj_palettes: SlotTable::new(PALETTE_CAP),
            fade_timer: 0,
            fade_mask: 0,
        }
    }

    /// Start a palette fade over the banks in `mask`, running from level
    /// `start` to level `target`; the flush path plays one level per tick.
    pub fn begin_fade(&mut self, mask: u32, start: u8, target: u8)
        ensures
            final(self).fade_timer == if start <= target {
                (target - start) as u8
            } else {
                (start - target) as u8
            },
            final(self).fade_mask == mask,
            final(self).sprites == old(self).sprites,
            final(self).sprite_states == old(self).sprite_states,
            final(self).bgs == old(self).bgs,
            final(self).bg_states == old(self).bg_states,
            final(self).windows == old(self).windows,
            final(self).window_states == old(self).window_states,
            final(self).bg_palettes == old(self).bg_palettes,
            final(self).obj_palettes == old(self).obj_palettes,
    {
        self.fade_mask = mask;
        self.fade_timer = if start <= target {
            target - start
        } else {
            start - target
        };
    }

    /// Whether the current palette fade is still playing, as the flush
    /// path reports it.
    pub fn fade_is_active(&self) -> (r: bool)
        ensures
            r == self.fade_active(),
    {
        self.fade_timer > 0
    }

    /// One pass of the external per-tick flush path: it performs every
    /// scheduled copy and plays one step of the palette fade. The claim
    /// tables and all staged values are untouched; only the schedule
    /// flags fall and the fade advances.
    pub fn tick(&mut self)
        requires
            old(self).wf(),
        ensures
            final(self).wf(),
            final(self).fade_timer == if old(self).fade_timer > 0 {
                (old(self).fade_timer - 1) as u8
            } else {
                0u8
            },
            final(self).fade_mask == old(self).fade_mask,
            final(self).sprites == old(self).sprites,
            final(self).bgs == old(self).bgs,
            final(self).windows == old(self).windows,
            final(self).bg_palettes == old(self).bg_palettes,
            final(self).obj_palettes == old(self).obj_palettes,
            final(self).sprite_states@.len() == SPRITE_CAP,
            forall|i: int|
                0 <= i < SPRITE_CAP ==> final(self).sprite_states@[i] == (SpriteState {
                    copy_requested: false,
                    ..old(self).sprite_states@[i]
                }),
            final(self).bg_states@.len() == BG_CAP,
            forall|i: int|
                0 <= i < BG_CAP ==> final(self).bg_states@[i] == (BgState {
                    copy_scheduled: false,
                    ..old(self).bg_states@[i]
                }),
            final(self).window_states@.len() == WINDOW_CAP,
            forall|i: int|
                0 <= i < WINDOW_CAP ==> final(self).window_states@[i] == (WindowState {
                    pending_copy: false,
                    ..old(self).window_states@[i]
                }),
    {
        if self.fade_timer > 0 {
            self.fade_timer = self.fade_timer - 1;
        }
        let mut i: usize = 0;
        while i < SPRITE_CAP
            invariant
                old(self).wf(),
                i <= SPRITE_CAP,
                self.sprite_states@.len() == SPRITE_CAP,
                forall|m: int|
                    0 <= m < i ==> self.sprite_states@[m] == (SpriteState {
                        copy_requested: false,
                        ..old(self).sprite_states@[m]
                    }),
                forall|m: int|
                    i <= m < SPRITE_CAP ==> self.sprite_states@[m] == old(self).sprite_states@[m],
                self.sprites == old(self).sprites,
                self.bgs == old(self).bgs,
                self.bg_states == old(self).bg_states,
                self.windows == old(self).windows,
                self.window_states == old(self).window_states,
                self.bg_palettes == old(self).bg_palettes,
                self.obj_palettes == old(self).obj_palettes,
                self.fade_timer == if old(self).fade_timer > 0 {
                    (old(self).fade_timer - 1) as u8
                } else {
                    0u8
                },
                self.fade_mask == old(self).fade_mask,
            decreases SPRITE_CAP - i,
        {
            let s = &mut self.sprite_states[i];
            s.copy_requested = false;
            i = i + 1;
        }
        let mut j: usize = 0;
        while j < BG_CAP
            invariant
                old(self).wf(),
                j <= BG_CAP,
                self.bg_states@.len() == BG_CAP,
                forall|m: int|
                    0 <= m < j ==> self.bg_states@[m] == (BgState {
                        copy_scheduled: false,
                        ..old(self).bg_states@[m]
                    }),
                forall|m: int| j <= m < BG_CAP ==> self.bg_states@[m] == old(self).bg_states@[m],
                self.sprites == old(self).sprites,
                self.sprite_states@.len() == SPRITE_CAP,
                forall|m: int|
                    0 <= m < SPRITE_CAP ==> self.sprite_states@[m] == (SpriteState {
                        copy_requested: false,
                        ..old(self).sprite_states@[m]
                    }),
                self.bgs == old(self).bgs,
                self.windows == old(self).windows,
                self.window_states == old(self).window_states,
                self.bg_palettes == old(self).bg_palettes,
                self.obj_palettes == old(self).obj_palettes,
                self.fade_timer == if old(self).fade_timer > 0 {
                    (old(self).fade_timer - 1) as u8
                } else {
                    0u8
                },
                self.fade_mask == old(self).fade_mask,
            decreases BG_CAP - j,
        {
            let s = &mut self.bg_states[j];
            s.copy_scheduled = false;
            j = j + 1;
        }
        let mut k: usize = 0;
        while k < WINDOW_CAP
            invariant
                old(self).wf(),
                k <= WINDOW_CAP,
                self.window_states@.len() == WINDOW_CAP,
                forall|m: int|
                    0 <= m < k ==> self.window_states@[m] == (WindowState {
                        pending_copy: false,
                        ..old(self).window_states@[m]
                    }),
                forall|m: int|
                    k <= m < WINDOW_CAP ==> self.window_states@[m] == old(self).window_states@[m],
                self.sprites == old(self).sprites,
                self.sprite_states@.len() == SPRITE_CAP,
                forall|m: int|
                    0 <= m < SPRITE_CAP ==> self.sprite_states@[m] == (SpriteState {
                        copy_requested: false,
                        ..old(self).sprite_states@[m]
                    }),
                self.bgs == old(self).bgs,
                self.bg_states@.len() == BG_CAP,
                forall|m: int|
                    0 <= m < BG_CAP ==> self.bg_states@[m] == (BgState {
                        copy_scheduled: false,
                        ..old(self).bg_states@[m]
                    }),
                self.windows == old(self).windows,
                self.bg_palettes == old(self).bg_palettes,
                self.obj_palettes == old(self).obj_palettes,
                self.fade_timer == if old(self).fade_timer > 0 {
                    (old(self).fade_timer - 1) as u8
                } else {
                    0u8
                },
                self.fade_mask == old(self).fade_mask,
            decreases WINDOW_CAP - k,
        {
            let s = &mut self.window_states[k];
            s.pending_copy = false;
            k = k + 1;
        }
    }
}

/// Everything in the display but the sprite state vector is the same.
pub open spec fn same_but_sprite_states(a: Gpu, b: Gpu) -> bool {
    b == (Gpu { sprite_states: b.sprite_states, ..a })
}

/// Everything in the display but the background state vector is the same.
pub open spec fn same_but_bg_states(a: Gpu, b: Gpu) -> bool {
    b == (Gpu { bg_states: b.bg_states, ..a })
}

/// Everything in the display but the window state vector is the same.
pub open spec fn same_but_window_states(a: Gpu, b: Gpu) -> bool {
    b == (Gpu { window_states: b.window_states, ..a })
}

/// Everything but the sprite table and the sprite states is the same.
pub open spec fn same_but_sprite_table(a: Gpu, b: Gpu) -> bool {
    b == (Gpu { sprites: b.sprites, sprite_states: b.sprite_states, ..a })
}

/// Everything but the background table and the background states is the same.
pub open spec fn same_but_bg_table(a: Gpu, b: Gpu) -> bool {
    b == (Gpu { bgs: b.bgs, bg_states: b.bg_states, ..a })
}

/// Everything but the window table and the window states is the same.
pub open spec fn same_but_window_table(a: Gpu, b: Gpu) -> bool {
    b == (Gpu { windows: b.windows, window_states: b.window_states, ..a })
}

/// Everything but the background palette table is the same.
pub open spec fn same_but_bg_palettes(a: Gpu, b: Gpu) -> bool {
    b == (Gpu { bg_palettes: b.bg_palettes, ..a })
}

/// Everything but the object palette table is the same.
pub open spec fn same_but_obj_palettes(a: Gpu, b: Gpu) -> bool {
    b == (Gpu { obj_palettes: b.obj_palettes, ..a })
}

} // verus!
