//! Mode 2: the OAM scan that picks the (at most 10) sprites of the line.
use vstd::prelude::*;
use super::gpu_memory::{
    GpuMemory, line_checked, VRAM_START, VRAM_END, OAM_START, OAM_END, UNUSED_START, UNUSED_END,
};
use super::picture_generation::PictureGeneration;
use super::ppu::{PpuState, MODE_PICTGEN};

verus! {

// mode 2
pub struct OamSearch {
    pub cycles_counter: usize,
}

pub const MAX_CYCLES: usize = 80;
pub const MAX_SPRITES: usize = 40;
pub const MAX_SCANLINE_SPRITES: usize = 10;
pub const OAM_LENGTH: usize = 160;

pub struct Sprite {
    pub ypos: u8,
    pub xpos: u8,
    pub tile_index: u8,  // 0x00 - 0xFF indexing from 0x8000 - 0x8FFF
    pub bgw_ontop: bool,
    pub flip_y: bool,
    pub flip_x: bool,
    pub palette_no: bool,
    pub height: u8,
}

/// The sprite described by the four OAM bytes at `oam[at..at + 4]`.
pub open spec fn sprite_of(oam: Seq<u8>, at: int, height: u8) -> Sprite {
    Sprite {
        ypos: oam[at],
        xpos: oam[at + 1],
        tile_index: oam[at + 2],
        bgw_ontop: (oam[at + 3] >> 7u8) & 0x01 == 0x01,
        flip_y: (oam[at + 3] >> 6u8) & 0x01 == 0x01,
        flip_x: (oam[at + 3] >> 5u8) & 0x01 == 0x01,
        palette_no: (oam[at + 3] >> 4u8) & 0x01 == 0x01,
        height,
    }
}

/// The attribute byte (the fourth OAM byte) of a sprite: bit 7 puts it
/// behind background colors 1 - 3, bit 6 flips it vertically, bit 5 flips
/// it horizontally, bit 4 selects OBP1.
pub proof fn law_sprite_attributes(oam: Seq<u8>, at: int, height: u8)
    requires
        0 <= at && at + 3 < oam.len(),
    ensures
        ({
            let b = oam[at + 3];
            let s = sprite_of(oam, at, height);
            &&& s.bgw_ontop == (b & 0x80 == 0x80)
            &&& s.flip_y == (b & 0x40 == 0x40)
            &&& s.flip_x == (b & 0x20 == 0x20)
            &&& s.palette_no == (b & 0x10 == 0x10)
            &&& s.ypos == oam[at] && s.xpos == oam[at + 1] && s.tile_index == oam[at + 2]
        }),
{
    let b = oam[at + 3];
    assert((((b >> 7u8) & 0x01) == 0x01) == (b & 0x80 == 0x80) && (((b >> 6u8) & 0x01) == 0x01)
        == (b & 0x40 == 0x40) && (((b >> 5u8) & 0x01) == 0x01) == (b & 0x20 == 0x20) && (((b
        >> 4u8) & 0x01) == 0x01) == (b & 0x10 == 0x10)) by (bit_vector);
}

impl Sprite {
    pub fn new(sprite_bytes: &[u8], sprite_height: u8) -> (s: Sprite)
        requires
            sprite_bytes@.len() >= 4,
        ensures
            s == sprite_of(sprite_bytes@, 0, sprite_height),
    {
        Sprite {
            ypos: sprite_bytes[0],
            xpos: sprite_bytes[1],
            tile_index: sprite_bytes[2],
            bgw_ontop: (sprite_bytes[3] >> 7) & 0x01 == 0x01,
            flip_y: (sprite_bytes[3] >> 6) & 0x01 == 0x01,
            flip_x: (sprite_bytes[3] >> 5) & 0x01 == 0x01,
            palette_no: (sprite_bytes[3] >> 4) & 0x01 == 0x01,
            height: sprite_height,  // Dont actually care about this
        }
    }
}

/// The place where a sprite at `x` goes in a list kept in drawing order:
/// after every sprite that does not lie to its right.
pub open spec fn insert_pos(list: Seq<Sprite>, x: u8) -> int
    decreases list.len(),
{
    if list.len() == 0 {
        0
    } else if list[0].xpos > x {
        0
    } else {
        1 + insert_pos(list.drop_first(), x)
    }
}

/// Line `ly` falls inside a sprite at `ypos` of height `height` (OAM y
/// positions are offset by 16).
pub open spec fn on_line(ly: u8, ypos: u8, height: u8) -> bool {
    ly + 16 >= ypos && ly + 16 < ypos + height
}

/// The list after OAM entry `e` is examined. During a DMA transfer OAM
/// reads as 0xFF, so no sprite is on any line.
pub open spec fn search_step(list: Seq<Sprite>, g: GpuMemory, e: int) -> Seq<Sprite> {
    let height: u8 = if (g.lcdc & 0x04) == 0x04 { 16 } else { 8 };
    let ypos = if g.dma_transfer { 0xFFu8 } else { g.oam@[e * 4] };
    let xpos = if g.dma_transfer { 0xFFu8 } else { g.oam@[e * 4 + 1] };
    if on_line(g.ly, ypos, height) {
        list.insert(insert_pos(list, xpos), sprite_of(g.oam@, e * 4, height))
    } else {
        list
    }
}

/// The list after `n` entries from entry `done` on are examined; the scan
/// stops at 10 sprites or at the end of OAM.
pub open spec fn searched(list: Seq<Sprite>, g: GpuMemory, done: int, n: nat) -> Seq<Sprite>
    decreases n,
{
    if n == 0 {
        list
    } else {
        let prev = searched(list, g, done, (n - 1) as nat);
        if prev.len() >= MAX_SCANLINE_SPRITES || (done + n - 1) * 4 >= OAM_LENGTH {
            prev
        } else {
            search_step(prev, g, done + n - 1)
        }
    }
}

/// A sprite list in drawing priority order: x positions never decrease.
pub open spec fn sorted_by_x(list: Seq<Sprite>) -> bool {
    forall|i: int, j: int| 0 <= i < j < list.len() ==> list[i].xpos <= list[j].xpos
}

/// `insert_pos` is a position of the list, every sprite before it lies at or
/// left of `x`, every sprite after it lies right of `x` when the list is
/// sorted.
pub proof fn lemma_insert_pos(list: Seq<Sprite>, x: u8)
    ensures
        0 <= insert_pos(list, x) <= list.len(),
        forall|i: int| 0 <= i < insert_pos(list, x) ==> list[i].xpos <= x,
        sorted_by_x(list) ==> forall|i: int|
            insert_pos(list, x) <= i < list.len() ==> list[i].xpos > x,
    decreases list.len(),
{
    if list.len() > 0 && list[0].xpos <= x {
        lemma_insert_pos(list.drop_first(), x);
        assert forall|i: int| 0 <= i < insert_pos(list, x) implies list[i].xpos <= x by {
            if i > 0 {
                assert(list[i] == list.drop_first()[i - 1]);
            }
        }
        if sorted_by_x(list) {
            assert(sorted_by_x(list.drop_first())) by {
                assert forall|i: int, j: int|
                    0 <= i < j < list.drop_first().len() implies list.drop_first()[i].xpos
                    <= list.drop_first()[j].xpos by {
                    assert(list.drop_first()[i] == list[i + 1]);
                    assert(list.drop_first()[j] == list[j + 1]);
                }
            }
            assert forall|i: int| insert_pos(list, x) <= i < list.len() implies list[i].xpos > x by {
                assert(list[i] == list.drop_first()[i - 1]);
            }
        }
    }
}

/// Inserting a sprite at its place keeps the list in drawing order.
pub proof fn lemma_insert_sorted(list: Seq<Sprite>, s: Sprite)
    requires
        sorted_by_x(list),
    ensures
        sorted_by_x(list.insert(insert_pos(list, s.xpos), s)),
{
    lemma_insert_pos(list, s.xpos);
    let p = insert_pos(list, s.xpos);
    let l2 = list.insert(p, s);
    assert forall|i: int, j: int| 0 <= i < j < l2.len() implies l2[i].xpos <= l2[j].xpos by {
        if j < p {
        } else if j == p {
        } else if i < p {
        } else if i == p {
        } else {
        }
    }
}

/// The OAM scan keeps the sprite list in drawing priority order and never
/// lets it grow past 10 sprites.
pub proof fn lemma_searched_sorted(list: Seq<Sprite>, g: GpuMemory, done: int, n: nat)
    requires
        sorted_by_x(list),
        list.len() <= MAX_SCANLINE_SPRITES,
        g.wf(),
        done >= 0,
    ensures
        sorted_by_x(searched(list, g, done, n)),
        searched(list, g, done, n).len() <= MAX_SCANLINE_SPRITES,
    decreases n,
{
    if n > 0 {
        lemma_searched_sorted(list, g, done, (n - 1) as nat);
        let prev = searched(list, g, done, (n - 1) as nat);
        if !(prev.len() >= MAX_SCANLINE_SPRITES || (done + n - 1) * 4 >= OAM_LENGTH) {
            let e = done + n - 1;
            let height: u8 = if (g.lcdc & 0x04) == 0x04 { 16 } else { 8 };
            let ypos = if g.dma_transfer { 0xFFu8 } else { g.oam@[e * 4] };
            let s = sprite_of(g.oam@, e * 4, height);
            if on_line(g.ly, ypos, height) && !g.dma_transfer {
                assert(s.xpos == g.oam@[e * 4 + 1]);
                lemma_insert_pos(prev, s.xpos);
                lemma_insert_sorted(prev, s);
                assert(search_step(prev, g, e) == prev.insert(insert_pos(prev, s.xpos), s));
                assert(sorted_by_x(search_step(prev, g, e)));
            } else {
                assert(search_step(prev, g, e) == prev);
            }
            assert(searched(list, g, done, n) == search_step(prev, g, e));
        }
    }
}

impl OamSearch {
    // Each scanline does an OAM scan during which time we need to determine
    // which sprites should be displayed. (Max of 10 per scan line).
    pub fn new() -> (s: PpuState)
        ensures
            s == PpuState::OamSearch(OamSearch { cycles_counter: 0 }),
    {
        PpuState::OamSearch(OamSearch { cycles_counter: 0 })
    }

    // oamsearch may return itself or picturegeneration
    fn next(self, gpu_mem: &mut GpuMemory) -> (s: PpuState)
        requires
            old(gpu_mem).wf(),
        ensures
            final(gpu_mem).wf(),
            self.cycles_counter < MAX_CYCLES ==> s == PpuState::OamSearch(self) && *final(gpu_mem)
                == *old(gpu_mem),
            self.cycles_counter >= MAX_CYCLES ==> s.is_fresh_pictgen() && final(gpu_mem).bg_pixel_fifo@.len() == 0 && *final(gpu_mem) == (GpuMemory {
                bg_pixel_fifo: final(gpu_mem).bg_pixel_fifo,
                ..line_checked(
                    (GpuMemory {
                        vblank_int: false,
                        stat: (old(gpu_mem).stat & 0xFC) | MODE_PICTGEN,
                        ..*old(gpu_mem)
                    }),
                )
            }),
    {
        if self.cycles_counter < MAX_CYCLES {
            PpuState::OamSearch(self)
        } else {
            gpu_mem.set_stat_mode(MODE_PICTGEN);
            // https://gbdev.io/pandocs/pixel_fifo.html#mode-3-operation
            gpu_mem.bg_pixel_fifo.clear();
            PpuState::PictureGeneration(PictureGeneration::new())
        }
    }

    /// Scans one OAM entry per two cycles, then moves to mode 3 after 80
    /// cycles.
    pub fn render(self, gpu_mem: &mut GpuMemory, cycles: usize) -> (s: PpuState)
        requires
            old(gpu_mem).wf(),
            self.cycles_counter < MAX_CYCLES,
            cycles <= usize::MAX - MAX_CYCLES,
        ensures
            final(gpu_mem).vram == old(gpu_mem).vram && final(gpu_mem).oam == old(gpu_mem).oam,
            final(gpu_mem).wf(),
            final(gpu_mem).pixels == old(gpu_mem).pixels,
            final(gpu_mem).ly == old(gpu_mem).ly,
            self.cycles_counter + cycles < MAX_CYCLES ==> s == PpuState::OamSearch(
                OamSearch { cycles_counter: (self.cycles_counter + cycles) as usize },
            ) && final(gpu_mem).sprite_list@ == searched(
                old(gpu_mem).sprite_list@,
                *old(gpu_mem),
                (self.cycles_counter / 2) as int,
                (cycles / 2) as nat,
            ),
            self.cycles_counter + cycles >= MAX_CYCLES ==> s.is_fresh_pictgen() && final(gpu_mem).bg_pixel_fifo@.len() == 0,
            final(gpu_mem).sprite_list@ == searched(
                old(gpu_mem).sprite_list@,
                *old(gpu_mem),
                (self.cycles_counter / 2) as int,
                (cycles / 2) as nat,
            ),
    {
        let mut this = self;
        let entries_todo = cycles / 2;
        let entries_done = this.cycles_counter / 2;

        this.find_sprites(gpu_mem, entries_todo, entries_done);

        this.cycles_counter = this.cycles_counter + cycles;
        this.next(gpu_mem)
    }

    pub fn read_byte(&self, gpu_mem: &GpuMemory, addr: u16) -> (b: u8)
        requires
            gpu_mem.wf(),
            VRAM_START <= addr <= VRAM_END || OAM_START <= addr <= UNUSED_END,
        ensures
            VRAM_START <= addr <= VRAM_END ==> b == gpu_mem.vram@[addr - VRAM_START],
            OAM_START <= addr <= UNUSED_END ==> b == 0xFF,
    {
        if addr >= VRAM_START && addr <= VRAM_END {
            gpu_mem.vram[(addr - VRAM_START) as usize]
        } else {
            0xFF
        }
    }

    /// The CPU may write VRAM but not OAM during the scan.
    pub fn write_byte(&mut self, gpu_mem: &mut GpuMemory, addr: u16, data: u8)
        requires
            old(gpu_mem).wf(),
            VRAM_START <= addr <= VRAM_END || OAM_START <= addr <= UNUSED_END,
        ensures
            final(gpu_mem).wf(),
            *final(self) == *old(self),
            VRAM_START <= addr <= VRAM_END ==> *final(gpu_mem) == (GpuMemory {
                vram: final(gpu_mem).vram,
                ..*old(gpu_mem)
            }) && final(gpu_mem).vram@ == old(gpu_mem).vram@.update(addr - VRAM_START, data),
            OAM_START <= addr <= UNUSED_END ==> *final(gpu_mem) == *old(gpu_mem),
    {
        if addr >= VRAM_START && addr <= VRAM_END {
            gpu_mem.vram.set((addr - VRAM_START) as usize, data);
        }
    }

    /*
        A sprite is added to the buffer when its y range covers the line and
        fewer than 10 sprites are stored; the list is kept ordered by x.
    */
    pub fn find_sprites(&mut self, gpu_mem: &mut GpuMemory, entries_todo: usize, entries_done: usize)
        requires
            old(gpu_mem).wf(),
        ensures
            final(gpu_mem).wf(),
            *final(self) == *old(self),
            *final(gpu_mem) == (GpuMemory { sprite_list: final(gpu_mem).sprite_list, ..*old(gpu_mem) }),
            final(gpu_mem).sprite_list@ == searched(
                old(gpu_mem).sprite_list@,
                *old(gpu_mem),
                entries_done as int,
                entries_todo as nat,
            ),
    {
        let ghost g0 = *gpu_mem;
        let mut i: usize = 0;
        while i < entries_todo
            invariant_except_break
                gpu_mem.wf(),
                0 <= i <= entries_todo,
                i == 0 || entries_done + i <= OAM_LENGTH / 4,
                *gpu_mem == (GpuMemory { sprite_list: gpu_mem.sprite_list, ..g0 }),
                gpu_mem.sprite_list@ == searched(g0.sprite_list@, g0, entries_done as int, i as nat),
            ensures
                gpu_mem.wf(),
                *gpu_mem == (GpuMemory { sprite_list: gpu_mem.sprite_list, ..g0 }),
                gpu_mem.sprite_list@ == searched(
                    g0.sprite_list@,
                    g0,
                    entries_done as int,
                    entries_todo as nat,
                ),
            decreases entries_todo - i,
        {
            if gpu_mem.sprite_list.len() >= MAX_SCANLINE_SPRITES || entries_done >= OAM_LENGTH / 4
                || entries_done + i >= OAM_LENGTH / 4 {
                proof {
                    lemma_searched_stopped(g0.sprite_list@, g0, entries_done as int, i as nat, (
                    entries_todo - i) as nat);
                }
                break ;
            }
            let curr_entry = (entries_done + i) * 4;
            // DMA transfer overrides mode-2 access to OAM. (Reads to OAM return 0xFF)
            let (ypos, xpos) = if gpu_mem.dma_transfer {
                (0xFFu8, 0xFFu8)
            } else {
                (gpu_mem.oam[curr_entry], gpu_mem.oam[curr_entry + 1])
            };

            let sprite_height: u8 = if gpu_mem.is_big_sprite() { 16 } else { 8 };

            if ((gpu_mem.ly + 16) >= ypos) && ((gpu_mem.ly + 16) < ypos + sprite_height) {
                let mut idx: usize = 0;
                let mut j: usize = 0;
                let ghost list = gpu_mem.sprite_list@;
                proof {
                    assert(list.skip(0) =~= list);
                    lemma_insert_pos(list, xpos);
                }
                while j < gpu_mem.sprite_list.len()
                    invariant_except_break
                        gpu_mem.sprite_list@ == list,
                        0 <= j <= list.len(),
                        idx == j,
                        insert_pos(list, xpos) == j + insert_pos(list.skip(j as int), xpos),
                    ensures
                        gpu_mem.sprite_list@ == list,
                        idx == insert_pos(list, xpos),
                    decreases list.len() - j,
                {
                    // https://gbdev.io/pandocs/OAM.html#drawing-priority
                    assert(list.skip(j as int).drop_first() =~= list.skip(j + 1));
                    if gpu_mem.sprite_list[j].xpos > xpos {
                        break ;
                    }
                    idx = idx + 1;
                    j = j + 1;
                }
                let bytes: Vec<u8> = vec![
                    gpu_mem.oam[curr_entry],
                    gpu_mem.oam[curr_entry + 1],
                    gpu_mem.oam[curr_entry + 2],
                    gpu_mem.oam[curr_entry + 3],
                ];
                let sprite = Sprite::new(bytes.as_slice(), sprite_height);
                assert(sprite == sprite_of(g0.oam@, curr_entry as int, sprite_height));
                gpu_mem.sprite_list.insert(idx, sprite);
            }
            i = i + 1;
        }
    }
}

/// OAM entry `e` covers the current line, as the scan reads it.
pub open spec fn entry_on_line(g: GpuMemory, e: int) -> bool {
    let height: u8 = if (g.lcdc & 0x04) == 0x04 { 16 } else { 8 };
    let ypos = if g.dma_transfer { 0xFFu8 } else { g.oam@[e * 4] };
    on_line(g.ly, ypos, height)
}

/// Sprite `s` is the sprite of an entry among the `n` from `done` on that
/// covers the current line.
pub open spec fn from_line_entry(s: Sprite, g: GpuMemory, done: int, n: int) -> bool {
    exists|e: int|
        done <= e < done + n && #[trigger] entry_on_line(g, e) && s == sprite_of(
            g.oam@,
            e * 4,
            if (g.lcdc & 0x04) == 0x04 { 16u8 } else { 8u8 },
        )
}

/// The scan only gains sprites of entries that cover the line: every sprite
/// of the list after the scan was in it before or belongs to such an
/// entry.
pub proof fn lemma_searched_members(list: Seq<Sprite>, g: GpuMemory, done: int, n: nat)
    ensures
        forall|i: int|
            0 <= i < searched(list, g, done, n).len() ==> list.contains(
                #[trigger] searched(list, g, done, n)[i],
            ) || from_line_entry(searched(list, g, done, n)[i], g, done, n as int),
    decreases n,
{
    if n > 0 {
        let m = (n - 1) as nat;
        lemma_searched_members(list, g, done, m);
        let prev = searched(list, g, done, m);
        let r = searched(list, g, done, n);
        assert forall|i: int| 0 <= i < r.len() implies list.contains(#[trigger] r[i])
            || from_line_entry(r[i], g, done, n as int) by {
            let e = done + n - 1;
            if prev.len() >= MAX_SCANLINE_SPRITES || e * 4 >= OAM_LENGTH || !entry_on_line(g, e) {
                assert(r == prev);
                if !list.contains(prev[i]) {
                    let w = choose|w: int|
                        done <= w < done + m && #[trigger] entry_on_line(g, w) && prev[i]
                            == sprite_of(
                            g.oam@,
                            w * 4,
                            if (g.lcdc & 0x04) == 0x04 { 16u8 } else { 8u8 },
                        );
                    assert(entry_on_line(g, w));
                }
            } else {
                let height: u8 = if (g.lcdc & 0x04) == 0x04 { 16 } else { 8 };
                let xpos = if g.dma_transfer { 0xFFu8 } else { g.oam@[e * 4 + 1] };
                let p = insert_pos(prev, xpos);
                lemma_insert_pos(prev, xpos);
                let x = sprite_of(g.oam@, e * 4, height);
                assert(r == prev.insert(p, x));
                prev.insert_ensures(p, x);
                if i == p {
                    assert(entry_on_line(g, e));
                } else {
                    let j = if i < p { i } else { i - 1 };
                    assert(r[i] == prev[j]);
                    if !list.contains(prev[j]) {
                        let w = choose|w: int|
                            done <= w < done + m && #[trigger] entry_on_line(g, w) && prev[j]
                                == sprite_of(
                                g.oam@,
                                w * 4,
                                if (g.lcdc & 0x04) == 0x04 { 16u8 } else { 8u8 },
                            );
                        assert(entry_on_line(g, w));
                    }
                }
            }
        }
    }
}

/// The scan keeps every sprite the list held before it.
pub proof fn lemma_searched_keeps(list: Seq<Sprite>, g: GpuMemory, done: int, n: nat, s: Sprite)
    requires
        list.contains(s),
    ensures
        searched(list, g, done, n).contains(s),
    decreases n,
{
    if n > 0 {
        let m = (n - 1) as nat;
        lemma_searched_keeps(list, g, done, m, s);
        let prev = searched(list, g, done, m);
        let e = done + n - 1;
        if !(prev.len() >= MAX_SCANLINE_SPRITES || e * 4 >= OAM_LENGTH) && entry_on_line(g, e) {
            let height: u8 = if (g.lcdc & 0x04) == 0x04 { 16 } else { 8 };
            let xpos = if g.dma_transfer { 0xFFu8 } else { g.oam@[e * 4 + 1] };
            let p = insert_pos(prev, xpos);
            lemma_insert_pos(prev, xpos);
            let x = sprite_of(g.oam@, e * 4, height);
            prev.insert_ensures(p, x);
            let j = choose|j: int| 0 <= j < prev.len() && prev[j] == s;
            if j < p {
                assert(prev.insert(p, x)[j] == s);
            } else {
                assert(prev.insert(p, x)[j + 1] == s);
            }
        }
    }
}

/// The scan takes the sprite of every entry it reaches that covers the
/// line, as long as the list then holds fewer than 10 sprites.
pub proof fn lemma_searched_takes(list: Seq<Sprite>, g: GpuMemory, done: int, n: nat, e: int)
    requires
        done <= e < done + n,
        e * 4 < OAM_LENGTH,
        entry_on_line(g, e),
        searched(list, g, done, (e - done) as nat).len() < MAX_SCANLINE_SPRITES,
    ensures
        searched(list, g, done, n).contains(
            sprite_of(g.oam@, e * 4, if (g.lcdc & 0x04) == 0x04 { 16u8 } else { 8u8 }),
        ),
    decreases n,
{
    let height: u8 = if (g.lcdc & 0x04) == 0x04 { 16 } else { 8 };
    let x = sprite_of(g.oam@, e * 4, height);
    let m = (n - 1) as nat;
    if e == done + n - 1 {
        let prev = searched(list, g, done, m);
        assert(m == (e - done) as nat);
        let xpos = if g.dma_transfer { 0xFFu8 } else { g.oam@[e * 4 + 1] };
        let p = insert_pos(prev, xpos);
        lemma_insert_pos(prev, xpos);
        prev.insert_ensures(p, x);
        assert(searched(list, g, done, n) == prev.insert(p, x));
        assert(searched(list, g, done, n)[p] == x);
    } else {
        lemma_searched_takes(list, g, done, m, e);
        lemma_searched_keeps(searched(list, g, done, m), g, done + m, 1, x);
        lemma_searched_split(list, g, done, m);
    }
}

/// One more entry after `m` entries is one step from where those left the
/// list.
proof fn lemma_searched_split(list: Seq<Sprite>, g: GpuMemory, done: int, m: nat)
    ensures
        searched(list, g, done, m + 1) == searched(searched(list, g, done, m), g, done + m, 1),
{
    let prev = searched(list, g, done, m);
    assert(searched(prev, g, done + m, 0) == prev);
}

/// Once the scan has stopped, more entries change nothing.
proof fn lemma_searched_stopped(list: Seq<Sprite>, g: GpuMemory, done: int, i: nat, extra: nat)
    requires
        searched(list, g, done, i).len() >= MAX_SCANLINE_SPRITES || (done + i) * 4 >= OAM_LENGTH,
        done >= 0,
    ensures
        searched(list, g, done, i + extra) == searched(list, g, done, i),
    decreases extra,
{
    if extra > 0 {
        lemma_searched_stopped(list, g, done, i, (extra - 1) as nat);
    }
}

} // verus!
