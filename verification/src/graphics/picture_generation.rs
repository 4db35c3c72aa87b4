/*
    Mode 3: the pixel fetcher fetches a row of 8 background or window pixels
    and queues them; the FIFO hands one pixel per dot to the LCD once it
    holds more than 8. Sprite pixels are mixed in while the row is queued.
        1. Get Tile (2 Cycles)
        2. Get Tile Data Low (2 Cycles)
        3. Get Tile Data High (2 Cycles)
        4. Sleep (2 Cycles)
        5. Push (1 Cycle each time until complete)
*/
use vstd::prelude::*;
use super::gpu_memory::{
    GpuMemory, Color, VRAM_START, VRAM_END, OAM_START, UNUSED_END, BYTES_PER_ROW,
    BYTES_PER_PIXEL, NUM_PIXELS_X,
};
use super::hblank::{HBlank, mode_entered};
use super::oam_search::{MAX_CYCLES, Sprite};
use super::ppu::{PpuState, MODE_HBLANK};

verus! {

pub const SCANLINE_CYCLES: usize = 456;
pub const FIFO_MAX_PIXELS: usize = 16;
pub const FIFO_MIN_PIXELS: usize = 8;
pub const BYTES_PER_TILE: u16 = 16;

/// The step of the pixel fetcher. `Stopped` only stands in while a step is
/// replaced and is never run.
#[derive(PartialEq, Eq, Structural)]
pub enum FifoState {
    GetTile,
    GetTileDataLow,
    GetTileDataHigh,
    Sleep,
    Push,
    Stopped,
}

// mode 3
pub struct PictureGeneration {
    pub cycles_counter: usize,
    pub fifo_state: FifoState,
    pub fetch_x: usize,  // x tile position in map
    pub byte_index: u8,  // Index with the tile we want
    pub bgw_lo: u8,
    pub bgw_hi: u8,
    pub scanline_pos: u8,  // Where in the scanline we are
    pub push_x: u8,  // What pixel is to be pushed to the screen
    pub discard_pixels: u8,  // Number of pixels discarded at the beginning
    pub spr_indicies: Vec<usize>,
    pub spr_data_lo: Vec<u8>,
    pub spr_data_hi: Vec<u8>,
}

/// The address of the tile data of tile `tile_index` under the addressing
/// mode of LCDC bit 4: unsigned from 0x8000, or signed from 0x9000.
pub open spec fn tile_addr(tile_index: u8, lcdc: u8) -> u16 {
    if (lcdc & 0x10) == 0x10 {
        (0x8000 + tile_index * 16) as u16
    } else {
        (0x9000 + (if tile_index >= 128 { tile_index - 256 } else { tile_index as int }) * 16) as u16
    }
}

/// Where the data of tile `t` lies: with LCDC bit 4 set, tiles 0 - 255
/// follow each other from 0x8000; with it clear, the tile number is signed,
/// so tiles 0 - 127 lie from 0x9000 and tiles 128 - 255 from 0x8800; each
/// tile takes 16 bytes.
pub proof fn law_tile_data_address(t: u8, lcdc: u8)
    ensures
        lcdc & 0x10 == 0x10 ==> tile_addr(t, lcdc) == 0x8000 + 16 * t,
        lcdc & 0x10 != 0x10 && t < 128 ==> tile_addr(t, lcdc) == 0x9000 + 16 * t,
        lcdc & 0x10 != 0x10 && t >= 128 ==> tile_addr(t, lcdc) == 0x8800 + 16 * (t - 128),
        0x8000 <= tile_addr(t, lcdc) <= 0x97F0,
{
}

/// The color number (0 - 3) of pixel `k` (0 is leftmost) of a tile row
/// given by its low and high bit planes.
pub open spec fn pixel_of(lo: u8, hi: u8, k: int) -> u8 {
    let p1 = (hi >> ((7 - k) as u8)) & 0x01;
    let p0 = (lo >> ((7 - k) as u8)) & 0x01;
    ((p1 << 1u8) | p0) as u8
}

/// The background map entry the fetcher reads for column `fetch_x`.
pub open spec fn bg_map_index(g: GpuMemory, fetch_x: usize) -> int {
    let map_start = if (g.lcdc & 0x08) == 0x08 { 0x1C00int } else { 0x1800int };
    map_start + (fetch_x + g.scx / 8) % 32 + 32 * (((g.ly + g.scy) % 256) / 8)
}

/// The color of the first sprite pixel, from the `i`-th fetched sprite on,
/// that shows at the current scanline position over background color
/// number `bg_col`: opaque, inside the sprite, and not behind a non-zero
/// background color.
pub open spec fn sprite_color(pg: PictureGeneration, g: GpuMemory, bg_col: usize, i: int) -> Option<
    Color,
>
    decreases pg.spr_indicies@.len() - i,
{
    if i < 0 || i >= pg.spr_indicies@.len() {
        None
    } else {
        let orig = pg.spr_indicies@[i];
        let rest = sprite_color(pg, g, bg_col, i + 1);
        if orig < g.sprite_list@.len() && i < pg.spr_data_hi@.len() && i < pg.spr_data_lo@.len() {
            let spr = g.sprite_list@[orig as int];
            let scr_xpos = spr.xpos - 8 + g.scx % 8;
            let pos = pg.scanline_pos as int;
            let offset = pos - scr_xpos;
            if !(scr_xpos + 8 < pos) && 0 <= offset <= 7 {
                let k = if spr.flip_x { 7 - offset } else { offset };
                let bit_col = pixel_of(pg.spr_data_lo@[i], pg.spr_data_hi@[i], k);
                if bit_col != 0 && (!spr.bgw_ontop || bg_col == 0) {
                    Some(if spr.palette_no {
                        g.obp1_colors[bit_col as int]
                    } else {
                        g.obp0_colors[bit_col as int]
                    })
                } else {
                    rest
                }
            } else {
                rest
            }
        } else {
            rest
        }
    }
}

/// The color the fetcher pushes for pixel `k` of its current tile row:
/// the background color of the row's color number (0 while BG/window is
/// off), or, while sprites are on, the sprite pixel that shows there.
pub open spec fn fetched_color(pg: PictureGeneration, g: GpuMemory, k: int) -> Color {
    let bg = if (g.lcdc & 0x01) == 0x01 {
        pixel_of(pg.bgw_lo, pg.bgw_hi, k) as usize
    } else {
        0usize
    };
    if (g.lcdc & 0x02) == 0x02 {
        let at = PictureGeneration { scanline_pos: ((pg.scanline_pos + k) % 256) as u8, ..pg };
        match sprite_color(at, g, bg, 0) {
            Some(c) => c,
            None => g.bg_colors[bg as int],
        }
    } else {
        g.bg_colors[bg as int]
    }
}

/// `sprite_color` reads only the sprite list, SCX and the sprite palettes.
proof fn lemma_sprite_color_fields(pg: PictureGeneration, g1: GpuMemory, g2: GpuMemory, bg: usize, i: int)
    requires
        g1.sprite_list == g2.sprite_list,
        g1.scx == g2.scx,
        g1.obp0_colors == g2.obp0_colors,
        g1.obp1_colors == g2.obp1_colors,
    ensures
        sprite_color(pg, g1, bg, i) == sprite_color(pg, g2, bg, i),
    decreases pg.spr_indicies@.len() - i,
{
    if 0 <= i < pg.spr_indicies@.len() {
        lemma_sprite_color_fields(pg, g1, g2, bg, i + 1);
    }
}

/// The window map entry the fetcher reads for column `fetch_x`: `None`
/// where the column lies outside the window, the line lies above WY, or
/// the entry would lie past VRAM.
pub open spec fn window_tile_byte(g: GpuMemory, fetch_x: usize) -> Option<u8> {
    let pos = fetch_x * 8 + 7;
    let map_start = if (g.lcdc & 0x40) == 0x40 { 0x9C00int } else { 0x9800int };
    if g.wx <= pos < g.wx + 158 && g.ly >= g.wy {
        let rel = 32 * (g.window_line_counter / 8) + (fetch_x - g.wx / 8) + map_start - 0x8000;
        if 0 <= rel < g.vram@.len() {
            Some(g.vram@[rel])
        } else {
            None
        }
    } else {
        None
    }
}

/// Whether the fetcher takes sprite `s` for column `fetch_x`: its X
/// (moved by SCX % 8, wrapping at 256) starts in the column, or its last
/// pixels fall in it.
pub open spec fn sprite_in_column(s: Sprite, scx: u8, fetch_x: usize) -> bool {
    let sum = s.xpos + scx % 8;
    let sprx = if sum > 255 { sum - 256 } else { sum };
    let left = fetch_x * 8 + 8;
    let right = fetch_x * 8 + 16;
    (left <= sprx < right) || (left <= sprx + 8 < right)
}

/// The list positions, in order, of those of the first `n` sprites that the
/// fetcher takes for column `fetch_x`.
pub open spec fn column_sprites(g: GpuMemory, fetch_x: usize, n: int) -> Seq<usize>
    decreases n,
{
    if n <= 0 {
        Seq::empty()
    } else {
        let prev = column_sprites(g, fetch_x, n - 1);
        if sprite_in_column(g.sprite_list@[n - 1], g.scx, fetch_x) {
            prev.push((n - 1) as usize)
        } else {
            prev
        }
    }
}

/// The byte of bit plane `offset` (0 low, 1 high) of the current line of
/// sprite `i` of the list: its row counts from the sprite's top (from its
/// bottom when flipped), its tile data from 0x8000; 0 where `i` is no
/// sprite or the byte lies outside VRAM.
pub open spec fn sprite_row_byte(g: GpuMemory, i: usize, offset: int) -> u8 {
    if i < g.sprite_list@.len() {
        let spr = g.sprite_list@[i as int];
        let h: int = if (g.lcdc & 0x04) == 0x04 { 16 } else { 8 };
        let y0 = (g.ly + 16) - spr.ypos;
        let y = if spr.flip_y { (h - 1) - y0 } else { y0 };
        let index = spr.tile_index * 16 + y * 2;
        if 0 <= index && index + offset < g.vram@.len() {
            g.vram@[index + offset]
        } else {
            0
        }
    } else {
        0
    }
}

/// The bytes of bit plane `offset` of the current line of each sprite in
/// `indices`, in order.
pub open spec fn sprite_plane(g: GpuMemory, indices: Seq<usize>, offset: int) -> Seq<u8> {
    Seq::new(indices.len(), |k: int| sprite_row_byte(g, indices[k], offset))
}

/// The tile number the fetcher holds after its tile step at column
/// `pg.fetch_x`: the background map entry while the background is on, the
/// window map entry where the window (and the background) is on and covers
/// the column; otherwise the number it held.
pub open spec fn fetched_tile_num(pg: PictureGeneration, g: GpuMemory) -> u8 {
    let bg = if (g.lcdc & 0x01) == 0x01 {
        g.vram@[bg_map_index(g, pg.fetch_x)]
    } else {
        pg.byte_index
    };
    if (g.lcdc & 0x20) == 0x20 && (g.lcdc & 0x01) == 0x01 {
        match window_tile_byte(g, pg.fetch_x) {
            Some(b) => b,
            None => bg,
        }
    } else {
        bg
    }
}

/// The sprites the tile step picks for column `fetch_x`: none while sprites
/// are off.
pub open spec fn fetched_sprites(g: GpuMemory, fetch_x: usize) -> Seq<usize> {
    if (g.lcdc & 0x02) == 0x02 && g.sprite_list@.len() > 0 {
        column_sprites(g, fetch_x, g.sprite_list@.len() as int)
    } else {
        Seq::empty()
    }
}

/// The bytes of bit plane `offset` of the sprites of the column that a
/// data step fetches: none while sprites are off.
pub open spec fn fetched_sprite_plane(pg: PictureGeneration, g: GpuMemory, offset: int) -> Seq<u8> {
    if (g.lcdc & 0x02) == 0x02 && pg.spr_indicies@.len() > 0 {
        sprite_plane(g, pg.spr_indicies@, offset)
    } else {
        Seq::empty()
    }
}

/// Whether the row the fetcher holds goes into the FIFO: the columns left
/// of the screen (column 0 while SCX % 8 is 0) are fetched but dropped.
pub open spec fn row_visible(pg: PictureGeneration, g: GpuMemory) -> bool {
    pg.fetch_x * 8 + g.scx % 8 >= 8
}

/// `np` is `pg` after the tile step (its step state aside).
pub open spec fn tile_fetched(np: PictureGeneration, pg: PictureGeneration, g: GpuMemory) -> bool {
    &&& np == (PictureGeneration {
        fifo_state: np.fifo_state,
        byte_index: fetched_tile_num(pg, g),
        spr_indicies: np.spr_indicies,
        fetch_x: pg.fetch_x.wrapping_add(1),
        ..pg
    })
    &&& np.spr_indicies@ == fetched_sprites(g, pg.fetch_x)
}

/// `np` is `pg` after the low data step (its step state aside).
pub open spec fn low_fetched(np: PictureGeneration, pg: PictureGeneration, g: GpuMemory) -> bool {
    &&& np == (PictureGeneration {
        fifo_state: np.fifo_state,
        bgw_lo: g.vram@[tile_addr(pg.byte_index, g.lcdc) + row_offset(g) - VRAM_START],
        spr_data_lo: np.spr_data_lo,
        ..pg
    })
    &&& np.spr_data_lo@ == fetched_sprite_plane(pg, g, 0)
}

/// `np` is `pg` after the high data step (its step state aside).
pub open spec fn high_fetched(np: PictureGeneration, pg: PictureGeneration, g: GpuMemory) -> bool {
    &&& np == (PictureGeneration {
        fifo_state: np.fifo_state,
        bgw_hi: g.vram@[tile_addr(pg.byte_index, g.lcdc) + row_offset_hi(g) - VRAM_START],
        spr_data_hi: np.spr_data_hi,
        ..pg
    })
    &&& np.spr_data_hi@ == fetched_sprite_plane(pg, g, 1)
}

/// `np`, `ng` are `pg`, `g` after a push step (the step state of `np`
/// aside): while the FIFO holds more than 8 pixels nothing happens; else
/// the 8 pixels of a visible row join it and the scanline position moves
/// past them.
pub open spec fn row_pushed(np: PictureGeneration, ng: GpuMemory, pg: PictureGeneration, g: GpuMemory) -> bool {
    if g.bg_pixel_fifo@.len() > 8 {
        np == (PictureGeneration { fifo_state: np.fifo_state, ..pg }) && ng == g
    } else {
        let n: int = if row_visible(pg, g) { 8 } else { 0 };
        &&& np == (PictureGeneration {
            fifo_state: np.fifo_state,
            scanline_pos: ((pg.scanline_pos + n) % 256) as u8,
            ..pg
        })
        &&& ng == (GpuMemory { bg_pixel_fifo: ng.bg_pixel_fifo, ..g })
        &&& ng.bg_pixel_fifo@ == g.bg_pixel_fifo@ + Seq::new(n as nat, |k: int| fetched_color(pg, g, k))
    }
}

/// The pixel fetcher's part of a dot: it steps on even dots, and a waiting
/// push is retried on odd ones.
pub open spec fn dot_fetched(np: PictureGeneration, ng: GpuMemory, pg: PictureGeneration, g: GpuMemory) -> bool {
    if pg.cycles_counter % 2 == 0 {
        match pg.fifo_state {
            FifoState::GetTile => ng == g && tile_fetched(np, pg, g) && np.fifo_state
                == FifoState::GetTileDataLow,
            FifoState::GetTileDataLow => ng == g && low_fetched(np, pg, g) && np.fifo_state
                == FifoState::GetTileDataHigh,
            FifoState::GetTileDataHigh => ng == g && high_fetched(np, pg, g) && np.fifo_state
                == FifoState::Sleep,
            FifoState::Sleep => ng == g && np == (PictureGeneration {
                fifo_state: FifoState::Push,
                ..pg
            }),
            FifoState::Push => row_pushed(np, ng, pg, g) && np.fifo_state == (if g.bg_pixel_fifo@.len()
                > 8 {
                FifoState::Push
            } else {
                FifoState::GetTile
            }),
            FifoState::Stopped => ng == g && np == pg,
        }
    } else if pg.fifo_state == FifoState::Push {
        row_pushed(np, ng, pg, g) && np.fifo_state == (if g.bg_pixel_fifo@.len() > 8 {
            FifoState::Push
        } else {
            FifoState::GetTile
        })
    } else {
        ng == g && np == pg
    }
}

/// The FIFO's part of a dot: while it holds more than 8 pixels its front
/// pixel leaves, and is drawn at the next position of line LY unless it is
/// one of the SCX % 8 pixels that the line starts by dropping.
pub open spec fn fifo_popped(np: PictureGeneration, ng: GpuMemory, pg: PictureGeneration, g: GpuMemory) -> bool {
    if g.bg_pixel_fifo@.len() <= 8 {
        np == pg && ng == g
    } else if g.scx % 8 <= pg.discard_pixels {
        let at = g.ly * BYTES_PER_ROW + pg.push_x * BYTES_PER_PIXEL;
        let px = g.bg_pixel_fifo@[0];
        &&& np == (PictureGeneration { push_x: (pg.push_x + 1) as u8, ..pg })
        &&& ng == (GpuMemory { bg_pixel_fifo: ng.bg_pixel_fifo, pixels: ng.pixels, ..g })
        &&& ng.bg_pixel_fifo@ == g.bg_pixel_fifo@.drop_first()
        &&& ng.pixels@ == g.pixels@.update(at, px[0]).update(at + 1, px[1]).update(at + 2, px[2]).update(
            at + 3,
            px[3],
        )
    } else {
        &&& np == (PictureGeneration { discard_pixels: (pg.discard_pixels + 1) as u8, ..pg })
        &&& ng == (GpuMemory { bg_pixel_fifo: ng.bg_pixel_fifo, ..g })
        &&& ng.bg_pixel_fifo@ == g.bg_pixel_fifo@.drop_first()
    }
}

/// `np`, `ng` are `pg`, `g` after the work of one dot: the fetcher's part,
/// then the FIFO's.
pub open spec fn dot_worked(np: PictureGeneration, ng: GpuMemory, pg: PictureGeneration, g: GpuMemory) -> bool {
    exists|mp: PictureGeneration, mg: GpuMemory|
        #[trigger] dot_fetched(mp, mg, pg, g) && fifo_popped(np, ng, mp, mg)
}

/// One dot of mode 3 from a line that is not yet complete: the dot counter
/// moves on, then the dot's work is done.
pub open spec fn dot_run(np: PictureGeneration, ng: GpuMemory, pg: PictureGeneration, g: GpuMemory) -> bool {
    &&& pg.push_x < NUM_PIXELS_X
    &&& dot_worked(
        np,
        ng,
        PictureGeneration { cycles_counter: pg.cycles_counter.wrapping_add(1), ..pg },
        g,
    )
}

/// Dot `i` of the run `ps`, `gs` leads from state `i` to state `i + 1`.
pub open spec fn dot_taken(ps: Seq<PictureGeneration>, gs: Seq<GpuMemory>, i: int) -> bool {
    dot_run(ps[i + 1], gs[i + 1], ps[i], gs[i])
}

/// `ps`, `gs` are the states of a run of dots of mode 3 from `pg`, `g`:
/// each follows from the one before by one dot, run while the line was
/// not yet complete.
pub open spec fn dots_run(ps: Seq<PictureGeneration>, gs: Seq<GpuMemory>, pg: PictureGeneration, g: GpuMemory) -> bool {
    &&& ps.len() >= 1 && gs.len() == ps.len()
    &&& ps[0] == pg && gs[0] == g
    &&& forall|i: int| 0 <= i < ps.len() - 1 ==> #[trigger] dot_taken(ps, gs, i)
}

impl PictureGeneration {
    /// The state at the beginning of mode 3.
    pub open spec fn is_initial(&self) -> bool {
        &&& self.cycles_counter == 0
        &&& self.fifo_state == FifoState::GetTile
        &&& self.fetch_x == 0
        &&& self.byte_index == 0
        &&& self.bgw_lo == 0
        &&& self.bgw_hi == 0
        &&& self.scanline_pos == 0
        &&& self.push_x == 0
        &&& self.discard_pixels == 0
        &&& self.spr_indicies@.len() == 0
        &&& self.spr_data_lo@.len() == 0
        &&& self.spr_data_hi@.len() == 0
    }

    pub fn new() -> (p: PictureGeneration)
        ensures
            p.is_initial(),
    {
        PictureGeneration {
            cycles_counter: 0,
            fifo_state: FifoState::GetTile,
            fetch_x: 0,
            byte_index: 0,
            bgw_lo: 0,
            bgw_hi: 0,
            scanline_pos: 0,
            push_x: 0,
            discard_pixels: 0,
            spr_indicies: Vec::new(),
            spr_data_lo: Vec::new(),
            spr_data_hi: Vec::new(),
        }
    }

    /// Stays in mode 3 until the 160 pixels of the line are out, then
    /// waits out the line in mode 0.
    fn next(self, gpu_mem: &mut GpuMemory) -> (s: PpuState)
        requires
            old(gpu_mem).wf(),
        ensures
            final(gpu_mem).wf(),
            self.push_x < NUM_PIXELS_X ==> s == PpuState::PictureGeneration(self) && *final(gpu_mem)
                == *old(gpu_mem),
            self.push_x >= NUM_PIXELS_X ==> *final(gpu_mem) == mode_entered(*old(gpu_mem), MODE_HBLANK)
                && s == PpuState::HBlank(
                HBlank {
                    cycles_counter: 0,
                    cycles_to_run: if self.cycles_counter <= SCANLINE_CYCLES - MAX_CYCLES {
                        (SCANLINE_CYCLES - MAX_CYCLES - self.cycles_counter) as usize
                    } else {
                        0
                    },
                },
            ),
    {
        if (self.push_x as usize) < NUM_PIXELS_X {
            PpuState::PictureGeneration(self)
        } else {
            gpu_mem.set_stat_mode(MODE_HBLANK);
            HBlank::new((SCANLINE_CYCLES - MAX_CYCLES).saturating_sub(self.cycles_counter))
        }
    }

    /// Runs the fetcher and the FIFO dot by dot until the cycles are spent or
    /// the line is complete.
    pub fn render(self, gpu_mem: &mut GpuMemory, cycles: usize) -> (s: PpuState)
        requires
            old(gpu_mem).wf(),
            old(gpu_mem).ly < 144,
            self.push_x < NUM_PIXELS_X,
        ensures
            final(gpu_mem).vram == old(gpu_mem).vram && final(gpu_mem).oam == old(gpu_mem).oam,
            final(gpu_mem).wf(),
            final(gpu_mem).ly == old(gpu_mem).ly,
            final(gpu_mem).window_line_counter == old(gpu_mem).window_line_counter,
            s matches PpuState::PictureGeneration(p) ==> p.push_x < NUM_PIXELS_X,
            s matches PpuState::HBlank(h) ==> h.cycles_counter == 0 && h.cycles_to_run
                <= SCANLINE_CYCLES - MAX_CYCLES,
            s is PictureGeneration || s is HBlank,
            exists|ps: Seq<PictureGeneration>, gs: Seq<GpuMemory>|
                #[trigger] dots_run(ps, gs, self, *old(gpu_mem)) && ps.len() - 1 <= cycles && ({
                    let p = ps.last();
                    if p.push_x < NUM_PIXELS_X {
                        ps.len() - 1 == cycles && s == PpuState::PictureGeneration(p) && *final(
                        gpu_mem) == gs.last()
                    } else {
                        *final(gpu_mem) == mode_entered(gs.last(), MODE_HBLANK) && s
                            == PpuState::HBlank(
                            HBlank {
                                cycles_counter: 0,
                                cycles_to_run: if p.cycles_counter <= SCANLINE_CYCLES - MAX_CYCLES {
                                    (SCANLINE_CYCLES - MAX_CYCLES - p.cycles_counter) as usize
                                } else {
                                    0
                                },
                            },
                        )
                    }
                }),
    {
        let mut this = self;
        let mut n: usize = 0;
        let ghost mut ps: Seq<PictureGeneration> = seq![self];
        let ghost mut gs: Seq<GpuMemory> = seq![*gpu_mem];
        while n < cycles
            invariant_except_break
                gpu_mem.wf(),
                gpu_mem.vram == old(gpu_mem).vram && gpu_mem.oam == old(gpu_mem).oam,
                gpu_mem.ly == old(gpu_mem).ly,
                gpu_mem.ly < 144,
                gpu_mem.window_line_counter == old(gpu_mem).window_line_counter,
                this.push_x < NUM_PIXELS_X,
                n <= cycles,
                ps.len() == n + 1,
                dots_run(ps, gs, self, *old(gpu_mem)),
                ps.last() == this && gs.last() == *gpu_mem,
            ensures
                gpu_mem.wf(),
                gpu_mem.vram == old(gpu_mem).vram && gpu_mem.oam == old(gpu_mem).oam,
                gpu_mem.ly == old(gpu_mem).ly,
                gpu_mem.window_line_counter == old(gpu_mem).window_line_counter,
                this.push_x <= NUM_PIXELS_X,
                dots_run(ps, gs, self, *old(gpu_mem)),
                ps.last() == this && gs.last() == *gpu_mem,
                ps.len() - 1 <= cycles,
                this.push_x < NUM_PIXELS_X ==> ps.len() - 1 == cycles,
            decreases cycles - n,
        {
            let ghost p0 = this;
            let ghost g0 = *gpu_mem;
            this.cycles_counter = this.cycles_counter.wrapping_add(1);
            this.do_work(gpu_mem);
            proof {
                assert(dot_run(this, *gpu_mem, p0, g0));
                let ops = ps;
                let ogs = gs;
                ps = ps.push(this);
                gs = gs.push(*gpu_mem);
                assert forall|i: int| 0 <= i < ps.len() - 1 implies #[trigger] dot_taken(ps, gs, i) by {
                    if i < ops.len() - 1 {
                        assert(dot_taken(ops, ogs, i));
                        assert(ps[i] == ops[i] && ps[i + 1] == ops[i + 1]);
                        assert(gs[i] == ogs[i] && gs[i + 1] == ogs[i + 1]);
                    } else {
                        assert(ps[i] == p0 && gs[i] == g0);
                    }
                }
            }
            if (this.push_x as usize) >= NUM_PIXELS_X {
                break ;
            }
            n = n + 1;
        }
        let s = this.next(gpu_mem);
        assert(dots_run(ps, gs, self, *old(gpu_mem)));
        s
    }

    /// One dot: the fetcher steps on every other dot (a waiting push is
    /// retried on every dot), then the FIFO may hand out a pixel.
    pub fn do_work(&mut self, gpu_mem: &mut GpuMemory)
        requires
            old(gpu_mem).wf(),
            old(gpu_mem).ly < 144,
            old(self).push_x < NUM_PIXELS_X,
        ensures
            final(gpu_mem).wf(),
            final(gpu_mem).vram == old(gpu_mem).vram && final(gpu_mem).oam == old(gpu_mem).oam,
            final(gpu_mem).ly == old(gpu_mem).ly,
            final(gpu_mem).window_line_counter == old(gpu_mem).window_line_counter,
            final(self).push_x <= old(self).push_x + 1,
            dot_worked(*final(self), *final(gpu_mem), *old(self), *old(gpu_mem)),
    {
        // Attempt every other dot
        if (self.cycles_counter % 2) == 0 {
            let next_state = match self.fifo_state {
                FifoState::GetTile => self.get_tile_num(gpu_mem),
                FifoState::GetTileDataLow => self.get_tile_data_low(gpu_mem),
                FifoState::GetTileDataHigh => self.get_tile_data_high(gpu_mem),
                FifoState::Sleep => self.sleep(gpu_mem),
                FifoState::Push => self.push(gpu_mem),
                FifoState::Stopped => FifoState::Stopped,
            };
            self.fifo_state = next_state;
        } else {
            // Attempt every dot if in the state
            if self.fifo_state == FifoState::Push {
                // Might do nothing so then we just stay in push which is fine
                let next_state = self.push(gpu_mem);
                self.fifo_state = next_state;
            }
        }
        let ghost mp = *self;
        let ghost mg = *gpu_mem;
        assert(dot_fetched(mp, mg, *old(self), *old(gpu_mem)));
        // Always attempted
        self.pop_fifo(gpu_mem);
        assert(fifo_popped(*self, *gpu_mem, mp, mg));
    }

    /// Reads the tile number of the background (or window) map entry for
    /// the current column, picks the sprites of this column, and moves on.
    pub fn get_tile_num(&mut self, gpu_mem: &mut GpuMemory) -> (f: FifoState)
        requires
            old(gpu_mem).wf(),
        ensures
            f == FifoState::GetTileDataLow,
            *final(gpu_mem) == *old(gpu_mem),
            final(self).push_x == old(self).push_x,
            final(self).fetch_x == old(self).fetch_x.wrapping_add(1),
            (old(gpu_mem).lcdc & 0x01) == 0x01 && (old(gpu_mem).lcdc & 0x20) != 0x20
                ==> final(self).byte_index == old(gpu_mem).vram@[bg_map_index(
                *old(gpu_mem),
                old(self).fetch_x,
            )],
            (old(gpu_mem).lcdc & 0x01) != 0x01 ==> final(self).byte_index == old(self).byte_index,
            forall|k: int|
                0 <= k < final(self).spr_indicies@.len() ==> #[trigger] final(self).spr_indicies@[k]
                    < old(gpu_mem).sprite_list@.len(),
            tile_fetched(*final(self), *old(self), *old(gpu_mem)),
            final(self).fifo_state == old(self).fifo_state,
    {
        self.spr_indicies.clear();

        // curr_tile will be between 0 and 1023(0x3FF) inclusive
        if gpu_mem.is_bgw_enabled() {
            let curr_tile = ((self.fetch_x % 32 + gpu_mem.scx() / 8) % 32) + (32 * (((gpu_mem.ly()
                + gpu_mem.scy()) % 256) / 8));
            let map_start = (gpu_mem.get_bg_tile_map().0 - VRAM_START) as usize;
            assert((self.fetch_x % 32 + gpu_mem.scx / 8) % 32 == (self.fetch_x + gpu_mem.scx / 8)
                % 32);
            self.byte_index = gpu_mem.vram[map_start + curr_tile];
        }
        if gpu_mem.is_window_enabled() && gpu_mem.is_bgw_enabled() {
            self.find_window_tile_num(gpu_mem);
        }
        if gpu_mem.is_spr_enabled() && gpu_mem.sprite_list.len() > 0 {
            self.search_spr_list(gpu_mem);
        }
        self.fetch_x = self.fetch_x.wrapping_add(1);
        FifoState::GetTileDataLow
    }

    // refer to https://gbdev.io/pandocs/Scrolling.html#window
    fn find_window_tile_num(&mut self, gpu_mem: &GpuMemory)
        requires
            gpu_mem.wf(),
        ensures
            *final(self) == (PictureGeneration {
                byte_index: match window_tile_byte(*gpu_mem, old(self).fetch_x) {
                    Some(b) => b,
                    None => old(self).byte_index,
                },
                ..*old(self)
            }),
    {
        let fetcher_pos = (self.fetch_x as u128) * 8 + 7;
        let wx = gpu_mem.wx() as u128;
        if fetcher_pos >= wx && fetcher_pos < wx + 144 + 14 {
            if gpu_mem.ly() >= gpu_mem.wy() {
                let index = 32 * ((gpu_mem.window_line_counter / 8) as u128) + ((self.fetch_x
                    as u128) - wx / 8) + (gpu_mem.get_window_tile_map().0 as u128);
                if index - (VRAM_START as u128) < (gpu_mem.vram.len() as u128) {
                    self.byte_index = gpu_mem.vram[(index - (VRAM_START as u128)) as usize];
                }
            }
        }
    }

    /*
        Sprite X = position on screen + 8. A sprite is taken for this
        column when it starts in it, or when its last pixels fall in it.
    */
    fn search_spr_list(&mut self, gpu_mem: &GpuMemory)
        requires
            old(self).spr_indicies@.len() == 0,
        ensures
            final(self).spr_indicies@ == column_sprites(
                *gpu_mem,
                old(self).fetch_x,
                gpu_mem.sprite_list@.len() as int,
            ),
            *final(self) == (PictureGeneration { spr_indicies: final(self).spr_indicies, ..*old(self) }),
            forall|k: int|
                0 <= k < final(self).spr_indicies@.len() ==> #[trigger] final(self).spr_indicies@[k]
                    < gpu_mem.sprite_list@.len(),
    {
        let mut i: usize = 0;
        let left = (self.fetch_x as u128) * 8 + 8;
        let right = (self.fetch_x as u128) * 8 + 16;
        while i < gpu_mem.sprite_list.len()
            invariant
                0 <= i <= gpu_mem.sprite_list@.len(),
                left == old(self).fetch_x * 8 + 8,
                right == old(self).fetch_x * 8 + 16,
                *self == (PictureGeneration { spr_indicies: self.spr_indicies, ..*old(self) }),
                self.spr_indicies@ == column_sprites(*gpu_mem, old(self).fetch_x, i as int),
                forall|k: int|
                    0 <= k < self.spr_indicies@.len() ==> #[trigger] self.spr_indicies@[k] < i,
            decreases gpu_mem.sprite_list@.len() - i,
        {
            let sprite = &gpu_mem.sprite_list[i];
            let sprx = sprite.xpos.wrapping_add(gpu_mem.scx % 8) as u128;
            if ((sprx >= left) && (sprx < right)) || ((sprx + 8 >= left) && (sprx + 8 < right)) {
                self.spr_indicies.push(i);
            }
            i = i + 1;
        }
    }

    /// Fetches the low bit plane of the tile row (and of the sprites).
    pub fn get_tile_data_low(&mut self, gpu_mem: &mut GpuMemory) -> (f: FifoState)
        requires
            old(gpu_mem).wf(),
        ensures
            f == FifoState::GetTileDataHigh,
            *final(gpu_mem) == *old(gpu_mem),
            final(self).push_x == old(self).push_x,
            final(self).fetch_x == old(self).fetch_x,
            final(self).byte_index == old(self).byte_index,
            final(self).spr_indicies == old(self).spr_indicies,
            final(self).bgw_lo == old(gpu_mem).vram@[tile_addr(old(self).byte_index, old(
            gpu_mem).lcdc) + row_offset(*old(gpu_mem)) - VRAM_START],
            low_fetched(*final(self), *old(self), *old(gpu_mem)),
            final(self).fifo_state == old(self).fifo_state,
    {
        let mut offset: u16 = 0;
        let addr = PictureGeneration::calculate_addr(self.byte_index, gpu_mem);
        self.spr_data_lo.clear();
        assert(Seq::<u8>::empty() + sprite_plane(*gpu_mem, self.spr_indicies@, 0) == sprite_plane(
            *gpu_mem,
            self.spr_indicies@,
            0,
        ));

        if gpu_mem.is_bgw_enabled() {
            offset = 2 * (((gpu_mem.ly() + gpu_mem.scy()) % 8) as u16);
        }
        if gpu_mem.is_window_enabled() {
            offset = 2 * ((gpu_mem.window_line_counter % 8) as u16);
        }
        if gpu_mem.is_spr_enabled() && self.spr_indicies.len() > 0 {
            self.get_spr_tile_data(gpu_mem, 0);
        }
        self.bgw_lo = gpu_mem.vram[(addr + offset - VRAM_START) as usize];
        FifoState::GetTileDataHigh
    }

    /// Fetches the high bit plane of the tile row (and of the sprites).
    pub fn get_tile_data_high(&mut self, gpu_mem: &mut GpuMemory) -> (f: FifoState)
        requires
            old(gpu_mem).wf(),
        ensures
            f == FifoState::Sleep,
            *final(gpu_mem) == *old(gpu_mem),
            final(self).push_x == old(self).push_x,
            final(self).fetch_x == old(self).fetch_x,
            final(self).bgw_lo == old(self).bgw_lo,
            final(self).spr_indicies == old(self).spr_indicies,
            final(self).bgw_hi == old(gpu_mem).vram@[tile_addr(old(self).byte_index, old(
            gpu_mem).lcdc) + row_offset_hi(*old(gpu_mem)) - VRAM_START],
            high_fetched(*final(self), *old(self), *old(gpu_mem)),
            final(self).fifo_state == old(self).fifo_state,
    {
        let mut offset: u16 = 0;
        let addr = PictureGeneration::calculate_addr(self.byte_index, gpu_mem);
        self.spr_data_hi.clear();
        assert(Seq::<u8>::empty() + sprite_plane(*gpu_mem, self.spr_indicies@, 1) == sprite_plane(
            *gpu_mem,
            self.spr_indicies@,
            1,
        ));

        if gpu_mem.is_bgw_enabled() {
            offset = 2 * (((gpu_mem.ly() + gpu_mem.scy()) % 8) as u16) + 1;
        }
        if gpu_mem.is_window_enabled() {
            offset = 2 * ((gpu_mem.window_line_counter % 8) as u16) + 1;
        }
        if gpu_mem.is_spr_enabled() && self.spr_indicies.len() > 0 {
            self.get_spr_tile_data(gpu_mem, 1);
        }
        self.bgw_hi = gpu_mem.vram[(addr + offset - VRAM_START) as usize];
        FifoState::Sleep
    }

    /// Fetches one bit plane (low for `offset` 0, high for 1) of the current
    /// row of each sprite of this column.
    fn get_spr_tile_data(&mut self, gpu_mem: &GpuMemory, offset: usize)
        requires
            gpu_mem.wf(),
            offset <= 1,
        ensures
            offset == 0 ==> *final(self) == (PictureGeneration {
                spr_data_lo: final(self).spr_data_lo,
                ..*old(self)
            }),
            offset == 0 ==> final(self).spr_data_lo@ == old(self).spr_data_lo@ + sprite_plane(
                *gpu_mem,
                old(self).spr_indicies@,
                0,
            ),
            offset == 1 ==> *final(self) == (PictureGeneration {
                spr_data_hi: final(self).spr_data_hi,
                ..*old(self)
            }),
            offset == 1 ==> final(self).spr_data_hi@ == old(self).spr_data_hi@ + sprite_plane(
                *gpu_mem,
                old(self).spr_indicies@,
                1,
            ),
    {
        let ly = gpu_mem.ly as i32;
        let spr_height: i32 = if gpu_mem.is_big_sprite() { 16 } else { 8 };
        let mut k: usize = 0;
        while k < self.spr_indicies.len()
            invariant
                gpu_mem.wf(),
                offset <= 1,
                ly == gpu_mem.ly as i32,
                spr_height == 8 || spr_height == 16,
                0 <= k <= self.spr_indicies@.len(),
                spr_height == (if (gpu_mem.lcdc & 0x04) == 0x04 { 16int } else { 8int }),
                offset == 0 ==> *self == (PictureGeneration {
                    spr_data_lo: self.spr_data_lo,
                    ..*old(self)
                }),
                offset == 1 ==> *self == (PictureGeneration {
                    spr_data_hi: self.spr_data_hi,
                    ..*old(self)
                }),
                offset == 0 ==> self.spr_data_lo@ == old(self).spr_data_lo@ + sprite_plane(
                    *gpu_mem,
                    old(self).spr_indicies@.take(k as int),
                    0,
                ),
                offset == 1 ==> self.spr_data_hi@ == old(self).spr_data_hi@ + sprite_plane(
                    *gpu_mem,
                    old(self).spr_indicies@.take(k as int),
                    1,
                ),
            decreases self.spr_indicies@.len() - k,
        {
            let i = self.spr_indicies[k];
            let mut byte: u8 = 0;
            if i < gpu_mem.sprite_list.len() {
                let spr = &gpu_mem.sprite_list[i];
                // ypos = sprite position on screen + 16; a sprite line takes 2 bytes
                let mut y_offset = (ly + 16) - (spr.ypos as i32);
                if spr.flip_y {
                    y_offset = (spr_height - 1) - y_offset;
                }
                let index = ((spr.tile_index as i32) * 16) + (y_offset * 2);
                // The index is already relative from 0x8000
                if index >= 0 && (index as usize) + offset < gpu_mem.vram.len() {
                    byte = gpu_mem.vram[index as usize + offset];
                }
            }
            assert(byte == sprite_row_byte(*gpu_mem, i, offset as int));
            proof {
                let ind = old(self).spr_indicies@;
                assert(sprite_plane(*gpu_mem, ind.take(k + 1), offset as int) == sprite_plane(
                    *gpu_mem,
                    ind.take(k as int),
                    offset as int,
                ).push(byte));
            }
            if offset == 0 {
                self.spr_data_lo.push(byte);
            } else {
                self.spr_data_hi.push(byte);
            }
            k = k + 1;
        }
        assert(old(self).spr_indicies@.take(k as int) == old(self).spr_indicies@);
    }

    pub fn sleep(&mut self, _gpu_mem: &mut GpuMemory) -> (f: FifoState)
        ensures
            f == FifoState::Push,
            *final(self) == *old(self),
            *final(_gpu_mem) == *old(_gpu_mem),
    {
        FifoState::Push
    }

    /// Queues the fetched row unless the FIFO still holds more than 8
    /// pixels, in which case the push is retried.
    pub fn push(&mut self, gpu_mem: &mut GpuMemory) -> (f: FifoState)
        requires
            old(gpu_mem).wf(),
        ensures
            final(gpu_mem).wf(),
            old(gpu_mem).bg_pixel_fifo@.len() > 8 ==> f == FifoState::Push && *final(gpu_mem) == *old(
            gpu_mem) && final(self).push_x == old(self).push_x,
            old(gpu_mem).bg_pixel_fifo@.len() <= 8 ==> f == FifoState::GetTile,
            *final(gpu_mem) == (GpuMemory { bg_pixel_fifo: final(gpu_mem).bg_pixel_fifo, ..*old(gpu_mem) }),
            final(self).push_x == old(self).push_x,
            old(gpu_mem).bg_pixel_fifo@.len() <= 8 ==> ({
                let n = old(gpu_mem).bg_pixel_fifo@.len();
                &&& final(gpu_mem).bg_pixel_fifo@.subrange(0, n as int) == old(gpu_mem).bg_pixel_fifo@
                &&& final(gpu_mem).bg_pixel_fifo@.len() == n + (if old(self).fetch_x * 8 + old(gpu_mem).scx % 8 >= 8 {
                    8int
                } else {
                    0
                })
                &&& forall|k: int|
                    0 <= k < final(gpu_mem).bg_pixel_fifo@.len() - n ==> #[trigger] final(gpu_mem).bg_pixel_fifo@[n + k] == fetched_color(*old(self), *old(gpu_mem), k)
            }),
            row_pushed(*final(self), *final(gpu_mem), *old(self), *old(gpu_mem)),
            final(self).fifo_state == old(self).fifo_state,
    {
        if gpu_mem.bg_pixel_fifo.len() > 8 {
            // FIFO full
            return FifoState::Push;
        }
        self.get_color_and_push(gpu_mem);
        proof {
            let g = *old(gpu_mem);
            let n: int = if row_visible(*old(self), g) { 8 } else { 0 };
            let a = gpu_mem.bg_pixel_fifo@;
            let b = g.bg_pixel_fifo@ + Seq::new(n as nat, |k: int| fetched_color(*old(self), g, k));
            let m = g.bg_pixel_fifo@.len() as int;
            assert(a.len() == b.len());
            assert forall|i: int| 0 <= i < a.len() implies a[i] == b[i] by {
                if i >= m {
                    assert(a[m + (i - m)] == fetched_color(*old(self), g, i - m));
                }
            }
            assert(a =~= b);
        }
        FifoState::GetTile
    }

    // weaves the bits together to form the correct output for graphics
    fn get_color_and_push(&mut self, gpu_mem: &mut GpuMemory)
        requires
            old(gpu_mem).wf(),
        ensures
            final(gpu_mem).wf(),
            *final(gpu_mem) == (GpuMemory { bg_pixel_fifo: final(gpu_mem).bg_pixel_fifo, ..*old(gpu_mem) }),
            final(self).push_x == old(self).push_x,
            old(self).fetch_x * 8 + old(gpu_mem).scx % 8 >= 8 ==> final(gpu_mem).bg_pixel_fifo@.len()
                == old(gpu_mem).bg_pixel_fifo@.len() + 8,
            old(self).fetch_x * 8 + old(gpu_mem).scx % 8 < 8 ==> final(gpu_mem).bg_pixel_fifo@
                == old(gpu_mem).bg_pixel_fifo@,
            forall|k: int|
                0 <= k < final(gpu_mem).bg_pixel_fifo@.len() - old(gpu_mem).bg_pixel_fifo@.len()
                    ==> #[trigger] final(gpu_mem).bg_pixel_fifo@[old(gpu_mem).bg_pixel_fifo@.len()
                    + k] == fetched_color(*old(self), *old(gpu_mem), k),
            forall|k: int|
                0 <= k < old(gpu_mem).bg_pixel_fifo@.len() ==> #[trigger] final(
                gpu_mem).bg_pixel_fifo@[k] == old(gpu_mem).bg_pixel_fifo@[k],
            *final(self) == (PictureGeneration {
                scanline_pos: if row_visible(*old(self), *old(gpu_mem)) {
                    ((old(self).scanline_pos + 8) % 256) as u8
                } else {
                    old(self).scanline_pos
                },
                ..*old(self)
            }),
    {
        let visible = (self.fetch_x as u128) * 8 + (gpu_mem.scx() % 8) as u128 >= 8;
        let ghost start = gpu_mem.bg_pixel_fifo@.len();
        let mut shift: u8 = 0;
        while shift < 8
            invariant
                gpu_mem.wf(),
                *gpu_mem == (GpuMemory { bg_pixel_fifo: gpu_mem.bg_pixel_fifo, ..*old(gpu_mem) }),
                0 <= shift <= 8,
                self.push_x == old(self).push_x,
                self.bgw_lo == old(self).bgw_lo,
                self.bgw_hi == old(self).bgw_hi,
                self.fetch_x == old(self).fetch_x,
                start == old(gpu_mem).bg_pixel_fifo@.len(),
                visible == (old(self).fetch_x * 8 + old(gpu_mem).scx % 8 >= 8),
                visible ==> gpu_mem.bg_pixel_fifo@.len() == start + shift,
                !visible ==> gpu_mem.bg_pixel_fifo@ == old(gpu_mem).bg_pixel_fifo@,
                forall|k: int|
                    0 <= k < start ==> #[trigger] gpu_mem.bg_pixel_fifo@[k] == old(
                    gpu_mem).bg_pixel_fifo@[k],
                *self == (PictureGeneration { scanline_pos: self.scanline_pos, ..*old(self) }),
                visible ==> self.scanline_pos == (old(self).scanline_pos + shift) % 256,
                !visible ==> self.scanline_pos == old(self).scanline_pos,
                forall|k: int|
                    0 <= k < gpu_mem.bg_pixel_fifo@.len() - start ==> #[trigger] gpu_mem.bg_pixel_fifo@[
                    start + k] == fetched_color(*old(self), *old(gpu_mem), k),
            decreases 8 - shift,
        {
            let p1 = (self.bgw_hi >> (7 - shift)) & 0x01;
            let p0 = (self.bgw_lo >> (7 - shift)) & 0x01;
            let bit_col = ((p1 << 1) | p0) as usize;
            proof {
                lemma_two_bits(self.bgw_hi, self.bgw_lo, (7 - shift) as u8);
            }
            let bg_color = if gpu_mem.is_bgw_enabled() { bit_col } else { 0 };
            let mut color = gpu_mem.bg_colors[bg_color];
            if gpu_mem.is_spr_enabled() {
                color = self.fetch_and_merge(gpu_mem, bg_color);
                proof {
                    lemma_sprite_color_fields(*self, *gpu_mem, *old(gpu_mem), bg_color, 0);
                }
            }
            proof {
                if visible {
                    let at = PictureGeneration {
                        scanline_pos: ((old(self).scanline_pos + shift) % 256) as u8,
                        ..*old(self)
                    };
                    assert(at == *self);
                    assert(color == fetched_color(*old(self), *old(gpu_mem), shift as int));
                }
            }
            // If I want to do this properly with 2 seperate fifos, the sprite fifo also
            // needs to store the bg priority bit and which pallete
            if visible {
                gpu_mem.bg_pixel_fifo.push_back(color);
                self.scanline_pos = self.scanline_pos.wrapping_add(1);
            }
            shift = shift + 1;
        }
    }

    /// The color of the current pixel: the first opaque sprite pixel of the
    /// column that is not hidden behind the background, else the
    /// background color `bg_col`.
    fn fetch_and_merge(&self, gpu_mem: &GpuMemory, bg_col: usize) -> (c: Color)
        requires
            bg_col < 4,
        ensures
            c == match sprite_color(*self, *gpu_mem, bg_col, 0) {
                Some(s) => s,
                None => gpu_mem.bg_colors[bg_col as int],
            },
    {
        let mut list_idx: usize = 0;
        while list_idx < self.spr_indicies.len()
            invariant
                bg_col < 4,
                0 <= list_idx <= self.spr_indicies@.len(),
                sprite_color(*self, *gpu_mem, bg_col, 0) == sprite_color(
                    *self,
                    *gpu_mem,
                    bg_col,
                    list_idx as int,
                ),
            decreases self.spr_indicies@.len() - list_idx,
        {
            let orig_idx = self.spr_indicies[list_idx];
            if orig_idx < gpu_mem.sprite_list.len() && list_idx < self.spr_data_hi.len()
                && list_idx < self.spr_data_lo.len() {
                let spr = &gpu_mem.sprite_list[orig_idx];
                let scr_xpos = (spr.xpos as i32) - 8 + (gpu_mem.scx % 8) as i32;
                let pos = self.scanline_pos as i32;
                let mut offset = pos - scr_xpos;
                // Sprite is not within bounds of current x position
                if !(scr_xpos + 8 < pos) && !(offset < 0 || offset > 7) {
                    if spr.flip_x {
                        offset = 7 - offset;
                    }
                    let shift = (7 - offset) as u8;
                    let p1 = (self.spr_data_hi[list_idx] >> shift) & 0x01;
                    let p0 = (self.spr_data_lo[list_idx] >> shift) & 0x01;
                    proof {
                        lemma_two_bits(self.spr_data_hi[list_idx as int], self.spr_data_lo[list_idx as int], shift);
                    }
                    let bit_col = ((p1 << 1) | p0) as usize;
                    // transparent sprite pixels are skipped
                    if bit_col != 0 && (!spr.bgw_ontop || bg_col == 0) {
                        if spr.palette_no {
                            return gpu_mem.obp1_colors[bit_col];
                        } else {
                            return gpu_mem.obp0_colors[bit_col];
                        }
                    }
                }
            }
            list_idx = list_idx + 1;
        }
        // All candidate sprite pixels were transparent or out of bounds
        gpu_mem.bg_colors[bg_col]
    }

    /// Hands the front pixel of the FIFO to the LCD when it holds more than 8;
    /// the first SCX % 8 pixels of the line are dropped.
    fn pop_fifo(&mut self, gpu_mem: &mut GpuMemory)
        requires
            old(gpu_mem).wf(),
            old(gpu_mem).ly < 144,
            old(self).push_x < NUM_PIXELS_X,
        ensures
            final(gpu_mem).wf(),
            *final(gpu_mem) == (GpuMemory {
                bg_pixel_fifo: final(gpu_mem).bg_pixel_fifo,
                pixels: final(gpu_mem).pixels,
                ..*old(gpu_mem)
            }),
            final(self).push_x <= old(self).push_x + 1,
            old(gpu_mem).bg_pixel_fifo@.len() <= 8 ==> *final(gpu_mem) == *old(gpu_mem) && *final(self)
                == *old(self),
            old(gpu_mem).bg_pixel_fifo@.len() > 8 ==> final(gpu_mem).bg_pixel_fifo@ == old(
            gpu_mem).bg_pixel_fifo@.drop_first(),
            old(gpu_mem).bg_pixel_fifo@.len() > 8 && old(gpu_mem).scx % 8 <= old(self).discard_pixels
                ==> final(self).push_x == old(self).push_x + 1 && ({
                let at = old(gpu_mem).ly * BYTES_PER_ROW + old(self).push_x * BYTES_PER_PIXEL;
                let px = old(gpu_mem).bg_pixel_fifo@[0];
                final(gpu_mem).pixels@ == old(gpu_mem).pixels@.update(at, px[0]).update(
                    at + 1,
                    px[1],
                ).update(at + 2, px[2]).update(at + 3, px[3])
            }),
            old(gpu_mem).bg_pixel_fifo@.len() > 8 && old(gpu_mem).scx % 8 > old(self).discard_pixels
                ==> final(self).discard_pixels == old(self).discard_pixels + 1 && final(
            gpu_mem).pixels == old(gpu_mem).pixels && final(self).push_x == old(self).push_x,
            fifo_popped(*final(self), *final(gpu_mem), *old(self), *old(gpu_mem)),
    {
        if gpu_mem.bg_pixel_fifo.len() > FIFO_MIN_PIXELS {
            let pixel = gpu_mem.bg_pixel_fifo.pop_front();
            if let Some(val) = pixel {
                // Discard scx % 8 pixels at beginning of scanline
                if (gpu_mem.scx % 8) <= self.discard_pixels {
                    let at = (gpu_mem.ly as usize) * BYTES_PER_ROW + (self.push_x as usize)
                        * BYTES_PER_PIXEL;
                    gpu_mem.pixels.set(at, val[0]);
                    gpu_mem.pixels.set(at + 1, val[1]);
                    gpu_mem.pixels.set(at + 2, val[2]);
                    gpu_mem.pixels.set(at + 3, val[3]);
                    self.push_x = self.push_x + 1;
                } else {
                    self.discard_pixels = self.discard_pixels + 1;
                }
            }
        }
    }

    pub fn read_byte(&self, _gpu_mem: &GpuMemory, addr: u16) -> (b: u8)
        requires
            VRAM_START <= addr <= VRAM_END || OAM_START <= addr <= UNUSED_END,
        ensures
            VRAM_START <= addr <= UNUSED_END && addr < 0xFEA0 ==> b == 0xFF,
            0xFEA0 <= addr <= UNUSED_END ==> b == 0,
    {
        if addr >= 0xFEA0 && addr <= 0xFEFF {
            0x00
        } else {
            0xFF
        }
    }

    /// The CPU can neither write VRAM nor OAM in mode 3.
    pub fn write_byte(&mut self, _gpu_mem: &mut GpuMemory, addr: u16, _data: u8)
        requires
            VRAM_START <= addr <= VRAM_END || OAM_START <= addr <= UNUSED_END,
        ensures
            *final(self) == *old(self),
            *final(_gpu_mem) == *old(_gpu_mem),
    {
    }

    /// The address of the tile data of tile `tile_index`.
    pub fn calculate_addr(tile_index: u8, gpu_mem: &GpuMemory) -> (a: u16)
        ensures
            a == tile_addr(tile_index, gpu_mem.lcdc),
            0x8000 <= a <= 0x97F0,
    {
        if gpu_mem.get_addr_mode_start() == 0x8000 {
            0x8000 + (tile_index as u16) * BYTES_PER_TILE
        } else if tile_index >= 128 {
            0x9000 - (256 - tile_index as u16) * BYTES_PER_TILE
        } else {
            0x9000 + (tile_index as u16) * BYTES_PER_TILE
        }
    }
}

/// The offset of the current row inside a tile: from the window line
/// counter when the window is enabled, else from LY + SCY when the
/// background is enabled, else 0.
pub open spec fn row_offset(g: GpuMemory) -> int {
    if (g.lcdc & 0x20) == 0x20 {
        2 * (g.window_line_counter % 8)
    } else if (g.lcdc & 0x01) == 0x01 {
        2 * ((g.ly + g.scy) % 8)
    } else {
        0
    }
}

/// The offset of the high bit plane of the current row (0 when neither the
/// background nor the window is enabled).
pub open spec fn row_offset_hi(g: GpuMemory) -> int {
    if (g.lcdc & 0x20) == 0x20 || (g.lcdc & 0x01) == 0x01 {
        row_offset(g) + 1
    } else {
        0
    }
}

/// The two bits of a pixel form a color number below 4 (and are the color
/// number `pixel_of` describes).
proof fn lemma_two_bits(hi: u8, lo: u8, s: u8)
    ensures
        (((hi >> s) & 0x01) << 1u8 | ((lo >> s) & 0x01)) < 4,
{
    assert((((hi >> s) & 0x01) << 1u8 | ((lo >> s) & 0x01)) < 4) by (bit_vector);
}

} // verus!
