//! The pixel-processing unit: a per-dot state machine over 154 scanlines of
//! 456 dots, with a background fetcher feeding a pixel FIFO that fills a
//! 160x144 framebuffer of shades.

use vstd::prelude::*;
use crate::interrupts::{request_interrupt, INT_VBLANK};
use crate::mmu::{MemModel, Mmu};

verus! {

/// Screen width in pixels.
pub const SCREEN_WIDTH: usize = 160;

/// Screen height in pixels.
pub const SCREEN_HEIGHT: usize = 144;

/// Dots per scanline.
pub const DOTS_PER_LINE: u16 = 456;

/// The four modes of the PPU.
#[derive(Clone, Copy, Debug, PartialEq, Eq, Structural)]
pub enum PpuState {
    /// Mode 2, dots 0-79 of a visible line.
    OamSearch,
    /// Mode 3: the fetcher and FIFO produce the line's 160 pixels.
    PixelTransfer,
    /// Mode 0: idle until the line's 456 dots are done.
    HBlank,
    /// Mode 1: lines 144-153.
    VBlank,
}

/// The PPU's state as values.
pub struct PpuModel {
    pub state: PpuState,
    pub dots: u16,
    pub ly: u8,
    pub x: u8,
    pub fetcher_x: u8,
    pub fetcher_step: u8,
    pub fifo: Seq<u8>,
    pub tile_id: u8,
    pub tile_data_low: u8,
    pub tile_data_high: u8,
    pub framebuffer: Seq<u8>,
    pub frame_ready: bool,
}

/// The color index of bit `b` of a tile row: the high-plane bit, then the low-plane bit.
pub open spec fn color_index(low: u8, high: u8, b: u8) -> u8 {
    (((high >> b) & 1) << 1u8) | ((low >> b) & 1)
}

/// The eight color indices of a tile row, leftmost (bit 7) first.
pub open spec fn tile_row(low: u8, high: u8) -> Seq<u8> {
    Seq::new(8, |i: int| color_index(low, high, (7 - i) as u8))
}

/// The shade BGP gives a color index.
pub open spec fn shade(bgp: u8, color: u8) -> u8 {
    (bgp >> (color * 2)) & 0x03
}

/// The mode number STAT reports: 0 HBlank, 1 VBlank, 2 OAM search, 3 pixel transfer.
pub open spec fn mode_number(s: PpuState) -> u8 {
    match s {
        PpuState::HBlank => 0,
        PpuState::VBlank => 1,
        PpuState::OamSearch => 2,
        PpuState::PixelTransfer => 3,
    }
}

/// Whether the LCD is on (LCDC bit 7).
pub open spec fn lcd_on(m: MemModel) -> bool {
    m.read(0xFF40) & 0x80 != 0
}

impl PpuModel {
    /// The dot of the frame the PPU is at: LY lines of 456 dots, plus the dots of this line.
    pub open spec fn position(self) -> int {
        self.ly as int * 456 + self.dots as int
    }

    /// The mode, dot and line counters agree, and during pixel transfer the
    /// fetcher, the FIFO and X are where the dot count puts them.
    pub open spec fn wf(self) -> bool {
        &&& self.framebuffer.len() == 160 * 144
        &&& forall|i: int| 0 <= i < self.fifo.len() ==> #[trigger] self.fifo[i] <= 3
        &&& !self.frame_ready
        &&& self.dots < 456
        &&& self.ly <= 153
        &&& (self.state == PpuState::VBlank <==> self.ly >= 144)
        &&& (self.state == PpuState::OamSearch <==> self.ly < 144 && self.dots < 80)
        &&& (self.state == PpuState::PixelTransfer <==> self.ly < 144 && 80 <= self.dots <= 246)
        &&& (self.state == PpuState::HBlank <==> self.ly < 144 && 247 <= self.dots)
        &&& self.state == PpuState::PixelTransfer ==> {
            let d = self.dots as int;
            &&& self.fetcher_step as int == (d - 80) % 8 / 2
            &&& self.x as int == if d < 88 { 0 } else { d - 87 }
            &&& self.fifo.len() == if d < 88 { 0 } else { 7 - (d - 88) % 8 }
            &&& self.fetcher_x as int == if d < 88 { 0 } else { (d - 88) / 8 + 1 }
        }
    }

    /// One step of the background fetcher (on even dots of pixel transfer).
    pub open spec fn fetch(self, m: MemModel) -> PpuModel {
        if self.dots % 2 != 0 {
            self
        } else if self.fetcher_step == 0 {
            let scx = m.read(0xFF43);
            let scy = m.read(0xFF42);
            let map_x = (self.fetcher_x as int + scx as int / 8) % 32;
            let map_y = (self.ly as int + scy as int) / 8 % 32;
            PpuModel {
                tile_id: m.read((0x9800 + map_y * 32 + map_x) as u16),
                fetcher_step: 1,
                ..self
            }
        } else if self.fetcher_step == 1 {
            let line = (self.ly as int + m.read(0xFF42) as int) % 8;
            PpuModel {
                tile_data_low: m.read((0x8000 + self.tile_id as int * 16 + line * 2) as u16),
                fetcher_step: 2,
                ..self
            }
        } else if self.fetcher_step == 2 {
            let line = (self.ly as int + m.read(0xFF42) as int) % 8;
            PpuModel {
                tile_data_high: m.read((0x8000 + self.tile_id as int * 16 + line * 2 + 1) as u16),
                fetcher_step: 3,
                ..self
            }
        } else if self.fifo.len() <= 8 {
            PpuModel {
                fifo: self.fifo + tile_row(self.tile_data_low, self.tile_data_high),
                fetcher_x: (self.fetcher_x + 1) as u8,
                fetcher_step: 0,
                ..self
            }
        } else {
            self
        }
    }

    /// Shifts one pixel out of the FIFO into the framebuffer, if there is one and the line is not full.
    pub open spec fn shift_out(self, m: MemModel) -> PpuModel {
        if self.fifo.len() > 0 && self.x < 160 {
            PpuModel {
                framebuffer: self.framebuffer.update(
                    self.ly as int * 160 + self.x as int,
                    shade(m.read(0xFF47), self.fifo[0]),
                ),
                fifo: self.fifo.drop_first(),
                x: (self.x + 1) as u8,
                ..self
            }
        } else {
            self
        }
    }

    /// The state and memory one dot later, before the frame-ready pulse is
    /// taken; the LCD is on.
    pub open spec fn advance(self, m: MemModel) -> (PpuModel, MemModel) {
        let d = (self.dots + 1) as u16;
        let p = PpuModel { dots: d, ..self };
        match self.state {
            PpuState::OamSearch => if d >= 80 {
                (
                    PpuModel {
                        state: PpuState::PixelTransfer,
                        x: 0,
                        fetcher_x: 0,
                        fetcher_step: 0,
                        fifo: Seq::empty(),
                        ..p
                    },
                    m,
                )
            } else {
                (p, m)
            },
            PpuState::PixelTransfer => {
                let q = p.fetch(m).shift_out(m);
                if q.x >= 160 {
                    (PpuModel { state: PpuState::HBlank, ..q }, m)
                } else {
                    (q, m)
                }
            },
            PpuState::HBlank => if d >= 456 {
                let ly = (self.ly + 1) as u8;
                let m1 = m.write(0xFF44, ly);
                if ly >= 144 {
                    (
                        PpuModel { state: PpuState::VBlank, dots: 0, ly, frame_ready: true, ..p },
                        m1.write(0xFF0F, m1.read(0xFF0F) | INT_VBLANK),
                    )
                } else {
                    (PpuModel { state: PpuState::OamSearch, dots: 0, ly, ..p }, m1)
                }
            } else {
                (p, m)
            },
            PpuState::VBlank => if d >= 456 {
                let ly = (self.ly + 1) as u8;
                let m1 = m.write(0xFF44, ly);
                if ly > 153 {
                    (
                        PpuModel { state: PpuState::OamSearch, dots: 0, ly: 0, ..p },
                        m1.write(0xFF44, 0),
                    )
                } else {
                    (PpuModel { dots: 0, ly, ..p }, m1)
                }
            } else {
                (p, m)
            },
        }
    }

    /// One dot: the new state, the new memory and whether a frame just
    /// completed. STAT bits 1-0 are set to the new mode. With the LCD off
    /// nothing changes.
    pub open spec fn tick(self, m: MemModel) -> (PpuModel, MemModel, bool) {
        if !lcd_on(m) {
            (self, m, false)
        } else {
            let (p, m1) = self.advance(m);
            let m2 = m1.write(0xFF41, (m1.read(0xFF41) & 0xFC) | mode_number(p.state));
            (PpuModel { frame_ready: false, ..p }, m2, p.frame_ready)
        }
    }

    /// `n` dots: the state, the memory and the number of frames completed.
    pub open spec fn run(self, m: MemModel, n: nat) -> (PpuModel, MemModel, nat)
        decreases n,
    {
        if n == 0 {
            (self, m, 0)
        } else {
            let (p, m1, ready) = self.tick(m);
            let (p2, m2, k) = p.run(m1, (n - 1) as nat);
            (p2, m2, k + if ready { 1nat } else { 0nat })
        }
    }

    /// The state at power-on.
    pub open spec fn power_on() -> PpuModel {
        PpuModel {
            state: PpuState::OamSearch,
            dots: 0,
            ly: 0,
            x: 0,
            fetcher_x: 0,
            fetcher_step: 0,
            fifo: Seq::empty(),
            tile_id: 0,
            tile_data_low: 0,
            tile_data_high: 0,
            framebuffer: Seq::new(160 * 144, |i: int| 0u8),
            frame_ready: false,
        }
    }
}

/// The PPU.
pub struct Ppu {
    state: PpuState,
    dots: u16,
    ly: u8,
    x: u8,
    fetcher_x: u8,
    fetcher_step: u8,
    bg_fifo: Vec<u8>,
    tile_id: u8,
    tile_data_low: u8,
    tile_data_high: u8,
    /// Shades (0-3) of the 160x144 screen, row by row from the top.
    pub framebuffer: Vec<u8>,
    frame_ready: bool,
}

impl View for Ppu {
    type V = PpuModel;

    closed spec fn view(&self) -> PpuModel {
        PpuModel {
            state: self.state,
            dots: self.dots,
            ly: self.ly,
            x: self.x,
            fetcher_x: self.fetcher_x,
            fetcher_step: self.fetcher_step,
            fifo: self.bg_fifo@,
            tile_id: self.tile_id,
            tile_data_low: self.tile_data_low,
            tile_data_high: self.tile_data_high,
            framebuffer: self.framebuffer@,
            frame_ready: self.frame_ready,
        }
    }
}

proof fn lemma_color_index(low: u8, high: u8, b: u8)
    ensures
        color_index(low, high, b) <= 3,
{
    assert((((high >> b) & 1) << 1u8) | ((low >> b) & 1) <= 3) by (bit_vector);
}

impl Ppu {
    pub open spec fn wf(&self) -> bool {
        self@.wf()
    }

    /// A PPU at the first dot of line 0, with a blank framebuffer.
    pub fn new() -> (r: Self)
        ensures
            r.wf(),
            r@ == PpuModel::power_on(),
    {
        let mut framebuffer: Vec<u8> = Vec::with_capacity(SCREEN_WIDTH * SCREEN_HEIGHT);
        let mut i: usize = 0;
        while i < SCREEN_WIDTH * SCREEN_HEIGHT
            invariant
                i <= 160 * 144,
                framebuffer@ == Seq::new(i as nat, |j: int| 0u8),
            decreases 160 * 144 - i,
        {
            framebuffer.push(0);
            i = i + 1;
            assert(framebuffer@ =~= Seq::new(i as nat, |j: int| 0u8));
        }
        let p = Ppu {
            state: PpuState::OamSearch,
            dots: 0,
            ly: 0,
            x: 0,
            fetcher_x: 0,
            fetcher_step: 0,
            bg_fifo: Vec::new(),
            tile_id: 0,
            tile_data_low: 0,
            tile_data_high: 0,
            framebuffer,
            frame_ready: false,
        };
        assert(p@.fifo =~= Seq::<u8>::empty());
        p
    }

    /// Advances the PPU by one dot and keeps the mode bits of STAT current.
    /// Returns true on the dot VBlank starts, when the framebuffer holds a
    /// complete frame. With the LCD off (LCDC bit 7 clear) nothing changes.
    pub fn tick(&mut self, mmu: &mut Mmu) -> (r: bool)
        requires
            old(self).wf(),
            old(mmu).wf(),
        ensures
            final(self).wf(),
            final(mmu).wf(),
            (final(self)@, final(mmu)@, r) == old(self)@.tick(old(mmu)@),
    {
        let lcdc = mmu.read_byte(0xFF40);
        if lcdc & 0x80 == 0 {
            return false;
        }
        self.dots = self.dots + 1;
        match self.state {
            PpuState::OamSearch => {
                if self.dots >= 80 {
                    self.state = PpuState::PixelTransfer;
                    self.x = 0;
                    self.fetcher_x = 0;
                    self.fetcher_step = 0;
                    self.bg_fifo.clear();
                }
            },
            PpuState::PixelTransfer => {
                let ghost before = self@;
                self.fetch_pixel(mmu);
                proof {
                    lemma_fetch_colors(before, mmu@);
                }
                if self.bg_fifo.len() > 0 && self.x < 160 {
                    let color_id = self.bg_fifo.remove(0);
                    let color = get_color(color_id, mmu);
                    let index = (self.ly as usize) * SCREEN_WIDTH + self.x as usize;
                    self.framebuffer.set(index, color);
                    self.x = self.x + 1;
                }
                if self.x >= 160 {
                    self.state = PpuState::HBlank;
                }
            },
            PpuState::HBlank => {
                if self.dots >= DOTS_PER_LINE {
                    self.dots = 0;
                    self.ly = self.ly + 1;
                    mmu.write_byte(0xFF44, self.ly);
                    if self.ly >= 144 {
                        self.state = PpuState::VBlank;
                        self.frame_ready = true;
                        request_interrupt(mmu, INT_VBLANK);
                    } else {
                        self.state = PpuState::OamSearch;
                    }
                }
            },
            PpuState::VBlank => {
                if self.dots >= DOTS_PER_LINE {
                    self.dots = 0;
                    self.ly = self.ly + 1;
                    mmu.write_byte(0xFF44, self.ly);
                    if self.ly > 153 {
                        self.ly = 0;
                        mmu.write_byte(0xFF44, 0);
                        self.state = PpuState::OamSearch;
                    }
                }
            },
        }
        let stat = mmu.read_byte(0xFF41);
        let mode = self.mode();
        mmu.write_byte(0xFF41, (stat & 0xFC) | mode);
        let ready = self.frame_ready;
        self.frame_ready = false;
        proof {
            lemma_advance_wf(old(self)@, old(mmu)@);
        }
        ready
    }

    /// One step of the background fetcher; it runs on even dots only.
    fn fetch_pixel(&mut self, mmu: &Mmu)
        requires
            mmu.wf(),
            old(self).fetcher_step <= 3,
            old(self).fetcher_x < 200,
            old(self).bg_fifo.len() <= 16,
        ensures
            final(self)@ == old(self)@.fetch(mmu@),
    {
        if self.dots % 2 != 0 {
            return;
        }
        if self.fetcher_step == 0 {
            let scx = mmu.read_byte(0xFF43);
            let scy = mmu.read_byte(0xFF42);
            let map_x = ((self.fetcher_x as u16) + (scx / 8) as u16) % 32;
            let map_y = ((self.ly as u16 + scy as u16) / 8) % 32;
            self.tile_id = mmu.read_byte(0x9800 + map_y * 32 + map_x);
            self.fetcher_step = 1;
        } else if self.fetcher_step == 1 {
            let scy = mmu.read_byte(0xFF42);
            let tile_line = (self.ly as u16 + scy as u16) % 8;
            self.tile_data_low = mmu.read_byte(0x8000 + (self.tile_id as u16) * 16 + tile_line * 2);
            self.fetcher_step = 2;
        } else if self.fetcher_step == 2 {
            let scy = mmu.read_byte(0xFF42);
            let tile_line = (self.ly as u16 + scy as u16) % 8;
            self.tile_data_high = mmu.read_byte(
                0x8000 + (self.tile_id as u16) * 16 + tile_line * 2 + 1,
            );
            self.fetcher_step = 3;
        } else if self.bg_fifo.len() <= 8 {
            let ghost before = self.bg_fifo@;
            let mut bit_pos: u8 = 8;
            while bit_pos > 0
                invariant
                    bit_pos <= 8,
                    self@ == (PpuModel { fifo: self.bg_fifo@, ..old(self)@ }),
                    self.bg_fifo@ == before + tile_row(self.tile_data_low, self.tile_data_high).take(
                        8 - bit_pos,
                    ),
                decreases bit_pos,
            {
                bit_pos = bit_pos - 1;
                let low_bit = (self.tile_data_low >> bit_pos) & 1;
                let high_bit = (self.tile_data_high >> bit_pos) & 1;
                self.bg_fifo.push((high_bit << 1u8) | low_bit);
                assert(self.bg_fifo@ =~= before + tile_row(
                    self.tile_data_low,
                    self.tile_data_high,
                ).take(8 - bit_pos));
            }
            assert(tile_row(self.tile_data_low, self.tile_data_high).take(8) =~= tile_row(
                self.tile_data_low,
                self.tile_data_high,
            ));
            self.fetcher_x = self.fetcher_x + 1;
            self.fetcher_step = 0;
        }
    }

    /// The current scanline (LY).
    pub fn ly(&self) -> (r: u8)
        ensures
            r == self@.ly,
    {
        self.ly
    }

    /// The mode number STAT reports: 0 HBlank, 1 VBlank, 2 OAM search, 3 pixel transfer.
    pub fn mode(&self) -> (r: u8)
        ensures
            r == mode_number(self@.state),
    {
        match self.state {
            PpuState::HBlank => 0,
            PpuState::VBlank => 1,
            PpuState::OamSearch => 2,
            PpuState::PixelTransfer => 3,
        }
    }
}

/// The shade BGP gives a color index.
fn get_color(color_id: u8, mmu: &Mmu) -> (r: u8)
    requires
        mmu.wf(),
        color_id <= 3,
    ensures
        r == shade(mmu@.read(0xFF47), color_id),
{
    let bgp = mmu.read_byte(0xFF47);
    (bgp >> (color_id * 2)) & 0x03
}

/// The fetcher only ever queues color indices 0-3.
proof fn lemma_fetch_colors(p: PpuModel, m: MemModel)
    requires
        forall|i: int| 0 <= i < p.fifo.len() ==> #[trigger] p.fifo[i] <= 3,
    ensures
        forall|i: int| 0 <= i < p.fetch(m).fifo.len() ==> #[trigger] p.fetch(m).fifo[i] <= 3,
{
    let lo = p.tile_data_low;
    let hi = p.tile_data_high;
    assert forall|i: int| 0 <= i < 8 implies #[trigger] tile_row(lo, hi)[i] <= 3 by {
        lemma_color_index(lo, hi, (7 - i) as u8);
    }
}

/// A dot of pixel transfer keeps the fetcher, the FIFO and X on schedule.
proof fn lemma_transfer_wf(p: PpuModel, m: MemModel)
    requires
        p.wf(),
        p.state == PpuState::PixelTransfer,
    ensures
        p.advance(m).0.wf(),
        p.advance(m).1 == m,
{
    let d0 = p.dots as int;
    let d = d0 + 1;
    let q = PpuModel { dots: d as u16, ..p };
    let f = q.fetch(m);
    let s = f.shift_out(m);
    lemma_fetch_colors(q, m);
    assert(f.framebuffer.len() == 160 * 144);
    if d % 2 != 0 {
        assert((d - 80) % 8 == (d0 - 80) % 8 + 1);
        assert(f == q);
        if d >= 89 {
            assert((d - 88) % 8 == (d0 - 88) % 8 + 1);
            assert((d - 88) / 8 == (d0 - 88) / 8);
        }
    } else if p.fetcher_step < 3 {
        assert((d0 - 80) % 8 != 7);
        assert((d - 80) % 8 == (d0 - 80) % 8 + 1);
        if d >= 88 {
            assert((d - 88) % 8 == (d0 - 88) % 8 + 1);
            assert((d - 88) / 8 == (d0 - 88) / 8);
        }
        assert(f.fifo == q.fifo);
    } else {
        assert((d0 - 80) % 8 == 7);
        assert((d - 80) % 8 == 0);
        assert(q.fifo.len() == 0);
        assert(f.fifo.len() == 8);
        if d > 88 {
            assert((d - 88) % 8 == 0);
            assert((d - 88) / 8 == (d0 - 88) / 8 + 1);
        }
    }
    assert forall|i: int| 0 <= i < s.fifo.len() implies #[trigger] s.fifo[i] <= 3 by {
        if f.fifo.len() > 0 && f.x < 160 {
            assert(s.fifo[i] == f.fifo[i + 1]);
        }
    }
}

/// A dot keeps the PPU well formed.
pub proof fn lemma_advance_wf(p: PpuModel, m: MemModel)
    requires
        p.wf(),
        m.wf(),
        lcd_on(m),
    ensures
        p.tick(m).0.wf(),
        p.tick(m).1.wf(),
{
    if p.state == PpuState::PixelTransfer {
        lemma_transfer_wf(p, m);
    }
}

/// A dot moves the PPU one position on in the frame (wrapping after 70 224),
/// keeps the LCD on, and reports a frame exactly when line 144 begins.
proof fn lemma_tick_position(p: PpuModel, m: MemModel)
    requires
        p.wf(),
        m.wf(),
        lcd_on(m),
    ensures
        ({
            let (p1, m1, ready) = p.tick(m);
            &&& p1.wf() && m1.wf() && lcd_on(m1)
            &&& p1.position() == (p.position() + 1) % 70224
            &&& ready == (p.position() + 1 == 144 * 456)
        }),
{
    lemma_advance_wf(p, m);
    if p.state == PpuState::PixelTransfer {
        lemma_transfer_wf(p, m);
    }
}

/// From any well-formed state, `n` dots that stay within the frame complete a
/// frame exactly when they cross the start of line 144.
proof fn lemma_run_frames(p: PpuModel, m: MemModel, n: nat)
    requires
        p.wf(),
        m.wf(),
        lcd_on(m),
        p.position() + n <= 70224,
    ensures
        p.run(m, n).2 == if p.position() < 144 * 456 && p.position() + n >= 144 * 456 {
            1nat
        } else {
            0nat
        },
    decreases n,
{
    if n > 0 {
        lemma_tick_position(p, m);
        let (p1, m1, ready) = p.tick(m);
        lemma_run_frames(p1, m1, (n - 1) as nat);
    }
}

/// Running the PPU for exactly one frame's worth of dots (70 224) from its
/// power-on state, with the LCD on, completes exactly one frame.
pub proof fn lemma_one_frame_per_70224_dots(m: MemModel)
    requires
        m.wf(),
        lcd_on(m),
    ensures
        PpuModel::power_on().run(m, 70224).2 == 1,
{
    assert(PpuModel::power_on().wf());
    lemma_run_frames(PpuModel::power_on(), m, 70224);
}

/// With the LCD off, any number of dots change neither the PPU nor memory and complete no frame.
pub proof fn lemma_lcd_off_frozen(p: PpuModel, m: MemModel, n: nat)
    requires
        !lcd_on(m),
    ensures
        p.run(m, n) == (p, m, 0nat),
    decreases n,
{
    if n > 0 {
        lemma_lcd_off_frozen(p, m, (n - 1) as nat);
    }
}

impl Default for Ppu {
    fn default() -> (r: Self)
        ensures
            r.wf(),
            r@ == PpuModel::power_on(),
    {
        Ppu::new()
    }
}

} // verus!
