//! The memory map: ROM banks behind an MBC1 controller, VRAM, external RAM,
//! WRAM and its echo, OAM, I/O registers, HRAM and IE, plus the OAM DMA engine.

use vstd::prelude::*;

verus! {

/// Number of bytes one OAM DMA transfer copies.
pub const DMA_LENGTH: u8 = 160;

/// Everything the memory map holds, as mathematical values.
pub struct MemModel {
    pub rom: Seq<u8>,
    pub vram: Seq<u8>,
    pub eram: Seq<u8>,
    pub wram: Seq<u8>,
    pub oam: Seq<u8>,
    pub io: Seq<u8>,
    pub hram: Seq<u8>,
    pub ie: u8,
    pub ram_enabled: bool,
    pub rom_bank: u8,
    pub ram_bank: u8,
    pub banking_mode: bool,
    pub dma_active: bool,
    pub dma_source: u16,
    pub dma_progress: u8,
    pub serial: Seq<u8>,
    pub boot_rom_enabled: bool,
    pub doctor_mode: bool,
}

impl MemModel {
    /// Region sizes and the ranges of the banking and DMA registers.
    pub open spec fn wf(self) -> bool {
        &&& self.vram.len() == 0x2000
        &&& self.eram.len() == 0x2000
        &&& self.wram.len() == 0x2000
        &&& self.oam.len() == 0xA0
        &&& self.io.len() == 0x80
        &&& self.hram.len() == 0x7F
        &&& 1 <= self.rom_bank <= 31
        &&& self.ram_bank <= 3
        &&& self.dma_source % 256 == 0
        &&& self.dma_progress <= 160
        &&& (self.dma_active ==> self.dma_progress < 160)
    }

    /// A ROM byte, or 0xFF past the end of the image.
    pub open spec fn rom_at(self, i: int) -> u8 {
        if 0 <= i < self.rom.len() {
            self.rom[i]
        } else {
            0xFF
        }
    }

    /// The bank mapped at 0x0000-0x3FFF.
    pub open spec fn low_bank(self) -> int {
        if self.banking_mode {
            self.ram_bank as int * 32
        } else {
            0
        }
    }

    /// The bank mapped at 0x4000-0x7FFF; bank 0 is promoted to 1.
    pub open spec fn high_bank(self) -> int {
        let b = self.ram_bank as int * 32 + self.rom_bank as int;
        if b == 0 {
            1
        } else {
            b
        }
    }

    /// The external RAM bank mapped at 0xA000-0xBFFF.
    pub open spec fn eram_bank(self) -> int {
        if self.banking_mode {
            self.ram_bank as int
        } else {
            0
        }
    }

    /// The byte a read of `addr` returns.
    pub open spec fn read(self, addr: u16) -> u8 {
        if addr <= 0x3FFF {
            self.rom_at(self.low_bank() * 0x4000 + addr)
        } else if addr <= 0x7FFF {
            self.rom_at(self.high_bank() * 0x4000 + (addr - 0x4000))
        } else if addr <= 0x9FFF {
            self.vram[addr - 0x8000]
        } else if addr <= 0xBFFF {
            let i = self.eram_bank() * 0x2000 + (addr - 0xA000);
            if !self.ram_enabled || i >= self.eram.len() {
                0xFF
            } else {
                self.eram[i]
            }
        } else if addr <= 0xDFFF {
            self.wram[addr - 0xC000]
        } else if addr <= 0xFDFF {
            self.wram[addr - 0xE000]
        } else if addr <= 0xFE9F {
            self.oam[addr - 0xFE00]
        } else if addr <= 0xFEFF {
            0xFF
        } else if addr <= 0xFF7F {
            if self.doctor_mode && addr == 0xFF44 {
                0x90
            } else {
                self.io[addr - 0xFF00]
            }
        } else if addr <= 0xFFFE {
            self.hram[addr - 0xFF80]
        } else {
            self.ie
        }
    }

    /// The little-endian word at `addr` and the byte after it (wrapping).
    pub open spec fn read_word(self, addr: u16) -> u16 {
        (self.read(addr) as int + self.read(add16(addr, 1)) as int * 256) as u16
    }

    /// The effect of a write to an I/O register, `k` being its offset from 0xFF00.
    pub open spec fn write_io(self, k: int, v: u8) -> MemModel {
        if k == 0x01 {
            MemModel {
                io: self.io.update(k, v),
                serial: if 0x20 <= v <= 0x7E {
                    self.serial.push(v)
                } else {
                    self.serial
                },
                ..self
            }
        } else if k == 0x02 {
            MemModel {
                io: self.io.update(k, if v & 0x80 != 0 { v & 0x7F } else { v }),
                ..self
            }
        } else if k == 0x04 {
            MemModel { io: self.io.update(k, 0), ..self }
        } else if k == 0x46 {
            MemModel {
                io: self.io.update(k, v),
                dma_source: (v as int * 256) as u16,
                dma_active: true,
                dma_progress: 0,
                ..self
            }
        } else if k == 0x50 && v != 0 {
            MemModel { io: self.io.update(k, v), boot_rom_enabled: false, ..self }
        } else {
            MemModel { io: self.io.update(k, v), ..self }
        }
    }

    /// The memory after a write of `v` to `addr`.
    pub open spec fn write(self, addr: u16, v: u8) -> MemModel {
        if addr <= 0x1FFF {
            MemModel { ram_enabled: v & 0x0F == 0x0A, ..self }
        } else if addr <= 0x3FFF {
            MemModel {
                rom_bank: if v & 0x1F == 0 {
                    1
                } else {
                    v & 0x1F
                },
                ..self
            }
        } else if addr <= 0x5FFF {
            MemModel { ram_bank: v & 0x03, ..self }
        } else if addr <= 0x7FFF {
            MemModel { banking_mode: v & 0x01 == 0x01, ..self }
        } else if addr <= 0x9FFF {
            MemModel { vram: self.vram.update(addr - 0x8000, v), ..self }
        } else if addr <= 0xBFFF {
            let i = self.eram_bank() * 0x2000 + (addr - 0xA000);
            if !self.ram_enabled || i >= self.eram.len() {
                self
            } else {
                MemModel { eram: self.eram.update(i, v), ..self }
            }
        } else if addr <= 0xDFFF {
            MemModel { wram: self.wram.update(addr - 0xC000, v), ..self }
        } else if addr <= 0xFDFF {
            MemModel { wram: self.wram.update(addr - 0xE000, v), ..self }
        } else if addr <= 0xFE9F {
            MemModel { oam: self.oam.update(addr - 0xFE00, v), ..self }
        } else if addr <= 0xFEFF {
            self
        } else if addr <= 0xFF7F {
            self.write_io(addr - 0xFF00, v)
        } else if addr <= 0xFFFE {
            MemModel { hram: self.hram.update(addr - 0xFF80, v), ..self }
        } else {
            MemModel { ie: v, ..self }
        }
    }

    /// The memory after a little-endian word write at `addr`.
    pub open spec fn write_word(self, addr: u16, v: u16) -> MemModel {
        self.write(addr, (v as int % 256) as u8).write(add16(addr, 1), (v as int / 256) as u8)
    }

    /// The byte OAM DMA copies from `addr`: memory regions are read raw,
    /// without banking or RAM gating, and everything from OAM up reads 0xFF.
    pub open spec fn dma_read(self, addr: int) -> u8 {
        if addr <= 0x7FFF {
            self.rom_at(addr)
        } else if addr <= 0x9FFF {
            self.vram[addr - 0x8000]
        } else if addr <= 0xBFFF {
            self.eram[addr - 0xA000]
        } else if addr <= 0xDFFF {
            self.wram[addr - 0xC000]
        } else if addr <= 0xFDFF {
            self.wram[addr - 0xE000]
        } else {
            0xFF
        }
    }

    /// One M-cycle of OAM DMA.
    pub open spec fn dma_step(self) -> MemModel {
        if !self.dma_active {
            self
        } else {
            let p = self.dma_progress;
            MemModel {
                oam: self.oam.update(
                    p as int,
                    self.dma_read(self.dma_source as int + p as int),
                ),
                dma_progress: (p + 1) as u8,
                dma_active: p + 1 < 160,
                ..self
            }
        }
    }

    /// `n` M-cycles of OAM DMA.
    pub open spec fn dma_steps(self, n: nat) -> MemModel
        decreases n,
    {
        if n == 0 {
            self
        } else {
            self.dma_steps((n - 1) as nat).dma_step()
        }
    }

    /// The memory after the DIV counter steps once (bypassing the reset on write).
    pub open spec fn div_incremented(self) -> MemModel {
        MemModel { io: self.io.update(0x04, add8(self.io[0x04], 1)), ..self }
    }

    /// Memory as created for a cartridge, before the post-boot I/O defaults.
    pub open spec fn blank(rom: Seq<u8>) -> MemModel {
        MemModel {
            rom,
            vram: Seq::new(0x2000, |i: int| 0u8),
            eram: Seq::new(0x2000, |i: int| 0u8),
            wram: Seq::new(0x2000, |i: int| 0u8),
            oam: Seq::new(0xA0, |i: int| 0u8),
            io: Seq::new(0x80, |i: int| 0u8),
            hram: Seq::new(0x7F, |i: int| 0u8),
            ie: 0,
            ram_enabled: false,
            rom_bank: 1,
            ram_bank: 0,
            banking_mode: false,
            dma_active: false,
            dma_source: 0,
            dma_progress: 0,
            serial: Seq::empty(),
            boot_rom_enabled: false,
            doctor_mode: false,
        }
    }

    /// Memory at power-on: blank, then LCDC=0x91, STAT=0x81 and BGP=0xFC.
    pub open spec fn power_on(rom: Seq<u8>) -> MemModel {
        MemModel::blank(rom).write(0xFF40, 0x91).write(0xFF41, 0x81).write(0xFF47, 0xFC)
    }
}

/// A write keeps the memory well formed.
pub proof fn lemma_write_wf(m: MemModel, addr: u16, v: u8)
    requires
        m.wf(),
    ensures
        m.write(addr, v).wf(),
{
    assert(v & 0x1F <= 31 && v & 0x03 <= 3) by (bit_vector);
}

/// The echo region reads as the WRAM 0x2000 below it.
pub proof fn lemma_echo_read(m: MemModel, addr: u16)
    requires
        m.wf(),
        0xE000 <= addr <= 0xFDFF,
    ensures
        m.read(addr) == m.read((addr - 0x2000) as u16),
{
}

/// A write to the echo region is seen in WRAM 0x2000 below it.
pub proof fn lemma_echo_write(m: MemModel, k: u16, v: u8)
    requires
        m.wf(),
        k < 0x1E00,
    ensures
        m.write((0xE000 + k) as u16, v).read((0xC000 + k) as u16) == v,
{
}

/// The unusable region 0xFEA0-0xFEFF always reads 0xFF, and writes there change nothing.
pub proof fn lemma_unusable(m: MemModel, addr: u16, v: u8)
    requires
        0xFEA0 <= addr <= 0xFEFF,
    ensures
        m.read(addr) == 0xFF,
        m.write(addr, v) == m,
{
}

/// Whatever is written to DIV, it then reads 0.
pub proof fn lemma_div_reset(m: MemModel, v: u8)
    requires
        m.wf(),
    ensures
        m.write(0xFF04, v).read(0xFF04) == 0,
{
}

/// While a transfer started from a clean state runs, its first `k` bytes are in
/// OAM, the regions it reads from are untouched and it is active until 160.
proof fn lemma_dma_progress(m: MemModel, k: nat)
    requires
        m.wf(),
        m.dma_active,
        m.dma_progress == 0,
        k <= 160,
    ensures
        ({
            let mk = m.dma_steps(k);
            &&& mk.wf()
            &&& mk.dma_progress == k
            &&& mk.dma_active == (k < 160)
            &&& mk.dma_source == m.dma_source
            &&& mk.rom == m.rom && mk.vram == m.vram && mk.eram == m.eram && mk.wram == m.wram
            &&& mk.io == m.io && mk.hram == m.hram && mk.ie == m.ie && mk.doctor_mode == m.doctor_mode
            &&& forall|i: int|
                0 <= i < k ==> #[trigger] mk.oam[i] == m.dma_read(m.dma_source as int + i)
        }),
    decreases k,
{
    if k > 0 {
        lemma_dma_progress(m, (k - 1) as nat);
    }
}

/// OAM DMA: after a write of `s` to 0xFF46 and 160 M-cycles of DMA the
/// transfer is over and OAM holds the 160 bytes from `s * 0x100` on. The
/// source is VRAM, WRAM or its echo: the regions DMA reads as a normal read does.
pub proof fn lemma_dma_copies(m: MemModel, s: u8)
    requires
        m.wf(),
        (0x80 <= s <= 0x9F) || (0xC0 <= s <= 0xFD),
    ensures
        ({
            let m2 = m.write(0xFF46, s).dma_steps(160);
            &&& !m2.dma_active
            &&& forall|i: int|
                0 <= i < 160 ==> #[trigger] m2.read((0xFE00 + i) as u16) == m.read(
                    (s as int * 256 + i) as u16,
                )
        }),
{
    let m1 = m.write(0xFF46, s);
    lemma_dma_progress(m1, 160);
    let m2 = m1.dma_steps(160);
    assert forall|i: int| 0 <= i < 160 implies #[trigger] m2.read((0xFE00 + i) as u16) == m.read(
        (s as int * 256 + i) as u16,
    ) by {
        assert(m2.oam[i] == m1.dma_read(m1.dma_source as int + i));
    }
}

/// `a + k` modulo 2^16.
pub open spec fn add16(a: u16, k: int) -> u16 {
    ((a as int + k) % 0x10000) as u16
}

/// `a + k` modulo 2^8.
pub open spec fn add8(a: u8, k: int) -> u8 {
    ((a as int + k) % 0x100) as u8
}

/// The memory-management unit. Its contents are described by `MemModel`.
pub struct Mmu {
    /// Whether the boot ROM is mapped; cleared for good by a nonzero write to 0xFF50.
    pub boot_rom_enabled: bool,
    rom: Vec<u8>,
    vram: Vec<u8>,
    eram: Vec<u8>,
    wram: Vec<u8>,
    oam: Vec<u8>,
    io_registers: Vec<u8>,
    hram: Vec<u8>,
    ie: u8,
    ram_enabled: bool,
    rom_bank: u8,
    ram_bank: u8,
    banking_mode: bool,
    dma_active: bool,
    dma_source: u16,
    dma_progress: u8,
    /// Printable bytes written to the serial data register, in order.
    pub serial_output: Vec<u8>,
    /// When set, reads of LY (0xFF44) return 0x90, for comparison with golden logs.
    pub doctor_mode: bool,
}

impl View for Mmu {
    type V = MemModel;

    closed spec fn view(&self) -> MemModel {
        MemModel {
            rom: self.rom@,
            vram: self.vram@,
            eram: self.eram@,
            wram: self.wram@,
            oam: self.oam@,
            io: self.io_registers@,
            hram: self.hram@,
            ie: self.ie,
            ram_enabled: self.ram_enabled,
            rom_bank: self.rom_bank,
            ram_bank: self.ram_bank,
            banking_mode: self.banking_mode,
            dma_active: self.dma_active,
            dma_source: self.dma_source,
            dma_progress: self.dma_progress,
            serial: self.serial_output@,
            boot_rom_enabled: self.boot_rom_enabled,
            doctor_mode: self.doctor_mode,
        }
    }
}

fn zeroed(n: usize) -> (r: Vec<u8>)
    ensures
        r@ == Seq::new(n as nat, |i: int| 0u8),
{
    let mut v: Vec<u8> = Vec::with_capacity(n);
    let mut i: usize = 0;
    while i < n
        invariant
            i <= n,
            v@ == Seq::new(i as nat, |j: int| 0u8),
        decreases n - i,
    {
        v.push(0);
        i = i + 1;
        assert(v@ =~= Seq::new(i as nat, |j: int| 0u8));
    }
    v
}

impl Mmu {
    pub open spec fn wf(&self) -> bool {
        self@.wf()
    }

    /// Memory for a cartridge image, with the post-boot I/O defaults applied.
    pub fn new(rom: Vec<u8>) -> (r: Self)
        ensures
            r.wf(),
            r@ == MemModel::power_on(rom@),
    {
        let mut mmu = Mmu {
            boot_rom_enabled: false,
            rom,
            vram: zeroed(0x2000),
            eram: zeroed(0x2000),
            wram: zeroed(0x2000),
            oam: zeroed(0xA0),
            io_registers: zeroed(0x80),
            hram: zeroed(0x7F),
            ie: 0,
            ram_enabled: false,
            rom_bank: 1,
            ram_bank: 0,
            banking_mode: false,
            dma_active: false,
            dma_source: 0,
            dma_progress: 0,
            serial_output: Vec::new(),
            doctor_mode: false,
        };
        assert(mmu@ == MemModel::blank(mmu.rom@));
        mmu.write_byte(0xFF40, 0x91);
        mmu.write_byte(0xFF41, 0x81);
        mmu.write_byte(0xFF47, 0xFC);
        mmu
    }

    fn rom_byte(&self, i: usize) -> (r: u8)
        ensures
            r == self@.rom_at(i as int),
    {
        if i < self.rom.len() {
            self.rom[i]
        } else {
            0xFF
        }
    }

    /// Reads the byte at `address`.
    pub fn read_byte(&self, address: u16) -> (r: u8)
        requires
            self.wf(),
        ensures
            r == self@.read(address),
    {
        if address <= 0x3FFF {
            let bank: usize = if self.banking_mode {
                (self.ram_bank as usize) * 32
            } else {
                0
            };
            self.rom_byte(bank * 0x4000 + address as usize)
        } else if address <= 0x7FFF {
            let bank: usize = (self.ram_bank as usize) * 32 + self.rom_bank as usize;
            let bank: usize = if bank == 0 {
                1
            } else {
                bank
            };
            self.rom_byte(bank * 0x4000 + (address - 0x4000) as usize)
        } else if address <= 0x9FFF {
            self.vram[(address - 0x8000) as usize]
        } else if address <= 0xBFFF {
            if !self.ram_enabled {
                return 0xFF;
            }
            let bank: usize = if self.banking_mode {
                self.ram_bank as usize
            } else {
                0
            };
            let i = bank * 0x2000 + (address - 0xA000) as usize;
            if i < self.eram.len() {
                self.eram[i]
            } else {
                0xFF
            }
        } else if address <= 0xDFFF {
            self.wram[(address - 0xC000) as usize]
        } else if address <= 0xFDFF {
            self.wram[(address - 0xE000) as usize]
        } else if address <= 0xFE9F {
            self.oam[(address - 0xFE00) as usize]
        } else if address <= 0xFEFF {
            0xFF
        } else if address <= 0xFF7F {
            if self.doctor_mode && address == 0xFF44 {
                0x90
            } else {
                self.io_registers[(address - 0xFF00) as usize]
            }
        } else if address <= 0xFFFE {
            self.hram[(address - 0xFF80) as usize]
        } else {
            self.ie
        }
    }

    fn write_io(&mut self, address: u16, value: u8)
        requires
            old(self).wf(),
            0xFF00 <= address <= 0xFF7F,
        ensures
            final(self)@ == old(self)@.write_io(address - 0xFF00, value),
            final(self).wf(),
    {
        let k = (address - 0xFF00) as usize;
        if address == 0xFF01 {
            self.io_registers[k] = value;
            if value >= 0x20 && value <= 0x7E {
                self.serial_output.push(value);
            }
        } else if address == 0xFF02 {
            self.io_registers[k] = value;
            if value & 0x80 != 0 {
                self.io_registers[k] = value & 0x7F;
            }
        } else if address == 0xFF04 {
            self.io_registers[k] = 0;
        } else if address == 0xFF46 {
            self.dma_source = (value as u16) * 256;
            self.dma_active = true;
            self.dma_progress = 0;
            self.io_registers[k] = value;
        } else if address == 0xFF50 && value != 0 {
            self.boot_rom_enabled = false;
            self.io_registers[k] = value;
        } else {
            self.io_registers[k] = value;
        }
        assert(self@.io =~= old(self)@.write_io(address - 0xFF00, value).io);
    }

    /// Writes `value` at `address`; writes to 0x0000-0x7FFF drive the MBC1.
    pub fn write_byte(&mut self, address: u16, value: u8)
        requires
            old(self).wf(),
        ensures
            final(self)@ == old(self)@.write(address, value),
            final(self).wf(),
    {
        if address <= 0x1FFF {
            self.ram_enabled = (value & 0x0F) == 0x0A;
        } else if address <= 0x3FFF {
            let bank = value & 0x1F;
            assert(bank <= 31) by (bit_vector)
                requires
                    bank == value & 0x1F,
            ;
            self.rom_bank = if bank == 0 {
                1
            } else {
                bank
            };
        } else if address <= 0x5FFF {
            let bank = value & 0x03;
            assert(bank <= 3) by (bit_vector)
                requires
                    bank == value & 0x03,
            ;
            self.ram_bank = bank;
        } else if address <= 0x7FFF {
            self.banking_mode = (value & 0x01) == 0x01;
        } else if address <= 0x9FFF {
            self.vram[(address - 0x8000) as usize] = value;
        } else if address <= 0xBFFF {
            if !self.ram_enabled {
                return;
            }
            let bank: usize = if self.banking_mode {
                self.ram_bank as usize
            } else {
                0
            };
            let i = bank * 0x2000 + (address - 0xA000) as usize;
            if i < self.eram.len() {
                self.eram[i] = value;
            }
        } else if address <= 0xDFFF {
            self.wram[(address - 0xC000) as usize] = value;
        } else if address <= 0xFDFF {
            self.wram[(address - 0xE000) as usize] = value;
        } else if address <= 0xFE9F {
            self.oam[(address - 0xFE00) as usize] = value;
        } else if address <= 0xFEFF {
        } else if address <= 0xFF7F {
            self.write_io(address, value);
        } else if address <= 0xFFFE {
            self.hram[(address - 0xFF80) as usize] = value;
        } else {
            self.ie = value;
        }
    }

    /// Reads the little-endian word at `address`.
    pub fn read_word(&self, address: u16) -> (r: u16)
        requires
            self.wf(),
        ensures
            r == self@.read_word(address),
    {
        let low = self.read_byte(address) as u16;
        let high = self.read_byte(address.wrapping_add(1)) as u16;
        high * 256 + low
    }

    /// Writes `value` little-endian at `address`.
    pub fn write_word(&mut self, address: u16, value: u16)
        requires
            old(self).wf(),
        ensures
            final(self)@ == old(self)@.write_word(address, value),
            final(self).wf(),
    {
        self.write_byte(address, (value % 256) as u8);
        self.write_byte(address.wrapping_add(1), (value / 256) as u8);
    }

    fn dma_byte(&self, addr: u16) -> (r: u8)
        requires
            self.wf(),
        ensures
            r == self@.dma_read(addr as int),
    {
        if addr <= 0x7FFF {
            self.rom_byte(addr as usize)
        } else if addr <= 0x9FFF {
            self.vram[(addr - 0x8000) as usize]
        } else if addr <= 0xBFFF {
            self.eram[(addr - 0xA000) as usize]
        } else if addr <= 0xDFFF {
            self.wram[(addr - 0xC000) as usize]
        } else if addr <= 0xFDFF {
            self.wram[(addr - 0xE000) as usize]
        } else {
            0xFF
        }
    }

    /// Advances OAM DMA by one M-cycle: copies one byte while a transfer is active.
    pub fn tick_dma(&mut self)
        requires
            old(self).wf(),
        ensures
            final(self)@ == old(self)@.dma_step(),
            final(self).wf(),
    {
        if !self.dma_active {
            return;
        }
        let source_addr = self.dma_source + self.dma_progress as u16;
        let byte = self.dma_byte(source_addr);
        self.oam[self.dma_progress as usize] = byte;
        self.dma_progress = self.dma_progress + 1;
        if self.dma_progress >= DMA_LENGTH {
            self.dma_active = false;
        }
    }

    /// Steps DIV by one, bypassing the reset that a write to 0xFF04 causes.
    pub fn increment_div(&mut self)
        requires
            old(self).wf(),
        ensures
            final(self)@ == old(self)@.div_incremented(),
            final(self).wf(),
    {
        self.io_registers[0x04] = self.io_registers[0x04].wrapping_add(1);
    }
}

} // verus!
