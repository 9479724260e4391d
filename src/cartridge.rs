//! Cartridge images: the header fields the emulator reads.

use vstd::prelude::*;

verus! {

/// The smallest image with a complete header.
pub const MIN_ROM_LEN: usize = 0x150;

/// First byte of the title in the header.
pub const TITLE_START: usize = 0x134;

/// Length of the title field in the header.
pub const TITLE_LEN: usize = 16;

/// What the UTF-8 decoding of a byte string gives, invalid sequences replaced.
pub uninterp spec fn lossy_text(b: Seq<u8>) -> Seq<char>;

/// Relies on `String::from_utf8_lossy`: the text depends on the bytes alone.
#[verifier::external_body]
fn text_of(bytes: &[u8]) -> (r: String)
    ensures
        r@ == lossy_text(bytes@),
{
    String::from_utf8_lossy(bytes).into_owned()
}

/// Why an image cannot be used as a cartridge.
#[derive(Clone, Copy, Debug, PartialEq, Eq, Structural)]
pub enum CartridgeError {
    /// The image is shorter than its header (0x150 bytes).
    TooSmall,
}

/// The length of `s` without its trailing zero bytes.
pub open spec fn trimmed_len(s: Seq<u8>) -> nat
    decreases s.len(),
{
    if s.len() == 0 {
        0
    } else if s.last() == 0 {
        trimmed_len(s.drop_last())
    } else {
        s.len()
    }
}

/// The header's title bytes with trailing NULs removed.
pub open spec fn title_bytes(rom: Seq<u8>) -> Seq<u8> {
    let field = rom.subrange(TITLE_START as int, TITLE_START + TITLE_LEN);
    field.take(trimmed_len(field) as int)
}

/// ROM size in bytes for header code `code`: 32 KiB << code (codes above 15 name no size).
pub open spec fn rom_size_of(code: u8) -> nat {
    if code <= 15 {
        (32768u64 << code) as nat
    } else {
        0
    }
}

/// External RAM size in bytes for header code `code`.
pub open spec fn ram_size_of(code: u8) -> nat {
    if code == 1 {
        2 * 1024
    } else if code == 2 {
        8 * 1024
    } else if code == 3 {
        32 * 1024
    } else if code == 4 {
        128 * 1024
    } else if code == 5 {
        64 * 1024
    } else {
        0
    }
}

/// The name of cartridge type `t`.
pub open spec fn kind_name(t: u8) -> Seq<char> {
    if t == 0x00 {
        "ROM ONLY"@
    } else if t == 0x01 {
        "MBC1"@
    } else if t == 0x02 {
        "MBC1+RAM"@
    } else if t == 0x03 {
        "MBC1+RAM+BATTERY"@
    } else if t == 0x05 {
        "MBC2"@
    } else if t == 0x06 {
        "MBC2+BATTERY"@
    } else if t == 0x08 {
        "ROM+RAM"@
    } else if t == 0x09 {
        "ROM+RAM+BATTERY"@
    } else if t == 0x0F {
        "MBC3+TIMER+BATTERY"@
    } else if t == 0x10 {
        "MBC3+TIMER+RAM+BATTERY"@
    } else if t == 0x11 {
        "MBC3"@
    } else if t == 0x12 {
        "MBC3+RAM"@
    } else if t == 0x13 {
        "MBC3+RAM+BATTERY"@
    } else if t == 0x19 {
        "MBC5"@
    } else if t == 0x1A {
        "MBC5+RAM"@
    } else if t == 0x1B {
        "MBC5+RAM+BATTERY"@
    } else {
        "UNKNOWN"@
    }
}

/// A cartridge image and the header fields read from it.
pub struct Cartridge {
    /// The whole image.
    pub rom: Vec<u8>,
    /// The title, NUL-trimmed.
    pub title: String,
    /// Cartridge type (which controller the board has).
    pub cartridge_type: u8,
    /// ROM size in bytes, from the size code.
    pub rom_size: usize,
    /// External RAM size in bytes, from the size code.
    pub ram_size: usize,
}

impl Cartridge {
    /// Reads the header of an image. Images shorter than 0x150 bytes are rejected.
    pub fn from_rom(rom: Vec<u8>) -> (r: Result<Cartridge, CartridgeError>)
        ensures
            rom@.len() < MIN_ROM_LEN <==> r is Err,
            r is Err ==> r == Err::<Cartridge, CartridgeError>(CartridgeError::TooSmall),
            r matches Ok(c) ==> {
                &&& c.rom@ == rom@
                &&& c.title@ == lossy_text(title_bytes(rom@))
                &&& c.cartridge_type == rom@[0x147]
                &&& c.rom_size == rom_size_of(rom@[0x148])
                &&& c.ram_size == ram_size_of(rom@[0x149])
            },
    {
        if rom.len() < MIN_ROM_LEN {
            return Err(CartridgeError::TooSmall);
        }
        let mut end: usize = TITLE_LEN;
        let ghost field = rom@.subrange(TITLE_START as int, TITLE_START + TITLE_LEN);
        assert(field.take(TITLE_LEN as int) =~= field);
        while end > 0 && rom[TITLE_START + end - 1] == 0
            invariant
                end <= TITLE_LEN,
                rom@.len() >= MIN_ROM_LEN,
                field == rom@.subrange(TITLE_START as int, TITLE_START + TITLE_LEN),
                trimmed_len(field.take(end as int)) == trimmed_len(field),
            decreases end,
        {
            assert(field.take(end as int).drop_last() =~= field.take(end - 1));
            end = end - 1;
        }
        assert(trimmed_len(field.take(end as int)) == end);
        let title_slice = slice_range(rom.as_slice(), TITLE_START, TITLE_START + end);
        assert(title_slice@ =~= title_bytes(rom@));
        let title = text_of(title_slice);
        let cartridge_type = rom[0x147];
        let rom_size_code = rom[0x148];
        let rom_size: usize = if rom_size_code <= 15 {
            assert((32768u64 << rom_size_code) <= 0x4000_0000) by (bit_vector)
                requires
                    rom_size_code <= 15,
            ;
            (32768u64 << rom_size_code) as usize
        } else {
            0
        };
        let ram_size_code = rom[0x149];
        let ram_size: usize = if ram_size_code == 1 {
            2 * 1024
        } else if ram_size_code == 2 {
            8 * 1024
        } else if ram_size_code == 3 {
            32 * 1024
        } else if ram_size_code == 4 {
            128 * 1024
        } else if ram_size_code == 5 {
            64 * 1024
        } else {
            0
        };
        Ok(Cartridge { rom, title, cartridge_type, rom_size, ram_size })
    }

    /// The name of the cartridge type.
    pub fn cartridge_type_name(&self) -> (r: &'static str)
        ensures
            r@ == kind_name(self.cartridge_type),
    {
        match self.cartridge_type {
            0x00 => "ROM ONLY",
            0x01 => "MBC1",
            0x02 => "MBC1+RAM",
            0x03 => "MBC1+RAM+BATTERY",
            0x05 => "MBC2",
            0x06 => "MBC2+BATTERY",
            0x08 => "ROM+RAM",
            0x09 => "ROM+RAM+BATTERY",
            0x0F => "MBC3+TIMER+BATTERY",
            0x10 => "MBC3+TIMER+RAM+BATTERY",
            0x11 => "MBC3",
            0x12 => "MBC3+RAM",
            0x13 => "MBC3+RAM+BATTERY",
            0x19 => "MBC5",
            0x1A => "MBC5+RAM",
            0x1B => "MBC5+RAM+BATTERY",
            _ => "UNKNOWN",
        }
    }
}

/// A subslice of `s`.
fn slice_range(s: &[u8], start: usize, end: usize) -> (r: &[u8])
    requires
        start <= end <= s@.len(),
    ensures
        r@ == s@.subrange(start as int, end as int),
{
    vstd::slice::slice_subrange(s, start, end)
}

} // verus!
