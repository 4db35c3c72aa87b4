//! The cartridge header (0x0100 - 0x014F) and the bank controller it asks
//! for.
use vstd::prelude::*;
use crate::mbc::Mbc;
use crate::mbc::mbc1::{Mbc1, ROM_BANK_SIZE, RAM_BANK_SIZE};
use crate::mbc::mbc3::{Mbc3, Mbc3Features, mbc3_features_of, restored_latched, restored_running};
use crate::mbc::mbc5::Mbc5;
use crate::mbc::mbc_none::{MbcNone, ROM_SIZE};
use crate::memory::Memory;

verus! {

/// The first byte after the header.
pub const HEADER_END: usize = 0x0150;

/// A hardware feature named by the cartridge type byte.
#[derive(Clone, Copy, PartialEq, Eq, Structural, Debug)]
pub enum CartFeature {
    RomOnly,
    Mbc1,
    Mbc2,
    Mbc3,
    Mbc5,
    Mbc6,
    Mbc7,
    Mmm01,
    Rom,
    Ram,
    Battery,
    Timer,
    Rumble,
    Sensor,
    PocketCamera,
    BandaiTama5,
    HuC3,
    HuC1,
}

/// The controller kinds this emulator can build.
#[derive(Clone, Copy, PartialEq, Eq, Structural, Debug)]
pub enum MbcKind {
    NoMbc,
    Mbc1,
    Mbc3,
    Mbc5,
}

pub struct Cartridge {
    pub entry_point: [u8; 4],  // 0100-0103 - Entry Point, boot jumps here after Nintendo Logo
    pub logo: [u8; 48],  // Nintendo Logo, On boot verifies the contents of this map or locks up
    pub title: [u8; 16],  // Title in uppercase ascii, if less than 16 chars, filled with 0x00
    pub new_lisc_code: [u8; 2],
    pub cartridge_type: u8,
    pub rom_size: u8,
    pub ram_size: u8,
    pub dest_code: u8,
    pub old_lisc_code: u8,
    pub rom_version: u8,
    pub checksum_val: u8,
}

/// The ROM size and bank count of a ROM size code (banks of 16 KiB).
pub open spec fn rom_size_of(code: u8) -> Option<(usize, usize)> {
    if code == 0x00 {
        Some((32_768usize, 2usize))
    } else if code == 0x01 {
        Some((65_536usize, 4usize))
    } else if code == 0x02 {
        Some((131_072usize, 8usize))
    } else if code == 0x03 {
        Some((262_144usize, 16usize))
    } else if code == 0x04 {
        Some((524_288usize, 32usize))
    } else if code == 0x05 {
        Some((1_048_576usize, 64usize))
    } else if code == 0x06 {
        Some((2_097_152usize, 128usize))
    } else if code == 0x07 {
        Some((4_194_304usize, 256usize))
    } else if code == 0x08 {
        Some((8_388_608usize, 512usize))
    } else {
        None
    }
}

/// The RAM size and bank count of a RAM size code (banks of 8 KiB).
pub open spec fn ram_size_of(code: u8) -> Option<(usize, usize)> {
    if code == 0x00 {
        Some((0usize, 0usize))
    } else if code == 0x02 {
        Some((8_192usize, 1usize))
    } else if code == 0x03 {
        Some((32_768usize, 4usize))
    } else if code == 0x04 {
        Some((131_072usize, 16usize))
    } else if code == 0x05 {
        Some((65_536usize, 8usize))
    } else {
        None
    }
}

/// The cartridge type bytes the header may hold.
pub open spec fn is_known_type(t: u8) -> bool {
    t == 0x00 || t == 0x01 || t == 0x02 || t == 0x03 || t == 0x05 || t == 0x06 || t == 0x08
        || t == 0x09 || t == 0x0B || t == 0x0C || t == 0x0D || t == 0x0F || t == 0x10 || t == 0x11
        || t == 0x12 || t == 0x13 || t == 0x19 || t == 0x1A || t == 0x1B || t == 0x1C || t == 0x1D
        || t == 0x1E || t == 0x20 || t == 0x22 || t == 0xFC || t == 0xFD || t == 0xFE || t == 0xFF
}

/// Whether the header may hold the cartridge type byte `t`.
pub fn known_type(t: u8) -> (b: bool)
    ensures
        b == is_known_type(t),
{
    t == 0x00 || t == 0x01 || t == 0x02 || t == 0x03 || t == 0x05 || t == 0x06 || t == 0x08
        || t == 0x09 || t == 0x0B || t == 0x0C || t == 0x0D || t == 0x0F || t == 0x10 || t == 0x11
        || t == 0x12 || t == 0x13 || t == 0x19 || t == 0x1A || t == 0x1B || t == 0x1C || t == 0x1D
        || t == 0x1E || t == 0x20 || t == 0x22 || t == 0xFC || t == 0xFD || t == 0xFE || t == 0xFF
}

/// The controller this emulator builds for a cartridge type, if any.
pub open spec fn kind_of(t: u8) -> Option<MbcKind> {
    if t == 0x00 {
        Some(MbcKind::NoMbc)
    } else if t == 0x01 || t == 0x02 || t == 0x03 {
        Some(MbcKind::Mbc1)
    } else if 0x0F <= t <= 0x13 {
        Some(MbcKind::Mbc3)
    } else if t == 0x19 || t == 0x1A || t == 0x1B {
        Some(MbcKind::Mbc5)
    } else {
        None
    }
}

/// Whether the cartridge type names RAM (and so has RAM banks to select).
pub open spec fn has_ram(t: u8) -> bool {
    t == 0x02 || t == 0x03 || t == 0x10 || t == 0x12 || t == 0x13 || t == 0x1A || t == 0x1B
}

/// Whether the cartridge type keeps its RAM on a battery.
pub open spec fn has_battery_ram(t: u8) -> bool {
    t == 0x03 || t == 0x10 || t == 0x13 || t == 0x1B
}

/// The header checksum over bytes 0x0134 - 0x014C: starting from 0, each
/// byte and 1 are subtracted (mod 256).
pub open spec fn header_checksum(bytes: Seq<u8>) -> u8 {
    checksum_from(bytes, 0x0134)
}

pub open spec fn checksum_from(bytes: Seq<u8>, i: int) -> u8
    decreases 0x014D - i,
{
    if i >= 0x014D {
        0
    } else {
        ((checksum_from(bytes, i + 1) - bytes[i] - 1 + 512) % 256) as u8
    }
}

impl Cartridge {
    /// The header fields hold the bytes at their header offsets.
    pub open spec fn holds_header(&self, b: Seq<u8>) -> bool {
        &&& self.entry_point@ == b.subrange(0x0100, 0x0104)
        &&& self.logo@ == b.subrange(0x0104, 0x0134)
        &&& self.title@ == b.subrange(0x0134, 0x0144)
        &&& self.new_lisc_code@ == b.subrange(0x0144, 0x0146)
        &&& self.cartridge_type == b[0x0147]
        &&& self.rom_size == b[0x0148]
        &&& self.ram_size == b[0x0149]
        &&& self.dest_code == b[0x014A]
        &&& self.old_lisc_code == b[0x014B]
        &&& self.rom_version == b[0x014C]
        &&& self.checksum_val == b[0x014D]
    }

    /// The header of an image this emulator can run: known sizes, a type
    /// it has a controller for, and the image as long as the ROM size says.
    pub open spec fn runs(b: Seq<u8>) -> bool {
        &&& b.len() >= HEADER_END
        &&& rom_size_of(b[0x0148]) is Some
        &&& ram_size_of(b[0x0149]) is Some
        &&& kind_of(b[0x0147]) is Some
        &&& b.len() >= rom_size_of(b[0x0148]).unwrap().1 * ROM_BANK_SIZE
        &&& kind_of(b[0x0147]) == Some(MbcKind::Mbc3) && has_ram(b[0x0147]) ==> ram_size_of(
            b[0x0149],
        ).unwrap().1 > 0
    }

    pub fn new() -> (c: Cartridge)
        ensures
            forall|i: int| 0 <= i < 4 ==> c.entry_point@[i] == 0,
            forall|i: int| 0 <= i < 48 ==> c.logo@[i] == 0,
            forall|i: int| 0 <= i < 16 ==> c.title@[i] == 0,
            c.new_lisc_code@ == seq![0u8, 0u8],
            c.cartridge_type == 0 && c.rom_size == 0 && c.ram_size == 0 && c.dest_code == 0,
            c.old_lisc_code == 0 && c.rom_version == 0 && c.checksum_val == 0,
    {
        Cartridge {
            entry_point: [0; 4],
            logo: [0; 48],
            title: [0; 16],
            new_lisc_code: [0; 2],
            cartridge_type: 0,
            rom_size: 0,
            ram_size: 0,
            dest_code: 0,
            old_lisc_code: 0,
            rom_version: 0,
            checksum_val: 0,
        }
    }
    /// Copies the header fields out of the cartridge image.
    pub fn read_header(&mut self, game_bytes: &Vec<u8>)
        requires
            game_bytes@.len() >= HEADER_END,
        ensures
            final(self).holds_header(game_bytes@),
    {
        let b = game_bytes;
        self.entry_point = [
                b[0x100],
                b[0x101],
                b[0x102],
                b[0x103],
            ];
        self.logo = [
                b[0x104],
                b[0x105],
                b[0x106],
                b[0x107],
                b[0x108],
                b[0x109],
                b[0x10a],
                b[0x10b],
                b[0x10c],
                b[0x10d],
                b[0x10e],
                b[0x10f],
                b[0x110],
                b[0x111],
                b[0x112],
                b[0x113],
                b[0x114],
                b[0x115],
                b[0x116],
                b[0x117],
                b[0x118],
                b[0x119],
                b[0x11a],
                b[0x11b],
                b[0x11c],
                b[0x11d],
                b[0x11e],
                b[0x11f],
                b[0x120],
                b[0x121],
                b[0x122],
                b[0x123],
                b[0x124],
                b[0x125],
                b[0x126],
                b[0x127],
                b[0x128],
                b[0x129],
                b[0x12a],
                b[0x12b],
                b[0x12c],
                b[0x12d],
                b[0x12e],
                b[0x12f],
                b[0x130],
                b[0x131],
                b[0x132],
                b[0x133],
            ];
        self.title = [
                b[0x134],
                b[0x135],
                b[0x136],
                b[0x137],
                b[0x138],
                b[0x139],
                b[0x13a],
                b[0x13b],
                b[0x13c],
                b[0x13d],
                b[0x13e],
                b[0x13f],
                b[0x140],
                b[0x141],
                b[0x142],
                b[0x143],
            ];
        self.new_lisc_code = [b[0x0144], b[0x0145]];
        self.cartridge_type = b[0x0147];
        self.rom_size = b[0x0148];
        self.ram_size = b[0x0149];
        self.dest_code = b[0x014A];
        self.old_lisc_code = b[0x014B];
        self.rom_version = b[0x014C];
        self.checksum_val = b[0x014D];
        assert(self.entry_point@ =~= b@.subrange(0x0100, 0x0104));
        assert(self.logo@ =~= b@.subrange(0x0104, 0x0134));
        assert(self.title@ =~= b@.subrange(0x0134, 0x0144));
        assert(self.new_lisc_code@ =~= b@.subrange(0x0144, 0x0146));
    }

    // Each bank is 16Kib in size
    /// The ROM size and its number of banks, for the codes this emulator
    /// knows.
    pub fn get_rom_size(&self) -> (r: Option<(usize, usize)>)
        ensures
            r == rom_size_of(self.rom_size),
    {
        match self.rom_size {
            0x00 => Some((32_768, 2)),  // No banking
            0x01 => Some((65_536, 4)),
            0x02 => Some((131_072, 8)),
            0x03 => Some((262_144, 16)),
            0x04 => Some((524_288, 32)),
            0x05 => Some((1_048_576, 64)),
            0x06 => Some((2_097_152, 128)),
            0x07 => Some((4_194_304, 256)),
            0x08 => Some((8_388_608, 512)),
            _ => None,
        }
    }

    // MBC2 will say 00 but it includes a builtin 512x4 bits
    /// The RAM size and its number of banks, for the codes this emulator
    /// knows.
    pub fn get_ram_size(&self) -> (r: Option<(usize, usize)>)
        ensures
            r == ram_size_of(self.ram_size),
    {
        match self.ram_size {
            0x00 => Some((0, 0)),
            0x02 => Some((8_192, 1)),  // 1 Bank
            0x03 => Some((32_768, 4)),  // 4 Banks of 8KB
            0x04 => Some((131_072, 16)),  // 16 Banks of 8KB
            0x05 => Some((65_536, 8)),  // 8 Banks of 8KB
            _ => None,
        }
    }

    /// The controller this emulator builds for the cartridge type, if it
    /// has one, and the features the type names.
    pub fn get_cartridge_type(&self) -> (r: (Option<MbcKind>, Vec<CartFeature>))
        requires
            is_known_type(self.cartridge_type),
        ensures
            r.0 == kind_of(self.cartridge_type),
            r.1@ == features_of(self.cartridge_type),
    {
        let t = self.cartridge_type;
        let kind = if t == 0x00 {
            Some(MbcKind::NoMbc)
        } else if t == 0x01 || t == 0x02 || t == 0x03 {
            Some(MbcKind::Mbc1)
        } else if t >= 0x0F && t <= 0x13 {
            Some(MbcKind::Mbc3)
        } else if t == 0x19 || t == 0x1A || t == 0x1B {
            Some(MbcKind::Mbc5)
        } else {
            None
        };
        let features = match t {
            0x00 => vec![CartFeature::RomOnly],
            0x01 => vec![CartFeature::Mbc1],
            0x02 => vec![CartFeature::Mbc1, CartFeature::Ram],
            0x03 => vec![CartFeature::Mbc1, CartFeature::Ram, CartFeature::Battery],
            0x05 => vec![CartFeature::Mbc2],
            0x06 => vec![CartFeature::Mbc2, CartFeature::Battery],
            0x08 => vec![CartFeature::Rom, CartFeature::Ram],
            0x09 => vec![CartFeature::Rom, CartFeature::Ram, CartFeature::Battery],
            0x0B => vec![CartFeature::Mmm01],
            0x0C => vec![CartFeature::Mmm01, CartFeature::Ram],
            0x0D => vec![CartFeature::Mmm01, CartFeature::Ram, CartFeature::Battery],
            0x0F => vec![CartFeature::Mbc3, CartFeature::Timer, CartFeature::Battery],
            0x10 => vec![CartFeature::Mbc3, CartFeature::Timer, CartFeature::Ram, CartFeature::Battery],
            0x11 => vec![CartFeature::Mbc3],
            0x12 => vec![CartFeature::Mbc3, CartFeature::Ram],
            0x13 => vec![CartFeature::Mbc3, CartFeature::Ram, CartFeature::Battery],
            0x19 => vec![CartFeature::Mbc5],
            0x1A => vec![CartFeature::Mbc5, CartFeature::Ram],
            0x1B => vec![CartFeature::Mbc5, CartFeature::Ram, CartFeature::Battery],
            0x1C => vec![CartFeature::Mbc5, CartFeature::Rumble],
            0x1D => vec![CartFeature::Mbc5, CartFeature::Rumble, CartFeature::Ram],
            0x1E => vec![CartFeature::Mbc5, CartFeature::Rumble, CartFeature::Ram, CartFeature::Battery],
            0x20 => vec![CartFeature::Mbc6],
            0x22 => vec![
                CartFeature::Mbc7,
                CartFeature::Sensor,
                CartFeature::Rumble,
                CartFeature::Ram,
                CartFeature::Battery,
            ],
            0xFC => vec![CartFeature::PocketCamera],
            0xFD => vec![CartFeature::BandaiTama5],
            0xFE => vec![CartFeature::HuC3],
            _ => vec![CartFeature::HuC1, CartFeature::Ram, CartFeature::Battery],
        };
        (kind, features)
    }

    /// Reads the header of `game_bytes` and builds its bank controller
    /// with the image installed: RAM starts from `battery_ram` when the
    /// cartridge keeps it on a battery, else zeroed; an MBC3 clock starts
    /// from `saved_clock` (the latched and running registers as second
    /// counts, none for a fresh save) moved on by `time_offline` seconds.
    pub fn read_cartridge_header(
        &mut self,
        game_bytes: Vec<u8>,
        battery_ram: Option<Vec<u8>>,
        saved_clock: Option<(u64, u64)>,
        time_offline: u64,
    ) -> (mbc: Mbc)
        requires
            Cartridge::runs(game_bytes@),
            battery_ram matches Some(r) ==> r@.len() == ram_size_of(game_bytes@[0x0149]).unwrap().0,
        ensures
            final(self).holds_header(game_bytes@),
            mbc.wf(),
            ({
                let t = game_bytes@[0x0147];
                let rom_banks = rom_size_of(game_bytes@[0x0148]).unwrap().1;
                let ram_banks = if has_ram(t) {
                    ram_size_of(game_bytes@[0x0149]).unwrap().1
                } else {
                    0
                };
                let from_battery = has_battery_ram(t) && battery_ram is Some;
                match kind_of(t) {
                    Some(MbcKind::NoMbc) => mbc.is_plain() && mbc.plain_rom() == game_bytes@,
                    Some(MbcKind::Mbc1) => mbc matches Mbc::Mbc1(m) && m.rom@ == game_bytes@
                        && m.max_rom_banks == rom_banks && m.max_ram_banks == ram_banks && (
                    from_battery ==> m.ram@ == battery_ram.unwrap()@),
                    Some(MbcKind::Mbc3) => mbc matches Mbc::Mbc3(m) && m.rom@ == game_bytes@
                        && m.max_rom_banks == rom_banks && (m.ram is Some) == has_ram(t) && (
                    has_ram(t) ==> m.max_ram_banks == ram_banks) && (from_battery
                        ==> m.ram.unwrap()@ == battery_ram.unwrap()@) && (m.timer is Some) == (t
                        == 0x0F || t == 0x10) && ((t == 0x0F || t == 0x10) ==> m.timer == Some(
                        restored_running(saved_clock, time_offline),
                    ) && m.latched_timer == Some(restored_latched(saved_clock))),
                    Some(MbcKind::Mbc5) => mbc matches Mbc::Mbc5(m) && m.rom@ == game_bytes@
                        && m.max_rom_banks == rom_banks && m.max_ram_banks == ram_banks && (
                    from_battery ==> m.ram@ == battery_ram.unwrap()@),
                    None => false,
                }
            }),
    {
        self.read_header(&game_bytes);
        let t = self.cartridge_type;
        let (_rom_size, rom_banks) = match self.get_rom_size() {
            Some(x) => x,
            None => (0, 0),
        };
        let (ram_size, ram_banks) = match self.get_ram_size() {
            Some(x) => x,
            None => (0, 0),
        };
        if t == 0x00 {
            let mut m = MbcNone::new();
            m.load_game(game_bytes);
            return Mbc::NoMbc(m);
        }
        let with_ram = t == 0x02 || t == 0x03 || t == 0x10 || t == 0x12 || t == 0x13 || t == 0x1A
            || t == 0x1B;
        let battery = t == 0x03 || t == 0x10 || t == 0x13 || t == 0x1B;
        let (ram, banks) = if !with_ram {
            (Vec::new(), 0)
        } else if battery && battery_ram.is_some() {
            (battery_ram.unwrap(), ram_banks)
        } else {
            (vec![0; ram_size], ram_banks)
        };
        if t <= 0x03 {
            let mut m = Mbc1::new();
            m.load_game(game_bytes, rom_banks, ram, banks);
            Mbc::Mbc1(m)
        } else if t <= 0x13 {
            let (_, names) = self.get_cartridge_type();
            proof {
                lemma_mbc3_features(t);
            }
            let features = match Mbc3Features::from_features(&names) {
                Some(f) => f,
                None => Mbc3Features::Plain,
            };
            let mut m = Mbc3::new();
            m.load_game(game_bytes, features, rom_banks, ram, banks, saved_clock, time_offline);
            Mbc::Mbc3(m)
        } else {
            let mut m = Mbc5::new();
            m.load_game(game_bytes, rom_banks, ram, banks);
            Mbc::Mbc5(m)
        }
    }

    /// Checks the header checksum against the bytes 0x0134 - 0x014C as
    /// the memory reads them: the checksum when they agree, `None` when
    /// they do not.
    pub fn checksum(&self, mem: &Memory) -> (r: Option<u8>)
        requires
            mem.wf(),
        ensures
            r == (if checksum_from(Seq::new(0x014D, |i: int| mem.byte_at(i as u16)), 0x0134)
                == self.checksum_val {
                Some(self.checksum_val)
            } else {
                None
            }),
    {
        let ghost bytes = Seq::new(0x014D, |i: int| mem.byte_at(i as u16));
        let mut x: u16 = 0;
        let mut i: u16 = 0x014C;
        while i >= 0x0134
            invariant
                0x0133 <= i <= 0x014C,
                mem.wf(),
                bytes == Seq::new(0x014D, |i: int| mem.byte_at(i as u16)),
                x % 256 == checksum_from(bytes, i + 1),
            decreases i,
        {
            let b = mem.read_byte(i);
            x = x.wrapping_sub(b as u16).wrapping_sub(1);
            i = i - 1;
        }
        if (x % 256) as u8 != self.checksum_val {
            None
        } else {
            Some(self.checksum_val)
        }
    }

    /// The publisher's name, from the new licensee code when the old one
    /// is 0x33.
    pub fn get_publisher_name(&self) -> (r: Option<String>)
        ensures
            r is Some == publisher_of(self.publisher_code()) is Some,
            r matches Some(s) ==> publisher_of(self.publisher_code()) == Some(s@),
    {
        let switch = if self.old_lisc_code == 0x33 {
            (self.new_lisc_code[0] << 4u8) | (self.new_lisc_code[1] & 0x0F)
        } else {
            self.old_lisc_code
        };
        match switch {
            0x00 => Some("None".to_owned()),
            0x01 => Some("Nintendo R&D1".to_owned()),
            0x08 => Some("Capcom".to_owned()),
            0x13 => Some("Electronic Arts".to_owned()),
            0x18 => Some("Hudson Soft".to_owned()),
            0x19 => Some("b-ai".to_owned()),
            0x20 => Some("kss".to_owned()),
            0x22 => Some("pow".to_owned()),
            0x24 => Some("PCM Complete".to_owned()),
            0x25 => Some("san-x".to_owned()),
            0x28 => Some("Kemco Japan".to_owned()),
            0x29 => Some("seta".to_owned()),
            0x30 => Some("Viacom".to_owned()),
            0x31 => Some("Nintendo".to_owned()),
            0x32 => Some("Bandai".to_owned()),
            0x33 => Some("Ocean/Acclaim".to_owned()),
            0x34 => Some("Konami".to_owned()),
            0x35 => Some("Hector".to_owned()),
            0x37 => Some("Taito".to_owned()),
            0x38 => Some("Hudson".to_owned()),
            0x39 => Some("Banpresto".to_owned()),
            0x41 => Some("Ubi Soft".to_owned()),
            0x42 => Some("Atlus".to_owned()),
            0x44 => Some("Malibu".to_owned()),
            0x46 => Some("angel".to_owned()),
            0x47 => Some("Bullet-Proof".to_owned()),
            0x49 => Some("irem".to_owned()),
            0x50 => Some("Absolute".to_owned()),
            0x51 => Some("Acclaim".to_owned()),
            0x52 => Some("Activision".to_owned()),
            0x53 => Some("American sammy".to_owned()),
            0x54 => Some("Konami".to_owned()),
            0x55 => Some("Hi tech entertainment".to_owned()),
            0x56 => Some("LJN".to_owned()),
            0x57 => Some("Matchbox".to_owned()),
            0x58 => Some("Mattel".to_owned()),
            0x59 => Some("Milton Bradley".to_owned()),
            0x60 => Some("Titus".to_owned()),
            0x61 => Some("Virgin".to_owned()),
            0x64 => Some("LucasArts".to_owned()),
            0x67 => Some("Ocean".to_owned()),
            0x69 => Some("Electronic Arts".to_owned()),
            0x70 => Some("Infogrames".to_owned()),
            0x71 => Some("Interplay".to_owned()),
            0x72 => Some("Broderbund".to_owned()),
            0x73 => Some("sculptured".to_owned()),
            0x75 => Some("sci".to_owned()),
            0x78 => Some("THQ".to_owned()),
            0x79 => Some("Accolade".to_owned()),
            0x80 => Some("misawa".to_owned()),
            0x83 => Some("lozc".to_owned()),
            0x86 => Some("Tokuma Shoten Intermedia".to_owned()),
            0x87 => Some("Tsukuda Original".to_owned()),
            0x91 => Some("Chunsoft".to_owned()),
            0x92 => Some("Video system".to_owned()),
            0x93 => Some("Ocean/Acclaim".to_owned()),
            0x95 => Some("Varie".to_owned()),
            0x96 => Some("Yonezawa/s'pal".to_owned()),
            0x97 => Some("Kaneko".to_owned()),
            0x99 => Some("Pack in soft".to_owned()),
            0xA4 => Some("Konami (Yu-Gi-Oh!)".to_owned()),
            _ => None,
        }
    }

    /// The licensee code the header uses.
    pub open spec fn publisher_code(&self) -> u8 {
        if self.old_lisc_code == 0x33 {
            (self.new_lisc_code@[0] << 4u8) | (self.new_lisc_code@[1] & 0x0F)
        } else {
            self.old_lisc_code
        }
    }

    pub fn get_logo(&self) -> (l: [u8; 48])
        ensures
            l@ == self.logo@,
    {
        self.logo
    }

    pub fn get_entry_point(&self) -> (e: [u8; 4])
        ensures
            e@ == self.entry_point@,
    {
        self.entry_point
    }
}

/// The publisher a licensee code stands for.
pub open spec fn publisher_of(code: u8) -> Option<Seq<char>> {
    if code == 0x00 {
        Some("None"@)
    } else if code == 0x01 {
        Some("Nintendo R&D1"@)
    } else if code == 0x08 {
        Some("Capcom"@)
    } else if code == 0x13 {
        Some("Electronic Arts"@)
    } else if code == 0x18 {
        Some("Hudson Soft"@)
    } else if code == 0x19 {
        Some("b-ai"@)
    } else if code == 0x20 {
        Some("kss"@)
    } else if code == 0x22 {
        Some("pow"@)
    } else if code == 0x24 {
        Some("PCM Complete"@)
    } else if code == 0x25 {
        Some("san-x"@)
    } else if code == 0x28 {
        Some("Kemco Japan"@)
    } else if code == 0x29 {
        Some("seta"@)
    } else if code == 0x30 {
        Some("Viacom"@)
    } else if code == 0x31 {
        Some("Nintendo"@)
    } else if code == 0x32 {
        Some("Bandai"@)
    } else if code == 0x33 {
        Some("Ocean/Acclaim"@)
    } else if code == 0x34 {
        Some("Konami"@)
    } else if code == 0x35 {
        Some("Hector"@)
    } else if code == 0x37 {
        Some("Taito"@)
    } else if code == 0x38 {
        Some("Hudson"@)
    } else if code == 0x39 {
        Some("Banpresto"@)
    } else if code == 0x41 {
        Some("Ubi Soft"@)
    } else if code == 0x42 {
        Some("Atlus"@)
    } else if code == 0x44 {
        Some("Malibu"@)
    } else if code == 0x46 {
        Some("angel"@)
    } else if code == 0x47 {
        Some("Bullet-Proof"@)
    } else if code == 0x49 {
        Some("irem"@)
    } else if code == 0x50 {
        Some("Absolute"@)
    } else if code == 0x51 {
        Some("Acclaim"@)
    } else if code == 0x52 {
        Some("Activision"@)
    } else if code == 0x53 {
        Some("American sammy"@)
    } else if code == 0x54 {
        Some("Konami"@)
    } else if code == 0x55 {
        Some("Hi tech entertainment"@)
    } else if code == 0x56 {
        Some("LJN"@)
    } else if code == 0x57 {
        Some("Matchbox"@)
    } else if code == 0x58 {
        Some("Mattel"@)
    } else if code == 0x59 {
        Some("Milton Bradley"@)
    } else if code == 0x60 {
        Some("Titus"@)
    } else if code == 0x61 {
        Some("Virgin"@)
    } else if code == 0x64 {
        Some("LucasArts"@)
    } else if code == 0x67 {
        Some("Ocean"@)
    } else if code == 0x69 {
        Some("Electronic Arts"@)
    } else if code == 0x70 {
        Some("Infogrames"@)
    } else if code == 0x71 {
        Some("Interplay"@)
    } else if code == 0x72 {
        Some("Broderbund"@)
    } else if code == 0x73 {
        Some("sculptured"@)
    } else if code == 0x75 {
        Some("sci"@)
    } else if code == 0x78 {
        Some("THQ"@)
    } else if code == 0x79 {
        Some("Accolade"@)
    } else if code == 0x80 {
        Some("misawa"@)
    } else if code == 0x83 {
        Some("lozc"@)
    } else if code == 0x86 {
        Some("Tokuma Shoten Intermedia"@)
    } else if code == 0x87 {
        Some("Tsukuda Original"@)
    } else if code == 0x91 {
        Some("Chunsoft"@)
    } else if code == 0x92 {
        Some("Video system"@)
    } else if code == 0x93 {
        Some("Ocean/Acclaim"@)
    } else if code == 0x95 {
        Some("Varie"@)
    } else if code == 0x96 {
        Some("Yonezawa/s'pal"@)
    } else if code == 0x97 {
        Some("Kaneko"@)
    } else if code == 0x99 {
        Some("Pack in soft"@)
    } else if code == 0xA4 {
        Some("Konami (Yu-Gi-Oh!)"@)
    } else {
        None
    }
}

/// The MBC3 feature lists of the MBC3 cartridge types.
proof fn lemma_mbc3_features(t: u8)
    requires
        0x0F <= t <= 0x13,
    ensures
        mbc3_features_of(features_of(t)) == Some(
            if t == 0x0F {
                Mbc3Features::TimerBattery
            } else if t == 0x10 {
                Mbc3Features::TimerRamBattery
            } else if t == 0x11 {
                Mbc3Features::Plain
            } else if t == 0x12 {
                Mbc3Features::Ram
            } else {
                Mbc3Features::RamBattery
            },
        ),
{
    let a = seq![CartFeature::Mbc3];
    let b = seq![CartFeature::Mbc3, CartFeature::Ram];
    let c = seq![CartFeature::Mbc3, CartFeature::Ram, CartFeature::Battery];
    let d = seq![CartFeature::Mbc3, CartFeature::Timer, CartFeature::Battery];
    let e = seq![CartFeature::Mbc3, CartFeature::Timer, CartFeature::Ram, CartFeature::Battery];
    let f = features_of(t);
    if t == 0x0F {
        assert(f =~= d);
        assert(f != a && f != b && f != c) by {
            assert(f.len() != a.len() && f.len() != b.len());
            assert(f[1] != c[1]);
        }
    } else if t == 0x10 {
        assert(f =~= e);
        assert(f != a && f != b && f != c && f != d) by {
            assert(f.len() != a.len() && f.len() != b.len() && f.len() != c.len());
            assert(f.len() != d.len());
        }
    } else if t == 0x11 {
        assert(f =~= a);
    } else if t == 0x12 {
        assert(f =~= b);
        assert(f != a) by {
            assert(f.len() != a.len());
        }
    } else {
        assert(f =~= c);
        assert(f != a && f != b) by {
            assert(f.len() != a.len() && f.len() != b.len());
        }
    }
}

/// The features a cartridge type byte names.
pub open spec fn features_of(t: u8) -> Seq<CartFeature> {
    if t == 0x00 {
        seq![CartFeature::RomOnly]
    } else if t == 0x01 {
        seq![CartFeature::Mbc1]
    } else if t == 0x02 {
        seq![CartFeature::Mbc1, CartFeature::Ram]
    } else if t == 0x03 {
        seq![CartFeature::Mbc1, CartFeature::Ram, CartFeature::Battery]
    } else if t == 0x05 {
        seq![CartFeature::Mbc2]
    } else if t == 0x06 {
        seq![CartFeature::Mbc2, CartFeature::Battery]
    } else if t == 0x08 {
        seq![CartFeature::Rom, CartFeature::Ram]
    } else if t == 0x09 {
        seq![CartFeature::Rom, CartFeature::Ram, CartFeature::Battery]
    } else if t == 0x0B {
        seq![CartFeature::Mmm01]
    } else if t == 0x0C {
        seq![CartFeature::Mmm01, CartFeature::Ram]
    } else if t == 0x0D {
        seq![CartFeature::Mmm01, CartFeature::Ram, CartFeature::Battery]
    } else if t == 0x0F {
        seq![CartFeature::Mbc3, CartFeature::Timer, CartFeature::Battery]
    } else if t == 0x10 {
        seq![CartFeature::Mbc3, CartFeature::Timer, CartFeature::Ram, CartFeature::Battery]
    } else if t == 0x11 {
        seq![CartFeature::Mbc3]
    } else if t == 0x12 {
        seq![CartFeature::Mbc3, CartFeature::Ram]
    } else if t == 0x13 {
        seq![CartFeature::Mbc3, CartFeature::Ram, CartFeature::Battery]
    } else if t == 0x19 {
        seq![CartFeature::Mbc5]
    } else if t == 0x1A {
        seq![CartFeature::Mbc5, CartFeature::Ram]
    } else if t == 0x1B {
        seq![CartFeature::Mbc5, CartFeature::Ram, CartFeature::Battery]
    } else if t == 0x1C {
        seq![CartFeature::Mbc5, CartFeature::Rumble]
    } else if t == 0x1D {
        seq![CartFeature::Mbc5, CartFeature::Rumble, CartFeature::Ram]
    } else if t == 0x1E {
        seq![CartFeature::Mbc5, CartFeature::Rumble, CartFeature::Ram, CartFeature::Battery]
    } else if t == 0x20 {
        seq![CartFeature::Mbc6]
    } else if t == 0x22 {
        seq![CartFeature::Mbc7, CartFeature::Sensor, CartFeature::Rumble, CartFeature::Ram, CartFeature::Battery]
    } else if t == 0xFC {
        seq![CartFeature::PocketCamera]
    } else if t == 0xFD {
        seq![CartFeature::BandaiTama5]
    } else if t == 0xFE {
        seq![CartFeature::HuC3]
    } else {
        seq![CartFeature::HuC1, CartFeature::Ram, CartFeature::Battery]
    }
}

} // verus!
