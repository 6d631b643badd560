//! The iNES ROM format: a 16-byte header followed by an optional 512-byte
//! trainer, the PRG-ROM banks and the CHR-ROM banks.
use vstd::prelude::*;

verus! {

/// Size of one PRG-ROM bank (16 KiB).
pub const PRG_BANK_SIZE: usize = 16384;

/// Size of one CHR-ROM bank (8 KiB).
pub const CHR_BANK_SIZE: usize = 8192;

/// Size of one PRG-RAM bank (8 KiB).
pub const RAM_BANK_SIZE: usize = 8192;

/// Length of the iNES header.
pub const HEADER_LEN: usize = 16;

/// The four magic bytes "NES\x1a" that open every iNES file.
pub open spec fn has_magic(buf: Seq<u8>) -> bool {
    &&& buf.len() >= 4
    &&& buf[0] == 0x4E
    &&& buf[1] == 0x45
    &&& buf[2] == 0x53
    &&& buf[3] == 0x1A
}

/// The mapper number that a header with these flag bytes names: the upper
/// nibble comes from byte 7, the lower nibble from the upper nibble of byte 6.
pub open spec fn mapper_number_of(six: u8, sev: u8) -> u8 {
    (16 * (sev as int / 16) + six as int / 16) as u8
}

/// The PRG-RAM size a header announces: byte 8 counts 8 KiB banks, and 0
/// means one bank.
pub open spec fn ram_size_of(b8: u8) -> nat {
    if b8 == 0 {
        8192
    } else {
        b8 as nat * 8192
    }
}

/// Byte 6 of the header.
#[derive(Debug)]
pub struct FlagsSix(pub u8);

/// Byte 7 of the header.
#[derive(Debug)]
pub struct FlagsSev(pub u8);

impl FlagsSix {
    /// Battery-backed PRG RAM (bit 1).
    pub fn contains_batt_backed_ram(&self) -> (r: bool)
        ensures
            r == (self.0 & 0b0000_0010 != 0),
    {
        self.0 & 0b0000_0010 != 0
    }

    /// A 512-byte trainer precedes PRG-ROM (bit 2).
    pub fn trainer_present(&self) -> (r: bool)
        ensures
            r == (self.0 & 0b0000_0100 != 0),
    {
        self.0 & 0b0000_0100 != 0
    }

    /// Four-screen VRAM, which overrides the mirroring bit (bit 3).
    pub fn ignore_mirroring(&self) -> (r: bool)
        ensures
            r == (self.0 & 0b0000_1000 != 0),
    {
        self.0 & 0b0000_1000 != 0
    }

    /// The upper nibble of byte 6, which is the lower nibble of the mapper number.
    pub fn mapper_no_lower_nibble(&self) -> (r: u8)
        ensures
            r == self.0 / 16,
    {
        let b = self.0;
        assert((b & 0xF0u8) >> 4u8 == b / 16) by (bit_vector);
        (b & 0xF0u8) >> 4u8
    }
}

impl FlagsSev {
    /// VS Unisystem bit (bit 0).
    pub fn vs_unisystem(&self) -> (r: bool)
        ensures
            r == (self.0 % 2 == 1),
    {
        let b = self.0;
        assert((b & 1u8 == 1u8) == (b % 2 == 1)) by (bit_vector);
        b & 1u8 == 1
    }

    /// PlayChoice-10 (bit 1).
    pub fn playchoice_ten(&self) -> (r: bool)
        ensures
            r == (self.0 & 0b0000_0010 != 0),
    {
        self.0 & 0b0000_0010 != 0
    }

    /// The NES 2.0 format: bits 2 and 3 hold the value 2.
    pub fn ines_two_fmt(&self) -> (r: bool)
        ensures
            r == (self.0 & 0b0000_1100 == 0b0000_1000),
    {
        self.0 & 0b0000_1100 == 0b0000_1000
    }

    /// The upper nibble of byte 7, kept in place: the upper nibble of the
    /// mapper number.
    pub fn mapper_no_upper_nibble(&self) -> (r: u8)
        ensures
            r == 16 * (self.0 / 16),
    {
        let b = self.0;
        assert(b & 0xF0u8 == 16 * (b / 16)) by (bit_vector);
        b & 0xF0u8
    }
}

/// The decoded iNES header.
#[derive(Debug)]
pub struct Header {
    pub mapper_no: u8,
    pub prg_size: usize,
    pub chr_size: usize,
    pub ram_size: usize,
    pub flags_six: FlagsSix,
    pub flags_sev: FlagsSev,
}

/// What a header decoded from `buf` holds.
pub open spec fn header_matches(h: Header, buf: Seq<u8>) -> bool {
    &&& h.mapper_no == mapper_number_of(buf[6], buf[7])
    &&& h.prg_size == buf[4] as nat * 16384
    &&& h.chr_size == buf[5] as nat * 8192
    &&& h.ram_size == ram_size_of(buf[8])
    &&& h.flags_six.0 == buf[6]
    &&& h.flags_sev.0 == buf[7]
}

impl Header {
    /// Decodes the header bytes; fails unless they open with "NES\x1a".
    pub fn new(header: Vec<u8>) -> (r: Result<Header, &'static str>)
        requires
            header.len() >= 4,
            has_magic(header@) ==> header.len() >= 9,
        ensures
            r is Err <==> !has_magic(header@),
            r matches Err(e) ==> e@ == "File is not a valid iNES ROM"@,
            r matches Ok(h) ==> header_matches(h, header@),
    {
        if header[0] != 0x4E || header[1] != 0x45 || header[2] != 0x53 || header[3] != 0x1A {
            return Err("File is not a valid iNES ROM");
        }
        let prg_ram_size: usize = if header[8] == 0 {
            8192
        } else {
            header[8] as usize * 8192
        };
        let six: u8 = header[6];
        let sev: u8 = header[7];
        let flags_six = FlagsSix(six);
        let flags_sev = FlagsSev(sev);
        let upper = flags_sev.mapper_no_upper_nibble();
        let lower = flags_six.mapper_no_lower_nibble();
        assert(upper | lower == 16 * (sev / 16) + six / 16) by (bit_vector)
            requires
                upper == 16 * (sev / 16),
                lower == six / 16,
        ;
        Ok(Header {
            mapper_no: upper | lower,
            prg_size: header[4] as usize * 16384,
            chr_size: header[5] as usize * 8192,
            ram_size: prg_ram_size,
            flags_six: flags_six,
            flags_sev: flags_sev,
        })
    }

    pub fn mapper_no(&self) -> (r: u8)
        ensures
            r == self.mapper_no,
    {
        self.mapper_no
    }

    pub fn prg_size(&self) -> (r: usize)
        ensures
            r == self.prg_size,
    {
        self.prg_size
    }

    pub fn chr_size(&self) -> (r: usize)
        ensures
            r == self.chr_size,
    {
        self.chr_size
    }

    pub fn ram_size(&self) -> (r: usize)
        ensures
            r == self.ram_size,
    {
        self.ram_size
    }
}

/// A loaded iNES ROM.
#[derive(Debug)]
pub struct Rom {
    pub mapper_number: u8,
    pub prg_rom: Vec<u8>,
    /// This is not always present.
    pub chr_rom: Vec<u8>,
    pub header: Header,
}

/// Where PRG-ROM starts in a file whose byte 6 is `six`: after the
/// header, and after a 512-byte trainer when bit 2 announces one.
pub open spec fn prg_offset(six: u8) -> int {
    if six & 0b0000_0100 != 0 { 528 } else { 16 }
}

/// Offset of the PRG-ROM in the file: the header, then the trainer if the
/// header announces one.
pub fn calc_prg_offset(header: &Header) -> (r: usize)
    ensures
        r == prg_offset(header.flags_six.0),
{
    let mut offset: usize = 16;
    offset = offset + if header.flags_six.trainer_present() {
        512
    } else {
        0
    };
    offset
}

/// The file holds a header and, if the header is valid, every bank it
/// announces after the trainer, if any.
pub open spec fn rom_fits(buf: Seq<u8>) -> bool {
    &&& buf.len() >= 16
    &&& has_magic(buf) ==> buf.len() >= prg_offset(buf[6]) + buf[4] as nat * 16384 + buf[5] as nat * 8192
}

/// Copies `len` bytes of `buf` from `start`.
pub(crate) fn copy_range(buf: &[u8], start: usize, len: usize) -> (r: Vec<u8>)
    requires
        start + len <= buf.len(),
    ensures
        r@ == buf@.subrange(start as int, start + len),
{
    let mut out: Vec<u8> = Vec::new();
    let mut i: usize = 0;
    while i < len
        invariant
            i <= len,
            start + len <= buf.len(),
            out@ == buf@.subrange(start as int, start + i),
        decreases len - i,
    {
        out.push(buf[start + i]);
        i = i + 1;
    }
    out
}

/// Splits the bytes of an iNES file into header, PRG-ROM and CHR-ROM.
/// Fails as `Header::new` does when the magic bytes are missing.
pub fn parse_rom(file_buf: &[u8]) -> (r: Result<Rom, &'static str>)
    requires
        rom_fits(file_buf@),
    ensures
        r is Err <==> !has_magic(file_buf@),
        r matches Err(e) ==> e@ == "File is not a valid iNES ROM"@,
        r matches Ok(rom) ==> {
            &&& header_matches(rom.header, file_buf@)
            &&& rom.mapper_number == rom.header.mapper_no
            &&& rom.prg_rom@ == file_buf@.subrange(
                prg_offset(file_buf@[6]),
                prg_offset(file_buf@[6]) + rom.header.prg_size,
            )
            &&& rom.chr_rom@ == file_buf@.subrange(
                prg_offset(file_buf@[6]) + rom.header.prg_size,
                prg_offset(file_buf@[6]) + rom.header.prg_size + rom.header.chr_size,
            )
        },
{
    let header_buf = copy_range(file_buf, 0, 16);
    let header = match Header::new(header_buf) {
        Ok(h) => h,
        Err(e) => {
            return Err(e);
        },
    };
    let offset = calc_prg_offset(&header);
    let prg_rom = copy_range(file_buf, offset, header.prg_size());
    let chr_rom = if header.chr_size() != 0 {
        copy_range(file_buf, header.prg_size() + offset, header.chr_size())
    } else {
        Vec::new()
    };
    assert(chr_rom@ =~= file_buf@.subrange(
        offset + header.prg_size,
        offset + header.prg_size + header.chr_size,
    ));
    Ok(Rom { mapper_number: header.mapper_no(), prg_rom: prg_rom, chr_rom: chr_rom, header: header })
}

} // verus!
