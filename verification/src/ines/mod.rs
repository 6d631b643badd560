//! The iNES format as the `nes` console reads it: a
//! 16-byte header, an optional 512-byte trainer, then PRG-ROM and CHR.
use vstd::prelude::*;
use crate::nes::ppu::Mirroring;
use crate::rom::{copy_range, mapper_number_of, prg_offset};

verus! {

/// The parts of an iNES file.
pub struct InesRom {
    pub mapper_number: u8,
    pub prg_rom: Vec<u8>,
    pub chr: Vec<u8>,

    pub header: Header,
}

/// The header bytes this reader keeps.
pub struct Header {
    pub magic_no: [u8; 4],
    prg_size: u8,
    chr_size: u8,
    flags_six: u8,
    flags_sev: u8,
    flags_nin: u8,
    flags_ten: u8,
}

/// The iNES mapper number: its upper nibble is the upper nibble of byte 7,
/// its lower nibble the upper nibble of byte 6.
pub open spec fn ines_mapper_no(six: u8, sev: u8) -> u8 {
    (sev & 0b1111_0000) | (six >> 4u8)
}

/// Where PRG-ROM starts: after the header, and after the trainer if byte 6
/// announces one.
pub open spec fn prg_start(six: u8) -> int {
    if six & 0b100 != 0 { 528 } else { 16 }
}

pub open spec fn prg_len(buf: Seq<u8>) -> int {
    buf[4] * 0x4000
}

pub open spec fn chr_len(buf: Seq<u8>) -> int {
    buf[5] * 0x2000
}

/// The file holds all the PRG-ROM and CHR data that its header announces.
pub open spec fn ines_fits(buf: Seq<u8>) -> bool {
    &&& prg_start(buf[6]) + prg_len(buf) <= buf.len()
    &&& buf[5] != 0 ==> prg_start(buf[6]) + prg_len(buf) + chr_len(buf) <= buf.len()
}

pub open spec fn ines_magic(buf: Seq<u8>) -> bool {
    buf[0] == 0x4E && buf[1] == 0x45 && buf[2] == 0x53 && buf[3] == 0x1A
}

impl Header {
    pub closed spec fn magic(&self) -> Seq<u8> {
        self.magic_no@
    }

    pub closed spec fn prg_banks(&self) -> u8 {
        self.prg_size
    }

    pub closed spec fn chr_banks(&self) -> u8 {
        self.chr_size
    }

    pub closed spec fn six(&self) -> u8 {
        self.flags_six
    }

    pub closed spec fn sev(&self) -> u8 {
        self.flags_sev
    }

    /// The header read from the start of `buf`.
    pub open spec fn read_from(&self, buf: Seq<u8>) -> bool {
        &&& self.magic() == buf.subrange(0, 4)
        &&& self.prg_banks() == buf[4]
        &&& self.chr_banks() == buf[5]
        &&& self.six() == buf[6]
        &&& self.sev() == buf[7]
    }

    /// Reads the header fields from the first eleven bytes of `file_buf`.
    pub fn new(file_buf: &[u8]) -> (r: Header)
        requires
            file_buf@.len() >= 11,
        ensures
            r.read_from(file_buf@),
    {
        let h = Header {
            magic_no: [file_buf[0], file_buf[1], file_buf[2], file_buf[3]],
            prg_size: file_buf[4],
            chr_size: file_buf[5],
            flags_six: file_buf[6],
            flags_sev: file_buf[7],
            flags_nin: file_buf[9],
            flags_ten: file_buf[10],
        };
        assert(h.magic_no@ == file_buf@.subrange(0, 4));
        h
    }

    /// The mapper number: the upper nibble of byte 7 above the upper nibble
    /// of byte 6.
    pub fn mapper_no(&self) -> (r: u8)
        ensures
            r == ines_mapper_no(self.six(), self.sev()),
    {
        (self.flags_sev & 0b1111_0000) | (self.flags_six >> 4u8)
    }

    /// Whether a 512-byte trainer precedes PRG-ROM (bit 2 of byte 6).
    pub fn contains_trainer(&self) -> (r: bool)
        ensures
            r == (self.six() & 0b100 != 0),
    {
        self.flags_six & 0b100 != 0
    }
}

impl InesRom {
    /// Reads an iNES file that opens with the magic bytes and holds every
    /// bank its header announces. Without CHR banks the CHR is a single
    /// zero byte.
    pub fn from_bytes(file_buf: &[u8]) -> (rom: InesRom)
        requires
            file_buf@.len() >= 15,
            ines_magic(file_buf@),
            ines_fits(file_buf@),
        ensures
            ({
                let buf = file_buf@;
                let p = prg_start(buf[6]);
                &&& rom.header.read_from(buf)
                &&& rom.mapper_number == ines_mapper_no(buf[6], buf[7])
                &&& rom.prg_rom@ == buf.subrange(p, p + prg_len(buf))
                &&& buf[5] == 0 ==> rom.chr@ == seq![0u8]
                &&& buf[5] != 0 ==> rom.chr@ == buf.subrange(
                    p + prg_len(buf),
                    p + prg_len(buf) + chr_len(buf),
                )
            }),
    {
        let header = Header::new(file_buf);
        let prg_size: usize = header.prg_size as usize * 0x4000;
        let chr_size: usize = header.chr_size as usize * 0x2000;
        let offset: usize = if header.contains_trainer() { 512 + 16 } else { 16 };
        let prg_rom = copy_range(file_buf, offset, prg_size);
        let chr = if header.chr_size == 0 {
            // Uses CHR-RAM
            vec![0u8]
        } else {
            // After the header, the trainer and PRG-ROM
            copy_range(file_buf, offset + prg_size, chr_size)
        };
        InesRom { mapper_number: header.mapper_no(), prg_rom: prg_rom, chr: chr, header: header }
    }

    /// The nametable mirroring that bits 3 and 0 of byte 6 select.
    pub fn mirroring(&self) -> (r: Mirroring)
        ensures
            r == (if self.header.six() & 8 != 0 {
                Mirroring::FourWay
            } else if self.header.six() & 1 != 0 {
                Mirroring::Horizontal
            } else {
                Mirroring::Vertical
            }),
    {
        if self.header.flags_six & 0b1000 != 0 {
            Mirroring::FourWay
        } else if self.header.flags_six & 0b1 != 0 {
            Mirroring::Horizontal
        } else {
            Mirroring::Vertical
        }
    }
}


/// The two iNES readers agree on the parts of the header they share, which
/// are as the format lays them out: the upper nibble of the mapper number
/// is the upper nibble of byte 7 and its lower nibble the upper nibble of
/// byte 6, and PRG-ROM starts after the 16-byte header, 512 bytes later
/// when bit 2 of byte 6 announces a trainer.
pub proof fn law_readers_agree(six: u8, sev: u8)
    ensures
        ines_mapper_no(six, sev) == mapper_number_of(six, sev),
        ines_mapper_no(six, sev) / 16 == sev / 16,
        ines_mapper_no(six, sev) % 16 == six / 16,
        prg_start(six) == prg_offset(six),
        prg_start(six) == 16 + (if (six / 4) % 2 == 1 { 512int } else { 0 }),
{
    assert(((sev & 0b1111_0000) | (six >> 4u8)) / 16 == sev / 16 && ((sev & 0b1111_0000) | (six >> 4u8)) % 16
        == six / 16 && ((six & 0b100 != 0) == ((six / 4) % 2 == 1))) by (bit_vector);
}

} // verus!
