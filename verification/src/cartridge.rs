//! The cartridge port: a flat ROM image with its header at `$0100`,
//! byte reads over the full image and stubbed mapper writes.

use vstd::prelude::*;

verus! {

pub const ROM_HEADER_START: usize = 0x100;

pub const ROM_CHECKSUM_START: usize = 0x134;

pub const ROM_CHECKSUM_END: usize = 0x14C;

/// The smallest image that still holds the whole header.
pub const ROM_MIN_SIZE: usize = 0x150;

#[derive(Debug)]
pub enum CartridgeError {
    InvalidRomData,
    ReadFromInvalidAddress,
}

/// A cursor over a ROM image.
pub struct RomReader<'a> {
    pub start_offset: usize,
    pub rom_data: &'a Vec<u8>,
}

impl RomReader<'_> {
    /// Takes the next `size` bytes of the image, advancing the cursor.
    pub fn read_bytes(&mut self, size: usize) -> (r: Result<Vec<u8>, CartridgeError>)
        ensures
            old(self).start_offset + size <= old(self).rom_data@.len() ==> {
                &&& r matches Ok(v) && v@ == old(self).rom_data@.subrange(
                    old(self).start_offset as int,
                    old(self).start_offset + size,
                )
                &&& final(self).start_offset == old(self).start_offset + size
            },
            old(self).start_offset + size > old(self).rom_data@.len() ==> {
                &&& r is Err
                &&& *final(self) == *old(self)
            },
            final(self).rom_data@ == old(self).rom_data@,
    {
        if size > self.rom_data.len() || self.start_offset > self.rom_data.len() - size {
            return Err(CartridgeError::InvalidRomData);
        }

        let n = self.rom_data.len();
        let mut out: Vec<u8> = Vec::new();
        let mut k: usize = 0;
        while k < size
            invariant
                k <= size,
                n == self.rom_data@.len(),
                self.start_offset + size <= n,
                out@.len() == k,
                forall|j: int| 0 <= j < k ==> out@[j] == self.rom_data@[self.start_offset + j],
            decreases size - k,
        {
            out.push(self.rom_data[self.start_offset + k]);
            k += 1;
        }
        self.start_offset += size;
        proof {
            assert(out@ =~= old(self).rom_data@.subrange(
                old(self).start_offset as int,
                old(self).start_offset + size,
            ));
        }
        Ok(out)
    }
}

/// The cartridge header as laid out at `$0100`: entry point, logo, title,
/// licensee codes, type, sizes and checksums.
pub struct RomHeader {
    pub entry: Vec<u8>,
    pub logo: Vec<u8>,
    pub title: Vec<u8>,
    pub new_lic_code: u16,
    pub sgb_flag: u8,
    pub cart_type: u8,
    pub rom_size: u8,
    pub ram_size: u8,
    pub dest_code: u8,
    pub lic_code: u8,
    pub version: u8,
    pub checksum: u8,
    pub global_checksum: u16,
}

/// The header fields match the bytes of `rom` at their documented offsets.
pub open spec fn spec_header_matches(h: RomHeader, rom: Seq<u8>) -> bool {
    &&& h.entry@ == rom.subrange(0x100, 0x104)
    &&& h.logo@ == rom.subrange(0x104, 0x134)
    &&& h.title@ == rom.subrange(0x134, 0x144)
    &&& h.new_lic_code == (rom[0x144] as u16) * 0x100 + rom[0x145]
    &&& h.sgb_flag == rom[0x146]
    &&& h.cart_type == rom[0x147]
    &&& h.rom_size == rom[0x148]
    &&& h.ram_size == rom[0x149]
    &&& h.dest_code == rom[0x14A]
    &&& h.lic_code == rom[0x14B]
    &&& h.version == rom[0x14C]
    &&& h.checksum == rom[0x14D]
    &&& h.global_checksum == (rom[0x14E] as u16) * 0x100 + rom[0x14F]
}

impl RomHeader {
    pub fn default() -> (r: RomHeader)
        ensures
            r.entry@ == Seq::new(4, |i: int| 0u8),
            r.logo@ == Seq::new(0x30, |i: int| 0u8),
            r.title@ == Seq::new(16, |i: int| 0u8),
            r.new_lic_code == 0,
            r.sgb_flag == 0,
            r.cart_type == 0,
            r.rom_size == 0,
            r.ram_size == 0,
            r.dest_code == 0,
            r.lic_code == 0,
            r.version == 0,
            r.checksum == 0,
            r.global_checksum == 0,
    {
        let entry = crate::ram::vec_zeroed(4);
        let logo = crate::ram::vec_zeroed(0x30);
        let title = crate::ram::vec_zeroed(16);
        proof {
            assert(entry@ =~= Seq::new(4, |i: int| 0u8));
            assert(logo@ =~= Seq::new(0x30, |i: int| 0u8));
            assert(title@ =~= Seq::new(16, |i: int| 0u8));
        }
        RomHeader {
            entry,
            logo,
            title,
            new_lic_code: 0,
            sgb_flag: 0,
            cart_type: 0,
            rom_size: 0,
            ram_size: 0,
            dest_code: 0,
            lic_code: 0,
            version: 0,
            checksum: 0,
            global_checksum: 0,
        }
    }

    /// Parses the header out of a ROM image; an image shorter than `$0150`
    /// bytes is rejected.
    pub fn from_rom(rom_bytes: &Vec<u8>) -> (r: Result<RomHeader, CartridgeError>)
        ensures
            rom_bytes@.len() >= ROM_MIN_SIZE ==> (r matches Ok(h) && spec_header_matches(
                h,
                rom_bytes@,
            )),
            rom_bytes@.len() < ROM_MIN_SIZE ==> r is Err,
    {
        let mut reader = RomReader { start_offset: ROM_HEADER_START, rom_data: rom_bytes };

        let entry = match reader.read_bytes(4) {
            Ok(v) => v,
            Err(e) => return Err(e),
        };
        let logo = match reader.read_bytes(0x30) {
            Ok(v) => v,
            Err(e) => return Err(e),
        };
        let title = match reader.read_bytes(16) {
            Ok(v) => v,
            Err(e) => return Err(e),
        };
        let lic_bytes = match reader.read_bytes(2) {
            Ok(v) => v,
            Err(e) => return Err(e),
        };
        let tail = match reader.read_bytes(8) {
            Ok(v) => v,
            Err(e) => return Err(e),
        };
        let global_bytes = match reader.read_bytes(2) {
            Ok(v) => v,
            Err(e) => return Err(e),
        };

        let new_lic_code = (lic_bytes[0] as u16) * 0x100 + (lic_bytes[1] as u16);
        let global_checksum = (global_bytes[0] as u16) * 0x100 + (global_bytes[1] as u16);

        Ok(RomHeader {
            entry,
            logo,
            title,
            new_lic_code,
            sgb_flag: tail[0],
            cart_type: tail[1],
            rom_size: tail[2],
            ram_size: tail[3],
            dest_code: tail[4],
            lic_code: tail[5],
            version: tail[6],
            checksum: tail[7],
            global_checksum,
        })
    }
}

/// The running header checksum over `rom[$0134 ..= $014C]`, first `n` bytes
/// taken: each byte `b` contributes `acc - b - 1`, wrapping at 16 bits.
pub open spec fn spec_checksum_acc(rom: Seq<u8>, n: nat) -> u16
    decreases n,
{
    if n == 0 {
        0u16
    } else {
        (((spec_checksum_acc(rom, (n - 1) as nat) - rom[0x134 + n - 1] - 1) % 0x10000) as u16)
    }
}

/// Whether the stored header checksum matches the one computed over the
/// title/type/size region of the image.
pub open spec fn spec_checksum_ok(rom: Seq<u8>) -> bool {
    (spec_checksum_acc(rom, 0x19) & 0xFF) as u8 == rom[0x14D]
}

pub struct Cartridge {
    pub rom_header: RomHeader,
    pub rom_data: Vec<u8>,
}

impl Cartridge {
    /// The image is long enough for its header and the parsed header
    /// matches the image.
    pub open spec fn wf(self) -> bool {
        &&& self.rom_data@.len() >= ROM_MIN_SIZE
        &&& spec_header_matches(self.rom_header, self.rom_data@)
    }

    /// Builds a cartridge from a ROM image, parsing and validating the
    /// header layout; an image shorter than `$0150` bytes is rejected.
    pub fn new(content: Vec<u8>) -> (r: Result<Cartridge, CartridgeError>)
        ensures
            content@.len() >= ROM_MIN_SIZE ==> (r matches Ok(c) && c.wf() && c.rom_data@
                == content@),
            content@.len() < ROM_MIN_SIZE ==> r is Err,
    {
        let rom_header = match RomHeader::from_rom(&content) {
            Ok(h) => h,
            Err(e) => return Err(e),
        };
        Ok(Cartridge { rom_header, rom_data: content })
    }

    /// Recomputes the header checksum and compares it with the stored one.
    pub fn validate_checksum(&self) -> (r: bool)
        requires
            self.wf(),
        ensures
            r == spec_checksum_ok(self.rom_data@),
    {
        let mut sum: u16 = 0;
        let mut i: usize = ROM_CHECKSUM_START;
        while i < ROM_CHECKSUM_END + 1
            invariant
                self.wf(),
                ROM_CHECKSUM_START <= i <= ROM_CHECKSUM_END + 1,
                sum == spec_checksum_acc(self.rom_data@, (i - ROM_CHECKSUM_START) as nat),
            decreases ROM_CHECKSUM_END + 1 - i,
        {
            let b = self.rom_data[i];
            sum = sum.wrapping_sub(b as u16).wrapping_sub(1);
            i += 1;
        }

        (sum & 0xFF) as u8 == self.rom_header.checksum
    }

    /// The cartridge title: the header's title bytes up to its first NUL.
    /// Titles are ASCII; a title with a byte outside ASCII is left out.
    pub fn read_title(&self) -> (r: String)
        requires
            self.wf(),
            forall|i: int| 0 <= i < spec_title_len(self.rom_header.title@)
                ==> self.rom_header.title@[i] < 0x80,
        ensures
            r@ == Seq::new(
                spec_title_len(self.rom_header.title@),
                |i: int| self.rom_header.title@[i] as char,
            ),
    {
        let mut out = String::new();
        let mut i: usize = 0;
        let n = self.rom_header.title.len();
        while i < n && self.rom_header.title[i] != 0
            invariant
                self.wf(),
                n == self.rom_header.title@.len(),
                i <= n,
                forall|j: int| 0 <= j < i ==> self.rom_header.title@[j] != 0,
                i <= spec_title_len(self.rom_header.title@),
                forall|j: int| 0 <= j < spec_title_len(self.rom_header.title@)
                    ==> self.rom_header.title@[j] < 0x80,
                out@ == Seq::new(i as nat, |j: int| self.rom_header.title@[j] as char),
            decreases n - i,
        {
            proof {
                lemma_title_len_step(self.rom_header.title@, i as nat);
            }
            push_ascii(&mut out, self.rom_header.title[i]);
            proof {
                assert(out@ =~= Seq::new(
                    (i + 1) as nat,
                    |j: int| self.rom_header.title@[j] as char,
                ));
            }
            i += 1;
        }
        proof {
            lemma_title_len_end(self.rom_header.title@, i as nat);
        }
        out
    }

    /// Reads one byte of the image; an address beyond the image is refused.
    pub fn read(&self, address: u16) -> (r: Result<u8, CartridgeError>)
        ensures
            (address as int) < self.rom_data@.len() ==> r == Ok::<u8, CartridgeError>(
                self.rom_data@[address as int],
            ),
            (address as int) >= self.rom_data@.len() ==> r is Err,
    {
        if address as usize >= self.rom_data.len() {
            return Err(CartridgeError::ReadFromInvalidAddress);
        }
        Ok(self.rom_data[address as usize])
    }

    /// Mapper register writes: the flat-ROM cartridge ignores them.
    pub fn write(&mut self, _address: u16, _data: u8) -> (r: Result<(), CartridgeError>)
        ensures
            r is Ok,
            *final(self) == *old(self),
    {
        Ok(())
    }
}

/// Length of the title: bytes before the first NUL, the whole field if none.
pub open spec fn spec_title_len(title: Seq<u8>) -> nat
    decreases title.len(),
{
    if title.len() == 0 {
        0
    } else if title[0] == 0 {
        0
    } else {
        1 + spec_title_len(title.drop_first())
    }
}

proof fn lemma_title_len_step(title: Seq<u8>, i: nat)
    requires
        i < title.len(),
        forall|j: int| 0 <= j < i ==> title[j] != 0,
        title[i as int] != 0,
    ensures
        spec_title_len(title) > i,
    decreases i,
{
    if i > 0 {
        lemma_title_len_step(title.drop_first(), (i - 1) as nat);
    }
}

proof fn lemma_title_len_end(title: Seq<u8>, i: nat)
    requires
        i <= title.len(),
        forall|j: int| 0 <= j < i ==> title[j] != 0,
        i < title.len() ==> title[i as int] == 0,
    ensures
        spec_title_len(title) == i,
    decreases i,
{
    if i > 0 {
        lemma_title_len_end(title.drop_first(), (i - 1) as nat);
    }
}

/// Relies on std's `String::push`: appends exactly one character.
#[verifier::external_body]
fn push_ascii(s: &mut String, b: u8)
    requires
        b < 0x80,
    ensures
        final(s)@ == old(s)@.push(b as char),
{
    s.push(b as char)
}

} // verus!
