use vstd::prelude::*;

verus! {

/// Cartridge hardware, from the type byte at 0x147.
#[derive(Debug, Clone, Copy, PartialEq, Eq, Structural)]
pub enum MbcType {
    RomOnly,
    MBC1,
    MBC2,
    MBC3,
    Unknown(u8),
}

/// Classification of the cartridge type byte.
pub open spec fn mbc_of(t: u8) -> MbcType {
    if t == 0x00 {
        MbcType::RomOnly
    } else if 0x01 <= t <= 0x03 {
        MbcType::MBC1
    } else if 0x05 <= t <= 0x06 {
        MbcType::MBC2
    } else if 0x0F <= t <= 0x13 {
        MbcType::MBC3
    } else {
        MbcType::Unknown(t)
    }
}

/// ROM size in bytes announced by the byte at 0x148 (32 KiB when unknown).
pub open spec fn rom_size_of(code: u8) -> nat {
    if code <= 0x08 {
        32 * 1024 * pow2(code as nat)
    } else if code == 0x52 {
        1152 * 1024
    } else if code == 0x53 {
        1280 * 1024
    } else if code == 0x54 {
        1536 * 1024
    } else {
        32 * 1024
    }
}

/// External RAM size in bytes announced by the byte at 0x149 (0 when unknown).
pub open spec fn ram_size_of(code: u8) -> nat {
    if code == 0x01 {
        2 * 1024
    } else if code == 0x02 {
        8 * 1024
    } else if code == 0x03 {
        32 * 1024
    } else if code == 0x04 {
        128 * 1024
    } else if code == 0x05 {
        64 * 1024
    } else {
        0
    }
}

pub open spec fn pow2(n: nat) -> nat
    decreases n,
{
    if n == 0 {
        1
    } else {
        2 * pow2((n - 1) as nat)
    }
}

/// The sequence with all leading and trailing zero bytes removed.
pub open spec fn trim_nul(s: Seq<u8>) -> Seq<u8>
    decreases s.len(),
{
    if s.len() == 0 {
        s
    } else if s[0] == 0 {
        trim_nul(s.drop_first())
    } else if s.last() == 0 {
        trim_nul(s.drop_last())
    } else {
        s
    }
}

/// The text that lossy UTF-8 decoding makes of some bytes.
pub uninterp spec fn lossy_text(b: Seq<u8>) -> Seq<char>;

/// Relies on `String::from_utf8_lossy`: decodes the bytes, invalid sequences
/// becoming U+FFFD; the result depends on the bytes alone.
#[verifier::external_body]
fn decode_lossy(bytes: &Vec<u8>) -> (r: String)
    ensures
        r@ == lossy_text(bytes@),
{
    String::from_utf8_lossy(bytes.as_slice()).into_owned()
}

/// Header checksum over 0x134..=0x14C: the running value `x - rom[a] - 1` mod 256,
/// starting from 0, taken over the first `n` bytes of that range.
pub open spec fn checksum_upto(rom: Seq<u8>, n: nat) -> u8
    decreases n,
{
    if n == 0 {
        0
    } else {
        let prev = checksum_upto(rom, (n - 1) as nat);
        prev.wrapping_sub(rom[0x134 + n - 1]).wrapping_sub(1)
    }
}

pub open spec fn header_checksum(rom: Seq<u8>) -> u8 {
    checksum_upto(rom, 0x19)
}

/// Size in bytes below which a ROM image has no complete header.
pub const HEADER_END: usize = 0x150;

#[derive(Debug)]
pub struct CartridgeHeader {
    pub title: String,
    pub cart_type: MbcType,
    pub ram_size: usize,
    pub rom_size: usize,
    pub check_sum: u8,
}

impl CartridgeHeader {
    /// What a successful parse of `rom` yields.
    pub open spec fn parsed_from(self, rom: Seq<u8>) -> bool {
        &&& self.title@ == lossy_text(trim_nul(rom.subrange(0x134, 0x143)))
        &&& self.cart_type == mbc_of(rom[0x147])
        &&& self.rom_size == rom_size_of(rom[0x148])
        &&& self.ram_size == ram_size_of(rom[0x149])
        &&& self.check_sum == rom[0x14D]
    }

    /// Reads the header at 0x100..0x150; fails when the image is shorter than that.
    pub fn parse(contents: &[u8]) -> (r: Result<CartridgeHeader, String>)
        ensures
            r is Err <==> contents@.len() < HEADER_END,
            r matches Ok(h) ==> h.parsed_from(contents@),
    {
        if contents.len() < HEADER_END {
            return Err("ROM is too small".to_string());
        }
        let trimmed = trim_title(contents, 0x134, 0x143);
        let title = decode_lossy(&trimmed);
        let t = contents[0x147];
        let cart_type = if t == 0x00 {
            MbcType::RomOnly
        } else if 0x01 <= t && t <= 0x03 {
            MbcType::MBC1
        } else if 0x05 <= t && t <= 0x06 {
            MbcType::MBC2
        } else if 0x0F <= t && t <= 0x13 {
            MbcType::MBC3
        } else {
            MbcType::Unknown(t)
        };
        let rom_code = contents[0x148];
        let rom_size: usize = if rom_code <= 0x08 {
            let mut banks: usize = 1;
            let mut i: u8 = 0;
            while i < rom_code
                invariant
                    i <= rom_code <= 8,
                    banks == pow2(i as nat),
                    banks <= 256,
                decreases rom_code - i,
            {
                proof {
                    lemma_pow2_bound(i as nat);
                }
                banks = banks * 2;
                i = i + 1;
            }
            32 * 1024 * banks
        } else if rom_code == 0x52 {
            1152 * 1024
        } else if rom_code == 0x53 {
            1280 * 1024
        } else if rom_code == 0x54 {
            1536 * 1024
        } else {
            32 * 1024
        };
        let ram_code = contents[0x149];
        let ram_size: usize = if ram_code == 0x01 {
            2 * 1024
        } else if ram_code == 0x02 {
            8 * 1024
        } else if ram_code == 0x03 {
            32 * 1024
        } else if ram_code == 0x04 {
            128 * 1024
        } else if ram_code == 0x05 {
            64 * 1024
        } else {
            0
        };
        Ok(CartridgeHeader { title, cart_type, ram_size, rom_size, check_sum: contents[0x14D] })
    }
}

proof fn lemma_pow2_bound(n: nat)
    requires
        n < 8,
    ensures
        pow2(n + 1) <= 256,
        pow2(n + 1) == 2 * pow2(n),
{
    reveal_with_fuel(pow2, 10);
}

/// The bytes `s[lo..hi]` with leading and trailing zero bytes removed.
fn trim_title(s: &[u8], lo: usize, hi: usize) -> (r: Vec<u8>)
    requires
        lo <= hi <= s@.len(),
    ensures
        r@ == trim_nul(s@.subrange(lo as int, hi as int)),
{
    let mut a = lo;
    let mut b = hi;
    while a < b && (s[a] == 0 || s[b - 1] == 0)
        invariant
            lo <= a <= b <= hi <= s@.len(),
            trim_nul(s@.subrange(a as int, b as int)) == trim_nul(s@.subrange(lo as int, hi as int)),
        decreases b - a,
    {
        let ghost sub = s@.subrange(a as int, b as int);
        if s[a] == 0 {
            assert(sub.drop_first() =~= s@.subrange(a + 1, b as int));
            a = a + 1;
        } else {
            assert(sub.drop_last() =~= s@.subrange(a as int, b - 1));
            b = b - 1;
        }
    }
    let mut out: Vec<u8> = Vec::new();
    let mut i = a;
    while i < b
        invariant
            a <= i <= b <= s@.len(),
            out@ =~= s@.subrange(a as int, i as int),
        decreases b - i,
    {
        out.push(s[i]);
        i = i + 1;
    }
    proof {
        let sub = s@.subrange(a as int, b as int);
        assert(out@ =~= sub);
        if sub.len() > 0 {
            assert(sub[0] == s@[a as int]);
            assert(sub.last() == s@[b - 1]);
        }
    }
    out
}

/// Mathematical state of a cartridge: its storage and the MBC1 registers.
pub ghost struct CartView {
    pub kind: MbcType,
    pub rom: Seq<u8>,
    pub ram: Seq<u8>,
    pub ram_enabled: bool,
    pub rom_bank: u8,
    pub ram_bank: u8,
    pub banking_mode: u8,
}

/// `x & (len - 1)` for a byte offset `x` into storage of `len` bytes.
pub open spec fn wrap_index(x: int, len: int) -> int {
    (x as usize & (len - 1) as usize) as int
}

impl CartView {
    /// ROM bank mapped at 0x0000..0x3FFF.
    pub open spec fn low_bank(self) -> int {
        if self.banking_mode == 1 {
            self.ram_bank * 32
        } else {
            0
        }
    }

    /// ROM bank mapped at 0x4000..0x7FFF: `(ram_bank << 5) | rom_bank`.
    pub open spec fn high_bank(self) -> int {
        self.ram_bank * 32 + self.rom_bank
    }

    /// RAM bank mapped at 0xA000..0xBFFF.
    pub open spec fn ram_bank_now(self) -> int {
        if self.banking_mode == 1 {
            self.ram_bank as int
        } else {
            0
        }
    }

    pub open spec fn rom_at(self, bank: int, offset: int) -> u8 {
        self.rom[wrap_index(bank * 0x4000 + offset, self.rom.len() as int)]
    }

    pub open spec fn ram_index(self, addr: u16, bank: int) -> int {
        wrap_index(bank * 0x2000 + (addr - 0xA000), self.ram.len() as int)
    }

    pub open spec fn ram_read(self, addr: u16, bank: int) -> u8 {
        if self.ram.len() == 0 {
            0xFF
        } else {
            self.ram[self.ram_index(addr, bank)]
        }
    }

    pub open spec fn ram_write(self, addr: u16, v: u8, bank: int) -> Seq<u8> {
        if self.ram.len() == 0 {
            self.ram
        } else {
            self.ram.update(self.ram_index(addr, bank), v)
        }
    }

    pub open spec fn read(self, addr: u16) -> u8 {
        match self.kind {
            MbcType::RomOnly => {
                if addr <= 0x7FFF {
                    if addr < self.rom.len() {
                        self.rom[addr as int]
                    } else {
                        0xFF
                    }
                } else if 0xA000 <= addr <= 0xBFFF {
                    self.ram_read(addr, 0)
                } else {
                    0xFF
                }
            },
            MbcType::MBC1 => {
                if addr <= 0x3FFF {
                    self.rom_at(self.low_bank(), addr as int)
                } else if addr <= 0x7FFF {
                    self.rom_at(self.high_bank(), addr - 0x4000)
                } else if 0xA000 <= addr <= 0xBFFF {
                    if !self.ram_enabled {
                        0xFF
                    } else {
                        self.ram_read(addr, self.ram_bank_now())
                    }
                } else {
                    0xFF
                }
            },
            _ => 0xFF,
        }
    }

    pub open spec fn write(self, addr: u16, v: u8) -> CartView {
        match self.kind {
            MbcType::RomOnly => {
                if 0xA000 <= addr <= 0xBFFF {
                    CartView { ram: self.ram_write(addr, v, 0), ..self }
                } else {
                    self
                }
            },
            MbcType::MBC1 => {
                if addr <= 0x1FFF {
                    CartView { ram_enabled: v & 0x0F == 0x0A, ..self }
                } else if addr <= 0x3FFF {
                    CartView {
                        rom_bank: if v & 0x1F == 0 {
                            1
                        } else {
                            v & 0x1F
                        },
                        ..self
                    }
                } else if addr <= 0x5FFF {
                    CartView { ram_bank: v & 0x03, ..self }
                } else if addr <= 0x7FFF {
                    CartView { banking_mode: v & 0x01, ..self }
                } else if 0xA000 <= addr <= 0xBFFF && self.ram_enabled {
                    CartView { ram: self.ram_write(addr, v, self.ram_bank_now()), ..self }
                } else {
                    self
                }
            },
            _ => self,
        }
    }
}

#[derive(Debug)]
pub struct Cartridge {
    pub header: CartridgeHeader,
    pub rom_data: Vec<u8>,
    pub ram_data: Vec<u8>,
    pub ram_enabled: bool,
    pub rom_bank: u8,
    pub ram_bank: u8,
    /// 0 = ROM banking mode, 1 = RAM banking mode.
    pub banking_mode: u8,
}

impl Cartridge {
    pub open spec fn view(&self) -> CartView {
        CartView {
            kind: self.header.cart_type,
            rom: self.rom_data@,
            ram: self.ram_data@,
            ram_enabled: self.ram_enabled,
            rom_bank: self.rom_bank,
            ram_bank: self.ram_bank,
            banking_mode: self.banking_mode,
        }
    }

    /// The MBC1 registers hold values their write masks allow, and ROM is non-empty.
    pub open spec fn wf(&self) -> bool {
        &&& self.rom_data@.len() > 0
        &&& 1 <= self.rom_bank < 32
        &&& self.ram_bank < 4
        &&& self.banking_mode < 2
    }

    /// Builds a cartridge from a ROM image; its RAM is zeroed, sized as the header says.
    pub fn new(rom_data: Vec<u8>) -> (r: Result<Cartridge, String>)
        ensures
            r is Err <==> rom_data@.len() < HEADER_END,
            r matches Ok(c) ==> {
                &&& c.wf()
                &&& c.header.parsed_from(rom_data@)
                &&& c.rom_data@ == rom_data@
                &&& c.ram_data@ == Seq::new(c.header.ram_size as nat, |i: int| 0u8)
                &&& !c.ram_enabled
                &&& c.rom_bank == 1
                &&& c.ram_bank == 0
                &&& c.banking_mode == 0
            },
    {
        let header = match CartridgeHeader::parse(rom_data.as_slice()) {
            Ok(h) => h,
            Err(e) => return Err(e),
        };
        let ram_size = header.ram_size;
        let ram_data = vec![0u8; ram_size];
        let r = Cartridge {
            header,
            rom_data,
            ram_data,
            ram_enabled: false,
            rom_bank: 1,
            ram_bank: 0,
            banking_mode: 0,
        };
        assert(r.ram_data@ =~= Seq::new(ram_size as nat, |i: int| 0u8));
        Ok(r)
    }

    /// Whether the stored header checksum matches the bytes it covers.
    pub fn verify_checksum(&self) -> (r: bool)
        requires
            self.rom_data@.len() >= HEADER_END,
        ensures
            r == (header_checksum(self.rom_data@) == self.header.check_sum),
    {
        let mut checksum: u8 = 0;
        let mut address: usize = 0x134;
        while address <= 0x14C
            invariant
                0x134 <= address <= 0x14D,
                self.rom_data@.len() >= HEADER_END,
                checksum == checksum_upto(self.rom_data@, (address - 0x134) as nat),
            decreases 0x14D - address,
        {
            checksum = checksum.wrapping_sub(self.rom_data[address]).wrapping_sub(1);
            address = address + 1;
        }
        checksum == self.header.check_sum
    }

    pub fn read(&self, address: u16) -> (r: u8)
        requires
            self.wf(),
        ensures
            r == self.view().read(address),
    {
        match self.header.cart_type {
            MbcType::RomOnly => self.read_rom_only(address),
            MbcType::MBC1 => self.read_mbc1(address),
            _ => 0xFF,
        }
    }

    pub fn write(&mut self, address: u16, byte: u8)
        requires
            old(self).wf(),
        ensures
            final(self).wf(),
            final(self).view() == old(self).view().write(address, byte),
            final(self).header == old(self).header,
    {
        match self.header.cart_type {
            MbcType::RomOnly => self.write_rom_only(address, byte),
            MbcType::MBC1 => self.write_mbc1(address, byte),
            _ => {},
        }
    }

    fn read_rom_only(&self, address: u16) -> (r: u8)
        requires
            self.wf(),
            self.header.cart_type == MbcType::RomOnly,
        ensures
            r == self.view().read(address),
    {
        if address <= 0x7FFF {
            if (address as usize) < self.rom_data.len() {
                self.rom_data[address as usize]
            } else {
                0xFF
            }
        } else if 0xA000 <= address && address <= 0xBFFF {
            self.read_ram_common(address, 0)
        } else {
            0xFF
        }
    }

    fn write_rom_only(&mut self, address: u16, byte: u8)
        requires
            old(self).wf(),
            old(self).header.cart_type == MbcType::RomOnly,
        ensures
            final(self).wf(),
            final(self).view() == old(self).view().write(address, byte),
            final(self).header == old(self).header,
    {
        if 0xA000 <= address && address <= 0xBFFF {
            self.write_ram_common(address, byte, 0);
        }
    }

    fn read_mbc1(&self, address: u16) -> (r: u8)
        requires
            self.wf(),
            self.header.cart_type == MbcType::MBC1,
        ensures
            r == self.view().read(address),
    {
        if address <= 0x3FFF {
            let bank: usize = if self.banking_mode == 1 {
                self.ram_bank as usize * 32
            } else {
                0
            };
            self.read_rom_banked(address, bank)
        } else if address <= 0x7FFF {
            let bank: usize = self.ram_bank as usize * 32 + self.rom_bank as usize;
            self.read_rom_banked(address - 0x4000, bank)
        } else if 0xA000 <= address && address <= 0xBFFF {
            if !self.ram_enabled {
                return 0xFF;
            }
            let bank: usize = if self.banking_mode == 1 {
                self.ram_bank as usize
            } else {
                0
            };
            self.read_ram_common(address, bank)
        } else {
            0xFF
        }
    }

    fn write_mbc1(&mut self, address: u16, byte: u8)
        requires
            old(self).wf(),
            old(self).header.cart_type == MbcType::MBC1,
        ensures
            final(self).wf(),
            final(self).view() == old(self).view().write(address, byte),
            final(self).header == old(self).header,
    {
        if address <= 0x1FFF {
            self.ram_enabled = (byte & 0x0F) == 0x0A;
        } else if address <= 0x3FFF {
            let mut bank = byte & 0x1F;
            if bank == 0 {
                bank = 1;
            }
            assert(byte & 0x1F < 32) by (bit_vector);
            self.rom_bank = bank;
        } else if address <= 0x5FFF {
            assert(byte & 0x03 < 4) by (bit_vector);
            self.ram_bank = byte & 0x03;
        } else if address <= 0x7FFF {
            assert(byte & 0x01 < 2) by (bit_vector);
            self.banking_mode = byte & 0x01;
        } else if 0xA000 <= address && address <= 0xBFFF {
            if !self.ram_enabled {
                return;
            }
            let bank: usize = if self.banking_mode == 1 {
                self.ram_bank as usize
            } else {
                0
            };
            self.write_ram_common(address, byte, bank);
        }
    }

    fn read_rom_banked(&self, offset: u16, bank: usize) -> (r: u8)
        requires
            self.rom_data@.len() > 0,
            bank < 128,
        ensures
            r == self.view().rom_at(bank as int, offset as int),
    {
        let rom_address = (bank * 0x4000) + offset as usize;
        let mask = self.rom_data.len() - 1;
        let final_address = rom_address & mask;
        proof {
            lemma_and_le(rom_address, mask);
        }
        self.rom_data[final_address]
    }

    fn read_ram_common(&self, address: u16, bank: usize) -> (r: u8)
        requires
            0xA000 <= address <= 0xBFFF,
            bank < 4,
        ensures
            r == self.view().ram_read(address, bank as int),
    {
        if self.ram_data.len() == 0 {
            return 0xFF;
        }
        let ram_address = (bank * 0x2000) + (address - 0xA000) as usize;
        let mask = self.ram_data.len() - 1;
        let final_address = ram_address & mask;
        proof {
            lemma_and_le(ram_address, mask);
        }
        self.ram_data[final_address]
    }

    fn write_ram_common(&mut self, address: u16, byte: u8, bank: usize)
        requires
            0xA000 <= address <= 0xBFFF,
            bank < 4,
        ensures
            final(self).ram_data@ == old(self).view().ram_write(address, byte, bank as int),
            final(self).rom_data@ == old(self).rom_data@,
            final(self).header == old(self).header,
            final(self).ram_enabled == old(self).ram_enabled,
            final(self).rom_bank == old(self).rom_bank,
            final(self).ram_bank == old(self).ram_bank,
            final(self).banking_mode == old(self).banking_mode,
    {
        if self.ram_data.len() == 0 {
            return;
        }
        let ram_address = (bank * 0x2000) + (address - 0xA000) as usize;
        let mask = self.ram_data.len() - 1;
        let final_address = ram_address & mask;
        proof {
            lemma_and_le(ram_address, mask);
        }
        self.ram_data[final_address] = byte;
    }
}

proof fn lemma_and_le(x: usize, m: usize)
    ensures
        x & m <= m,
{
    assert(x & m <= m) by (bit_vector);
}

/// Sum of the first `n` header bytes from 0x134.
pub open spec fn header_sum(rom: Seq<u8>, n: nat) -> int
    decreases n,
{
    if n == 0 {
        0
    } else {
        header_sum(rom, (n - 1) as nat) + rom[0x134 + n - 1]
    }
}

/// The header checksum is the sum over 0x134..=0x14C of `-rom[a] - 1`, mod 256.
pub proof fn lemma_checksum_is_negated_sum(rom: Seq<u8>, n: nat)
    requires
        n <= 0x19,
        rom.len() >= HEADER_END,
    ensures
        checksum_upto(rom, n) as int == (0 - header_sum(rom, n) - n) % 256,
    decreases n,
{
    if n == 0 {
        assert(0int % 256 == 0);
    } else {
        lemma_checksum_is_negated_sum(rom, (n - 1) as nat);
        let p = checksum_upto(rom, (n - 1) as nat);
        let b = rom[0x134 + n - 1];
        let x = 0 - header_sum(rom, (n - 1) as nat) - (n - 1);
        let r = checksum_upto(rom, n);
        vstd::arithmetic::div_mod::lemma_fundamental_div_mod(x, 256);
        let k = x / 256;
        assert(x == k * 256 + p);
        let m: int = if p - b < 0 {
            if p - b - 1 + 256 < 0 { 2 } else { 1 }
        } else if p - b - 1 < 0 {
            1
        } else {
            0
        };
        assert(r == p - b - 1 + 256 * m);
        assert(x - b - 1 == (k - m) * 256 + r) by (nonlinear_arith)
            requires
                x == k * 256 + p,
                r == p - b - 1 + 256 * m,
        ;
        vstd::arithmetic::div_mod::lemma_fundamental_div_mod_converse(x - b - 1, 256, k - m, r as int);
    }
}

/// Writing 0 to the ROM bank register selects bank 1 at 0x4000..0x7FFF.
pub proof fn lemma_mbc1_bank_zero_is_one(c: CartView, addr: u16)
    requires
        c.kind == MbcType::MBC1,
        0x2000 <= addr <= 0x3FFF,
    ensures
        c.write(addr, 0).rom_bank == 1,
        c.write(addr, 0).high_bank() == c.ram_bank * 32 + 1,
        forall|a: u16|
            0x4000 <= a <= 0x7FFF ==> #[trigger] c.write(addr, 0).read(a) == c.rom_at(
                c.ram_bank * 32 + 1,
                a - 0x4000,
            ),
{
    assert(0u8 & 0x1F == 0) by (bit_vector);
}

} // verus!
