use vstd::prelude::*;

use crate::types::Fault;
use crate::types::Size;

verus! {

/// Big-endian value of the `sz.spec_bytes()` bytes of `s` starting at `off`:
/// the most significant byte sits at the lowest address.
pub open spec fn be_val(s: Seq<u8>, off: int, sz: Size) -> int {
    match sz {
        Size::Byte => s[off] as int,
        Size::Word => s[off] * 0x100 + s[off + 1],
        Size::Long => s[off] * 0x1000000 + s[off + 1] * 0x10000 + s[off + 2] * 0x100 + s[off + 3],
    }
}

/// `s` with the low `sz.spec_bytes()` bytes of `v` stored big-endian at `off`.
pub open spec fn store_be(s: Seq<u8>, off: int, sz: Size, v: u32) -> Seq<u8> {
    match sz {
        Size::Byte => s.update(off, (v % 0x100) as u8),
        Size::Word => s.update(off, (v / 0x100 % 0x100) as u8).update(off + 1, (v % 0x100) as u8),
        Size::Long => s.update(off, (v / 0x1000000 % 0x100) as u8).update(
            off + 1,
            (v / 0x10000 % 0x100) as u8,
        ).update(off + 2, (v / 0x100 % 0x100) as u8).update(off + 3, (v % 0x100) as u8),
    }
}

/// Word and long accesses must start on an even address; bytes may start
/// anywhere.
pub open spec fn spec_aligned(addr: u32, sz: Size) -> bool {
    sz is Byte || addr % 2 == 0
}

/// The memory bus. It owns the 24-bit address space and routes each access to
/// the region that wholly contains it: cartridge ROM (read-only) or work RAM.
/// The two region boundaries come straight from the cartridge configuration;
/// the bus never clips or rounds an access, and a configuration whose regions
/// overlap is rejected at construction. Reads of unmapped addresses fault
/// rather than returning an open-bus value.
pub struct Bus {
    pub rom: Vec<u8>,
    pub rom_start: u32,
    pub rom_end: u32,
    pub ram: Vec<u8>,
    pub ram_start: u32,
    pub ram_end: u32,
}

impl Bus {
    pub open spec fn wf(self) -> bool {
        &&& self.rom_start <= self.rom_end < 0x1000000
        &&& self.ram_start <= self.ram_end < 0x1000000
        &&& self.rom@.len() == self.rom_end - self.rom_start + 1
        &&& self.ram@.len() == self.ram_end - self.ram_start + 1
        &&& (self.rom_end < self.ram_start || self.ram_end < self.rom_start)
    }

    /// Whether ROM wholly contains the `n` bytes starting at `addr`.
    pub open spec fn in_rom(self, addr: int, n: int) -> bool {
        self.rom_start <= addr && addr + n <= self.rom_end + 1
    }

    /// Whether RAM wholly contains the `n` bytes starting at `addr`.
    pub open spec fn in_ram(self, addr: int, n: int) -> bool {
        self.ram_start <= addr && addr + n <= self.ram_end + 1
    }

    /// What a read returns: a fault for a misaligned multi-byte access, the
    /// big-endian value for an access wholly inside ROM or RAM, and an
    /// unmapped-address fault otherwise (including accesses that straddle a
    /// region boundary).
    pub open spec fn spec_read(self, addr: u32, sz: Size) -> Result<u32, Fault> {
        let n = sz.spec_bytes();
        if !spec_aligned(addr, sz) {
            Err(Fault::AddressError)
        } else if self.in_rom(addr as int, n) {
            Ok(be_val(self.rom@, addr - self.rom_start, sz) as u32)
        } else if self.in_ram(addr as int, n) {
            Ok(be_val(self.ram@, addr - self.ram_start, sz) as u32)
        } else {
            Err(Fault::UnmappedAddress)
        }
    }

    /// Whether a write succeeds: alignment is checked first, then a write
    /// wholly inside ROM is refused as write-protected, one wholly inside RAM
    /// succeeds, and everything else is unmapped.
    pub open spec fn spec_write_result(self, addr: u32, sz: Size) -> Result<(), Fault> {
        let n = sz.spec_bytes();
        if !spec_aligned(addr, sz) {
            Err(Fault::AddressError)
        } else if self.in_rom(addr as int, n) {
            Err(Fault::WriteProtect)
        } else if self.in_ram(addr as int, n) {
            Ok(())
        } else {
            Err(Fault::UnmappedAddress)
        }
    }

    /// Build the bus from the cartridge configuration: the ROM image with its
    /// declared address range and the declared RAM range. The configuration is
    /// rejected (`None`) when a bound leaves the 24-bit space, a range is
    /// inverted, the image length does not match the declared ROM range, or
    /// the two ranges overlap. RAM starts zero-filled.
    pub fn new(rom: Vec<u8>, rom_start: u32, rom_end: u32, ram_start: u32, ram_end: u32) -> (r:
        Option<Bus>)
        ensures
            r is Some <==> {
                &&& rom_start <= rom_end < 0x1000000
                &&& ram_start <= ram_end < 0x1000000
                &&& rom@.len() == rom_end - rom_start + 1
                &&& (rom_end < ram_start || ram_end < rom_start)
            },
            r matches Some(b) ==> {
                &&& b.wf()
                &&& b.rom@ == rom@
                &&& b.rom_start == rom_start
                &&& b.rom_end == rom_end
                &&& b.ram_start == ram_start
                &&& b.ram_end == ram_end
                &&& forall|i: int| 0 <= i < b.ram@.len() ==> b.ram@[i] == 0
            },
    {
        if !(rom_start <= rom_end && rom_end < 0x1000000) {
            return None;
        }
        if !(ram_start <= ram_end && ram_end < 0x1000000) {
            return None;
        }
        if !(rom_end < ram_start || ram_end < rom_start) {
            return None;
        }
        let rom_len: usize = (rom_end - rom_start) as usize + 1;
        if rom.len() != rom_len {
            return None;
        }
        let ram_len: usize = (ram_end - ram_start) as usize + 1;
        let mut ram: Vec<u8> = Vec::new();
        let mut k: usize = 0;
        while k < ram_len
            invariant
                k <= ram_len,
                ram@.len() == k,
                forall|i: int| 0 <= i < k ==> ram@[i] == 0,
            decreases ram_len - k,
        {
            ram.push(0);
            k = k + 1;
        }
        Some(Bus { rom, rom_start, rom_end, ram, ram_start, ram_end })
    }

    /// Whether a write of this size at this address would succeed, without
    /// performing it.
    pub fn writable(&self, addr: u32, sz: Size) -> (r: bool)
        requires
            self.wf(),
        ensures
            r == (self.spec_write_result(addr, sz) is Ok),
    {
        let n = sz.bytes();
        if !(matches!(sz, Size::Byte) || addr % 2 == 0) {
            return false;
        }
        if self.rom_start <= addr && addr <= self.rom_end && self.rom_end - addr >= n - 1 {
            return false;
        }
        self.ram_start <= addr && addr <= self.ram_end && self.ram_end - addr >= n - 1
    }

    /// Read `sz` bytes big-endian at `addr`, routing by range containment.
    pub fn read(&self, addr: u32, sz: Size) -> (r: Result<u32, Fault>)
        requires
            self.wf(),
        ensures
            r == self.spec_read(addr, sz),
    {
        let n = sz.bytes();
        if !(matches!(sz, Size::Byte) || addr % 2 == 0) {
            return Err(Fault::AddressError);
        }
        if self.rom_start <= addr && addr <= self.rom_end && self.rom_end - addr >= n - 1 {
            let off = (addr - self.rom_start) as usize;
            Ok(read_slice_be(&self.rom, off, sz))
        } else if self.ram_start <= addr && addr <= self.ram_end && self.ram_end - addr >= n - 1 {
            let off = (addr - self.ram_start) as usize;
            Ok(read_slice_be(&self.ram, off, sz))
        } else {
            Err(Fault::UnmappedAddress)
        }
    }

    /// Write the low `sz` bytes of `v` big-endian at `addr`. Alignment is
    /// checked before anything else; a write into ROM is refused with a
    /// write-protect fault and changes nothing; on any fault the bus is left
    /// exactly as it was.
    pub fn write(&mut self, addr: u32, sz: Size, v: u32) -> (r: Result<(), Fault>)
        requires
            old(self).wf(),
        ensures
            final(self).wf(),
            r == old(self).spec_write_result(addr, sz),
            final(self).rom@ == old(self).rom@,
            final(self).rom_start == old(self).rom_start,
            final(self).rom_end == old(self).rom_end,
            final(self).ram_start == old(self).ram_start,
            final(self).ram_end == old(self).ram_end,
            r is Ok ==> final(self).ram@ == store_be(
                old(self).ram@,
                addr - old(self).ram_start,
                sz,
                v,
            ),
            r is Err ==> final(self).ram@ == old(self).ram@,
    {
        let n = sz.bytes();
        if !(matches!(sz, Size::Byte) || addr % 2 == 0) {
            return Err(Fault::AddressError);
        }
        if self.rom_start <= addr && addr <= self.rom_end && self.rom_end - addr >= n - 1 {
            return Err(Fault::WriteProtect);
        }
        if self.ram_start <= addr && addr <= self.ram_end && self.ram_end - addr >= n - 1 {
            let off = (addr - self.ram_start) as usize;
            match sz {
                Size::Byte => {
                    self.ram[off] = (v % 0x100) as u8;
                },
                Size::Word => {
                    self.ram[off] = (v / 0x100 % 0x100) as u8;
                    self.ram[off + 1] = (v % 0x100) as u8;
                },
                Size::Long => {
                    self.ram[off] = (v / 0x1000000 % 0x100) as u8;
                    self.ram[off + 1] = (v / 0x10000 % 0x100) as u8;
                    self.ram[off + 2] = (v / 0x100 % 0x100) as u8;
                    self.ram[off + 3] = (v % 0x100) as u8;
                },
            }
            Ok(())
        } else {
            Err(Fault::UnmappedAddress)
        }
    }
}

/// Big-endian read of `sz` bytes at `off` from a byte vector.
fn read_slice_be(s: &Vec<u8>, off: usize, sz: Size) -> (r: u32)
    requires
        off + sz.spec_bytes() <= s.len(),
    ensures
        r == be_val(s@, off as int, sz),
{
    match sz {
        Size::Byte => s[off] as u32,
        Size::Word => (s[off] as u32) * 0x100 + (s[off + 1] as u32),
        Size::Long => (s[off] as u32) * 0x1000000 + (s[off + 1] as u32) * 0x10000 + (s[off
            + 2] as u32) * 0x100 + (s[off + 3] as u32),
    }
}

/// The bytes a store lays down read back as the stored value, truncated to
/// the operand size.
pub proof fn lemma_store_readback(s: Seq<u8>, off: int, sz: Size, v: u32)
    requires
        0 <= off,
        off + sz.spec_bytes() <= s.len(),
    ensures
        be_val(store_be(s, off, sz, v), off, sz) == crate::types::masked(v, sz),
{
    match sz {
        Size::Byte => {
        },
        Size::Word => {
            assert((v / 0x100 % 0x100) * 0x100 + v % 0x100 == v % 0x10000) by (bit_vector);
        },
        Size::Long => {
            assert((v / 0x1000000 % 0x100) * 0x1000000 + (v / 0x10000 % 0x100) * 0x10000 + (v
                / 0x100 % 0x100) * 0x100 + v % 0x100 == v) by (bit_vector);
        },
    }
}

/// Reading where a successful write just landed yields the written value,
/// truncated to the access size: the bus loses nothing it accepted.
pub proof fn lemma_write_then_read(pre: Bus, post: Bus, addr: u32, sz: Size, v: u32)
    requires
        pre.wf(),
        post.wf(),
        pre.spec_write_result(addr, sz) is Ok,
        post.ram@ == store_be(pre.ram@, addr - pre.ram_start, sz, v),
        post.ram_start == pre.ram_start,
        post.ram_end == pre.ram_end,
        post.rom@ == pre.rom@,
        post.rom_start == pre.rom_start,
        post.rom_end == pre.rom_end,
    ensures
        post.spec_read(addr, sz) == Ok::<u32, Fault>(crate::types::masked(v, sz)),
{
    lemma_store_readback(pre.ram@, addr - pre.ram_start, sz, v);
    vstd::arithmetic::div_mod::lemma_small_mod(
        crate::types::masked(v, sz) as nat,
        sz.modulus() as nat,
    );
}

/// Whatever a read returns is already truncated to its size.
pub proof fn lemma_read_masked(b: Bus, addr: u32, sz: Size)
    ensures
        b.spec_read(addr, sz) matches Ok(v) ==> v == crate::types::masked(v, sz),
{
    if b.spec_read(addr, sz) is Ok {
        let v = b.spec_read(addr, sz)->Ok_0;
        assert(v < sz.modulus());
        vstd::arithmetic::div_mod::lemma_small_mod(v as nat, sz.modulus() as nat);
    }
}

/// A misaligned word or long access always faults with an address error, on
/// reads and writes alike, whatever the memory map holds; an even-address
/// access (and any byte access) never raises an address error, whatever else
/// it may fault with.
pub proof fn lemma_alignment(b: Bus, addr: u32, sz: Size)
    ensures
        !(sz is Byte) && addr % 2 == 1 ==> b.spec_read(addr, sz) == Err::<u32, Fault>(
            Fault::AddressError,
        ) && b.spec_write_result(addr, sz) == Err::<(), Fault>(Fault::AddressError),
        addr % 2 == 0 || sz is Byte ==> b.spec_read(addr, sz) != Err::<u32, Fault>(
            Fault::AddressError,
        ) && b.spec_write_result(addr, sz) != Err::<(), Fault>(Fault::AddressError),
{
}

} // verus!
