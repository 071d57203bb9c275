use vstd::prelude::*;

verus! {

/// Operand width of a data movement, arithmetic operation or bus access.
#[derive(Clone, Copy, Debug, PartialEq, Eq, Structural)]
pub enum Size {
    Byte,
    Word,
    Long,
}

impl Size {
    /// Number of bytes an access of this size touches.
    pub open spec fn spec_bytes(self) -> int {
        match self {
            Size::Byte => 1,
            Size::Word => 2,
            Size::Long => 4,
        }
    }

    /// One past the largest unsigned value representable at this size.
    pub open spec fn modulus(self) -> int {
        match self {
            Size::Byte => 0x100,
            Size::Word => 0x10000,
            Size::Long => 0x1_0000_0000,
        }
    }

    pub fn bytes(self) -> (r: u32)
        ensures
            r == self.spec_bytes(),
    {
        match self {
            Size::Byte => 1,
            Size::Word => 2,
            Size::Long => 4,
        }
    }
}

/// The low `s` bytes of a 32-bit value; the untouched upper bytes are dropped.
pub open spec fn masked(v: u32, s: Size) -> u32 {
    (v as int % s.modulus()) as u32
}

/// Whether the most significant bit at size `s` is set, i.e. the value is
/// negative when read as a two's-complement integer of that width.
pub open spec fn sign_of(v: u32, s: Size) -> bool {
    masked(v, s) >= s.modulus() / 2
}

/// Truncate a value to a size (executable form of `masked`); truncating
/// again changes nothing.
pub fn mask_to(v: u32, s: Size) -> (r: u32)
    ensures
        r == masked(v, s),
        r == masked(r, s),
{
    proof {
        vstd::arithmetic::div_mod::lemma_mod_twice(v as int, s.modulus() as int);
    }
    match s {
        Size::Byte => v % 0x100,
        Size::Word => v % 0x10000,
        Size::Long => v,
    }
}

/// Whether the sign bit at size `s` is set (executable form of `sign_of`).
pub fn sign_bit(v: u32, s: Size) -> (r: bool)
    ensures
        r == sign_of(v, s),
{
    match s {
        Size::Byte => v % 0x100 >= 0x80,
        Size::Word => v % 0x10000 >= 0x8000,
        Size::Long => v >= 0x8000_0000,
    }
}

/// A recoverable processor exception. Every variant is routed through the
/// vector table so the emulated program may handle it.
#[derive(Clone, Copy, Debug, PartialEq, Eq, Structural)]
pub enum Fault {
    /// Misaligned word or long access.
    AddressError,
    /// Access outside every configured region.
    UnmappedAddress,
    /// Write into a read-only region.
    WriteProtect,
    /// Opcode word that decodes to no instruction.
    IllegalInstruction,
    /// Supervisor-only operation attempted in user mode.
    PrivilegeViolation,
}

/// An unrecoverable condition, surfaced to the host; emulation cannot continue.
#[derive(Clone, Copy, Debug, PartialEq, Eq, Structural)]
pub enum CoreError {
    /// A fault was raised while an exception was already being vectored.
    DoubleFault,
    /// The vector-table slot for the operative exception is unset or unreadable.
    InvalidVector,
}

/// Vector-table slot assigned to each fault. Unmapped accesses use the bus
/// error slot, misaligned accesses the address error slot, undecodable opcodes
/// the illegal instruction slot and privilege violations their dedicated slot;
/// write protection, which real hardware folds into bus errors, is given the
/// first reserved slot so handlers can tell the two apart.
pub open spec fn spec_fault_vector(f: Fault) -> u8 {
    match f {
        Fault::UnmappedAddress => 2,
        Fault::AddressError => 3,
        Fault::IllegalInstruction => 4,
        Fault::PrivilegeViolation => 8,
        Fault::WriteProtect => 12,
    }
}

pub fn fault_vector(f: Fault) -> (r: u8)
    ensures
        r == spec_fault_vector(f),
{
    match f {
        Fault::UnmappedAddress => 2,
        Fault::AddressError => 3,
        Fault::IllegalInstruction => 4,
        Fault::PrivilegeViolation => 8,
        Fault::WriteProtect => 12,
    }
}

/// Vector-table slot for a hardware interrupt of priority 1-7 (the
/// autovector block).
pub open spec fn spec_interrupt_vector(level: u8) -> u8 {
    (24 + level) as u8
}

pub fn interrupt_vector(level: u8) -> (r: u8)
    requires
        level <= 7,
    ensures
        r == spec_interrupt_vector(level),
{
    24 + level
}

} // verus!
