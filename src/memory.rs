//! Registers and byte-addressable memory of the virtual processor.

use vstd::prelude::*;

verus! {

/// Addressable registers.
#[derive(Clone, Copy, Debug, PartialEq, Eq, Structural)]
pub enum Register {
    // Thumb16 addressable
    R0,
    R1,
    R2,
    R3,
    R4,
    R5,
    R6,
    R7,
    // Thumb32 addressable
    R8,
    R9,
    R10,
    R11,
    R12,
    // main and process stack pointers
    SPM,
    SPP,
    // link register
    LR,
    // program counter: the address of the current instruction
    PC,
    // program status registers
    APSR,
    IPSR,
    EPSR,
}

/// Number of registers a bank holds.
pub const NUM_REGISTERS: usize = 20;

impl Register {
    /// The register's slot in a bank.
    pub open spec fn slot(self) -> nat {
        match self {
            Register::R0 => 0,
            Register::R1 => 1,
            Register::R2 => 2,
            Register::R3 => 3,
            Register::R4 => 4,
            Register::R5 => 5,
            Register::R6 => 6,
            Register::R7 => 7,
            Register::R8 => 8,
            Register::R9 => 9,
            Register::R10 => 10,
            Register::R11 => 11,
            Register::R12 => 12,
            Register::SPM => 13,
            Register::SPP => 14,
            Register::LR => 15,
            Register::PC => 16,
            Register::APSR => 17,
            Register::IPSR => 18,
            Register::EPSR => 19,
        }
    }

    /// The register's slot in a bank.
    pub fn index(self) -> (r: usize)
        ensures
            r == self.slot(),
            r < NUM_REGISTERS,
    {
        match self {
            Register::R0 => 0,
            Register::R1 => 1,
            Register::R2 => 2,
            Register::R3 => 3,
            Register::R4 => 4,
            Register::R5 => 5,
            Register::R6 => 6,
            Register::R7 => 7,
            Register::R8 => 8,
            Register::R9 => 9,
            Register::R10 => 10,
            Register::R11 => 11,
            Register::R12 => 12,
            Register::SPM => 13,
            Register::SPP => 14,
            Register::LR => 15,
            Register::PC => 16,
            Register::APSR => 17,
            Register::IPSR => 18,
            Register::EPSR => 19,
        }
    }
}

/// A 32-bit value for each register.
#[derive(Debug)]
pub struct RegisterBank {
    registers: Vec<u32>,
}

impl RegisterBank {
    /// Holds a slot for every register.
    pub closed spec fn wf(self) -> bool {
        self.registers@.len() == NUM_REGISTERS
    }

    /// The value held in register `r`.
    pub closed spec fn value(self, r: Register) -> u32 {
        self.registers@[r.slot() as int]
    }

    /// A bank with every register zero.
    pub fn new() -> (r: RegisterBank)
        ensures
            r.wf(),
            forall|reg: Register| #[trigger] r.value(reg) == 0,
    {
        let mut registers: Vec<u32> = Vec::new();
        let mut i: usize = 0;
        while i < NUM_REGISTERS
            invariant
                i <= NUM_REGISTERS,
                registers@.len() == i,
                forall|j: int| 0 <= j < i ==> #[trigger] registers@[j] == 0,
            decreases NUM_REGISTERS - i,
        {
            registers.push(0);
            i = i + 1;
        }
        RegisterBank { registers }
    }

    /// Reads register `r`.
    pub fn get(&self, r: Register) -> (v: u32)
        requires
            self.wf(),
        ensures
            v == self.value(r),
    {
        self.registers[r.index()]
    }

    /// Writes `v` to register `r`, leaving the others as they are.
    pub fn set(&mut self, r: Register, v: u32)
        requires
            old(self).wf(),
        ensures
            final(self).wf(),
            final(self).value(r) == v,
            forall|o: Register| o != r ==> #[trigger] final(self).value(o) == old(self).value(o),
    {
        let i = r.index();
        self.registers.set(i, v);
    }
}

/// Rounds `value` up to the next multiple of `align`; unchanged when `align` is zero.
pub open spec fn aligned_up(value: nat, align: nat) -> nat {
    if align == 0 {
        value
    } else {
        ((value + align - 1) as nat / align) * align
    }
}

/// Granule in which memory is allocated.
pub const PAGE_SIZE: usize = 4096;

/// The halfword stored little-endian in the bytes `lo`, `hi`.
pub open spec fn le16(lo: u8, hi: u8) -> u16 {
    (lo as int + 256 * (hi as int)) as u16
}

/// A fixed-size, byte-addressable memory image.
#[derive(Debug)]
pub struct Memory {
    bytes: Vec<u8>,
}

impl View for Memory {
    type V = Seq<u8>;

    closed spec fn view(&self) -> Seq<u8> {
        self.bytes@
    }
}

impl Memory {
    /// Allocates zeroed memory of at least `size` bytes, rounded up to whole pages.
    pub fn allocate(size: usize) -> (r: Memory)
        requires
            size + PAGE_SIZE <= usize::MAX,
        ensures
            r@.len() == aligned_up(size as nat, PAGE_SIZE as nat),
            forall|i: int| 0 <= i < r@.len() ==> #[trigger] r@[i] == 0,
    {
        let aligned_size = Memory::align_with(size, PAGE_SIZE);
        let mut bytes: Vec<u8> = Vec::new();
        let mut i: usize = 0;
        while i < aligned_size
            invariant
                i <= aligned_size,
                bytes@.len() == i,
                forall|j: int| 0 <= j < i ==> #[trigger] bytes@[j] == 0,
            decreases aligned_size - i,
        {
            bytes.push(0);
            i = i + 1;
        }
        Memory { bytes }
    }

    /// Reads the little-endian halfword at `address`; `None` when either byte
    /// lies outside the memory. Such an access is never truncated or wrapped:
    /// the processor turns `None` into a fatal `FetchOutOfBounds` or
    /// `SecondHalfwordOutOfBounds` fault that ends the run.
    pub fn read_u16(&self, address: usize) -> (r: Option<u16>)
        ensures
            r == (if address + 1 < self@.len() {
                Some(le16(self@[address as int], self@[address + 1]))
            } else {
                None
            }),
    {
        if address < self.bytes.len() && self.bytes.len() - address > 1 {
            let lo = self.bytes[address];
            let hi = self.bytes[address + 1];
            Some(lo as u16 + 256 * (hi as u16))
        } else {
            None
        }
    }

    /// Copies `bytes` into memory starting at `address`.
    pub fn write_bytes(&mut self, address: usize, bytes: &[u8])
        requires
            address + bytes@.len() <= old(self)@.len(),
        ensures
            final(self)@ == old(self)@.subrange(0, address as int) + bytes@ + old(self)@.subrange(
                address + bytes@.len(),
                old(self)@.len() as int,
            ),
    {
        let len = self.bytes.len();
        let mut i: usize = 0;
        while i < bytes.len()
            invariant
                len == self@.len(),
                address + bytes@.len() <= old(self)@.len(),
                i <= bytes@.len(),
                self@.len() == old(self)@.len(),
                forall|j: int|
                    0 <= j < self@.len() ==> #[trigger] self@[j] == (if address <= j < address + i {
                        bytes@[j - address]
                    } else {
                        old(self)@[j]
                    }),
            decreases bytes@.len() - i,
        {
            self.bytes.set(address + i, bytes[i]);
            i = i + 1;
        }
        proof {
            assert(self@ =~= old(self)@.subrange(0, address as int) + bytes@ + old(self)@.subrange(
                address + bytes@.len(),
                old(self)@.len() as int,
            ));
        }
    }

    /// The size of the memory in bytes.
    pub fn allocated_bytes(&self) -> (r: usize)
        ensures
            r == self@.len(),
    {
        self.bytes.len()
    }

    fn align_with(value: usize, align: usize) -> (r: usize)
        requires
            value + align <= usize::MAX,
        ensures
            r == aligned_up(value as nat, align as nat),
    {
        if align == 0 {
            value
        } else {
            let q = (value + align - 1) / align;
            proof {
                let x = (value + align - 1) as int;
                assert(q * align <= x) by (nonlinear_arith)
                    requires
                        q as int == x / (align as int),
                        align > 0,
                ;
            }
            q * align
        }
    }
}

} // verus!
