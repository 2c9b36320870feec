//! The virtual processor: a decode table, a register bank and a memory image,
//! driven by the fetch-decode-execute loop.

use vstd::prelude::*;

use crate::decode::{
    catalog_layout, catalog_wf, compile_decode_table, compiled_from, InstrDesc, InstructionCodecPair,
};
use crate::instructions::{thumb16_layout, InstrThumb16, NUM_TH16_INSTRUCTIONS, UNUSED_FIELD};
use crate::loader::ProgramImage;
use crate::memory::{le16, Memory, Register, RegisterBank};

verus! {

/// Why a run stopped before its cycle limit.
#[derive(Clone, Copy, Debug, PartialEq, Eq, Structural)]
pub enum Fault {
    /// The halfword at `address` lies outside memory.
    FetchOutOfBounds { pc: u32, address: u32 },
    /// The opcode is not mapped to any instruction.
    Undefined { pc: u32, opcode: u16 },
    /// The instruction decodes but its execution is not implemented.
    Unimplemented { pc: u32, opcode: u16, decoded: InstrThumb16 },
    /// The second halfword of a two-halfword instruction lies outside memory.
    SecondHalfwordOutOfBounds { pc: u32, first: u16, address: u32, decoded: InstrThumb16 },
    /// A two-halfword instruction whose execution is not implemented.
    UnimplementedWide { pc: u32, first: u16, second: u16, decoded: InstrThumb16 },
}

/// How a bounded run ended.
#[derive(Clone, Copy, Debug, PartialEq, Eq, Structural)]
pub struct RunReport {
    /// Instructions completed.
    pub cycles: usize,
    /// The fault that stopped the run, or `None` when the cycle limit did.
    pub fault: Option<Fault>,
}

/// `x` reduced to a 32-bit address.
pub open spec fn wrap32(x: int) -> u32 {
    (x % 0x1_0000_0000) as u32
}

/// The halfword at `address`, when both of its bytes lie in memory.
pub open spec fn fetch_at(mem: Seq<u8>, address: u32) -> Option<u16> {
    if address + 1 < mem.len() {
        Some(le16(mem[address as int], mem[address + 1]))
    } else {
        None
    }
}

/// The byte offset of an unconditional branch: the 11-bit field `immx:imm`,
/// sign-extended and doubled.
pub open spec fn branch_offset(imm: u8, immx: u8) -> int {
    let raw = (immx % 8) as int * 256 + imm as int;
    2 * (if raw >= 1024 {
        raw - 2048
    } else {
        raw
    })
}

/// What executing `instr`, fetched as `opcode` at `pc`, does: the next program
/// counter, or the fault it stops with.
///
/// Hints advance by one halfword; an unconditional branch jumps relative to
/// `pc + 4`; a first halfword of a two-halfword instruction fetches the second
/// one and stops, as do all other instructions, whose execution is not
/// implemented.
pub open spec fn execute_spec(pc: u32, opcode: u16, instr: InstrThumb16, mem: Seq<u8>) -> Result<
    u32,
    Fault,
> {
    match instr {
        InstrThumb16::Undefined => Err(Fault::Undefined { pc, opcode }),
        InstrThumb16::Nop | InstrThumb16::Yield | InstrThumb16::Wfe | InstrThumb16::Wfi
        | InstrThumb16::Sev => Ok(wrap32(pc + 2)),
        InstrThumb16::Branch { cond, imm, immx } => if cond == UNUSED_FIELD {
            Ok(wrap32(pc + 4 + branch_offset(imm, immx)))
        } else {
            Err(Fault::Unimplemented { pc, opcode, decoded: instr })
        },
        InstrThumb16::Thumb2A { .. } | InstrThumb16::Thumb2B { .. } | InstrThumb16::Thumb2C {
            ..
        } => match fetch_at(mem, wrap32(pc + 2)) {
            Some(second) => Err(
                Fault::UnimplementedWide { pc, first: opcode, second, decoded: instr },
            ),
            None => Err(
                Fault::SecondHalfwordOutOfBounds {
                    pc,
                    first: opcode,
                    address: wrap32(pc + 2),
                    decoded: instr,
                },
            ),
        },
        _ => Err(Fault::Unimplemented { pc, opcode, decoded: instr }),
    }
}

/// One fetch-decode-execute cycle from `pc`.
pub open spec fn step_spec(pc: u32, mem: Seq<u8>, table: Seq<InstrThumb16>) -> Result<u32, Fault> {
    match fetch_at(mem, pc) {
        Some(opcode) => execute_spec(pc, opcode, table[opcode as int], mem),
        None => Err(Fault::FetchOutOfBounds { pc, address: pc }),
    }
}

/// At most `limit` cycles from `pc`: the cycles completed, the fault that
/// stopped the run if one did, and the final program counter.
pub open spec fn run_spec(pc: u32, mem: Seq<u8>, table: Seq<InstrThumb16>, limit: nat) -> (
    nat,
    Option<Fault>,
    u32,
)
    decreases limit,
{
    if limit == 0 {
        (0, None, pc)
    } else {
        match step_spec(pc, mem, table) {
            Ok(next) => {
                let rest = run_spec(next, mem, table, (limit - 1) as nat);
                (rest.0 + 1, rest.1, rest.2)
            },
            Err(f) => (0, Some(f), pc),
        }
    }
}

/// ARMv7-M virtual processor.
///
/// R0-R7 are addressable by every 16-bit instruction, R8-R12 are general
/// purpose, then come the two stack pointers, the link register, the program
/// counter and the status registers.
pub struct Processor {
    dct: Vec<InstrThumb16>,
    reg: RegisterBank,
    mem: Memory,
    reset: usize,
}

impl Processor {
    /// Holds a full decode table and a register for every name.
    pub closed spec fn wf(self) -> bool {
        &&& self.dct@.len() == NUM_TH16_INSTRUCTIONS
        &&& self.reg.wf()
    }

    /// The decode table.
    pub closed spec fn table(self) -> Seq<InstrThumb16> {
        self.dct@
    }

    /// The register bank.
    pub closed spec fn registers(self) -> RegisterBank {
        self.reg
    }

    /// The memory image.
    pub closed spec fn memory(self) -> Seq<u8> {
        self.mem@
    }

    /// The entry address of the loaded image.
    pub closed spec fn entry_point(self) -> usize {
        self.reset
    }

    /// The program counter.
    pub open spec fn pc(self) -> u32 {
        self.registers().value(Register::PC)
    }

    /// A processor with no memory, zeroed registers and a table that maps
    /// every opcode to `Undefined`.
    pub fn new() -> (r: Processor)
        ensures
            r.wf(),
            forall|x: int| 0 <= x < NUM_TH16_INSTRUCTIONS ==> #[trigger] r.table()[x]
                == InstrThumb16::Undefined,
            forall|reg: Register| #[trigger] r.registers().value(reg) == 0,
            r.memory().len() == 0,
            r.entry_point() == 0,
    {
        let mut dct: Vec<InstrThumb16> = Vec::new();
        let mut n: usize = 0;
        while n < NUM_TH16_INSTRUCTIONS
            invariant
                n <= NUM_TH16_INSTRUCTIONS,
                dct@.len() == n,
                forall|x: int| 0 <= x < n ==> #[trigger] dct@[x] == InstrThumb16::Undefined,
            decreases NUM_TH16_INSTRUCTIONS - n,
        {
            dct.push(InstrThumb16::Undefined);
            n = n + 1;
        }
        let mem = Memory::allocate(0);
        proof {
            assert(((0int + 4096 - 1) / 4096) * 4096 == 0) by (nonlinear_arith);
        }
        Processor { dct, reg: RegisterBank::new(), mem, reset: 0 }
    }

    /// Builds the decode table of the whole instruction set, replacing any
    /// earlier one.
    pub fn init(&mut self)
        requires
            old(self).wf(),
        ensures
            final(self).wf(),
            exists|descs: Seq<InstrDesc>|
                catalog_wf(descs) && catalog_layout(descs) == thumb16_layout()
                    && #[trigger] compiled_from(final(self).table(), descs),
            final(self).registers() == old(self).registers(),
            final(self).memory() == old(self).memory(),
            final(self).entry_point() == old(self).entry_point(),
    {
        let table = InstrThumb16::generate_decode_table();
        self.dct = table;
        proof {
            let d = choose|d: Seq<InstrDesc>|
                catalog_wf(d) && catalog_layout(d) == thumb16_layout() && #[trigger] compiled_from(
                    table@,
                    d,
                );
            assert(self.table() == table@);
            assert(compiled_from(self.table(), d));
        }
    }

    /// Builds the decode table of the catalog `descs`, replacing any earlier one.
    pub fn init_with(&mut self, descs: &Vec<InstrDesc>)
        requires
            old(self).wf(),
            catalog_wf(descs@),
        ensures
            final(self).wf(),
            compiled_from(final(self).table(), descs@),
            final(self).registers() == old(self).registers(),
            final(self).memory() == old(self).memory(),
            final(self).entry_point() == old(self).entry_point(),
    {
        self.dct = compile_decode_table(descs);
    }

    /// The decode table as (opcode, instruction) pairs, in opcode order.
    pub fn decode_table(&self) -> (r: Vec<InstructionCodecPair>)
        requires
            self.wf(),
        ensures
            r@.len() == NUM_TH16_INSTRUCTIONS,
            forall|x: int| 0 <= x < NUM_TH16_INSTRUCTIONS ==> #[trigger] r@[x] == (InstructionCodecPair {
                encoded: x as u16,
                decoded: self.table()[x],
            }),
    {
        let mut pairs: Vec<InstructionCodecPair> = Vec::new();
        let mut n: usize = 0;
        while n < NUM_TH16_INSTRUCTIONS
            invariant
                self.wf(),
                n <= NUM_TH16_INSTRUCTIONS,
                pairs@.len() == n,
                forall|x: int| 0 <= x < n ==> #[trigger] pairs@[x] == (InstructionCodecPair {
                    encoded: x as u16,
                    decoded: self.table()[x],
                }),
            decreases NUM_TH16_INSTRUCTIONS - n,
        {
            pairs.push(InstructionCodecPair::new(n as u16, self.dct[n]));
            n = n + 1;
        }
        pairs
    }

    /// Takes ownership of a program image and points the program counter at
    /// its entry address.
    pub fn load(&mut self, image: ProgramImage)
        requires
            old(self).wf(),
        ensures
            final(self).wf(),
            final(self).table() == old(self).table(),
            final(self).memory() == image.memory_spec(),
            final(self).entry_point() == image.entry_spec(),
            final(self).pc() == image.entry_spec() as u32,
            forall|reg: Register| reg != Register::PC ==> #[trigger] final(self).registers().value(reg)
                == old(self).registers().value(reg),
    {
        self.reset = image.entry();
        self.mem = image.into_raw_image();
        self.reg.set(Register::PC, self.reset as u32);
    }

    /// Points the program counter at the entry address with the Thumb bit
    /// (bit 0) cleared.
    pub fn reset(&mut self)
        requires
            old(self).wf(),
        ensures
            final(self).wf(),
            final(self).table() == old(self).table(),
            final(self).memory() == old(self).memory(),
            final(self).entry_point() == old(self).entry_point(),
            final(self).pc() == (old(self).entry_point() as u32) & 0xFFFF_FFFEu32,
            forall|reg: Register| reg != Register::PC ==> #[trigger] final(self).registers().value(reg)
                == old(self).registers().value(reg),
    {
        self.reg.set(Register::PC, (self.reset as u32) & 0xFFFF_FFFEu32);
    }

    /// Runs at most `cycle_limit` fetch-decode-execute cycles.
    pub fn run(&mut self, cycle_limit: usize) -> (r: RunReport)
        requires
            old(self).wf(),
        ensures
            final(self).wf(),
            final(self).table() == old(self).table(),
            final(self).memory() == old(self).memory(),
            final(self).entry_point() == old(self).entry_point(),
            r.cycles == run_spec(old(self).pc(), old(self).memory(), old(self).table(), cycle_limit as nat).0,
            r.fault == run_spec(old(self).pc(), old(self).memory(), old(self).table(), cycle_limit as nat).1,
            final(self).pc() == run_spec(old(self).pc(), old(self).memory(), old(self).table(), cycle_limit as nat).2,
            forall|reg: Register| reg != Register::PC ==> #[trigger] final(self).registers().value(reg)
                == old(self).registers().value(reg),
    {
        self.fde_loop(cycle_limit)
    }

    /// Reads register `r`.
    pub fn register(&self, r: Register) -> (v: u32)
        requires
            self.wf(),
        ensures
            v == self.registers().value(r),
    {
        self.reg.get(r)
    }

    /// The halfword at the program counter.
    fn fetch(&self) -> (r: Option<u16>)
        requires
            self.wf(),
        ensures
            r == fetch_at(self.memory(), self.pc()),
    {
        let at = self.reg.get(Register::PC);
        self.mem.read_u16(at as usize)
    }

    /// Looks an opcode up in the decode table: every opcode has an entry.
    pub fn decode(&self, instruction: u16) -> (r: InstrThumb16)
        requires
            self.wf(),
        ensures
            r == self.table()[instruction as int],
    {
        self.dct[instruction as usize]
    }

    /// Performs one fetch-decode-execute cycle.
    pub fn step(&mut self) -> (r: Result<(), Fault>)
        requires
            old(self).wf(),
        ensures
            final(self).wf(),
            final(self).table() == old(self).table(),
            final(self).memory() == old(self).memory(),
            final(self).entry_point() == old(self).entry_point(),
            match step_spec(old(self).pc(), old(self).memory(), old(self).table()) {
                Ok(next) => r is Ok && final(self).pc() == next,
                Err(f) => r == Err::<(), Fault>(f) && final(self).pc() == old(self).pc(),
            },
            forall|reg: Register| reg != Register::PC ==> #[trigger] final(self).registers().value(reg)
                == old(self).registers().value(reg),
    {
        let pc = self.reg.get(Register::PC);
        let fetched = match self.fetch() {
            Some(h) => h,
            None => {
                return Err(Fault::FetchOutOfBounds { pc, address: pc });
            },
        };
        let decoded = self.decode(fetched);
        match decoded {
            InstrThumb16::Undefined => Err(Fault::Undefined { pc, opcode: fetched }),
            InstrThumb16::Nop | InstrThumb16::Yield | InstrThumb16::Wfe | InstrThumb16::Wfi
            | InstrThumb16::Sev => {
                self.reg.set(Register::PC, pc.wrapping_add(2));
                Ok(())
            },
            InstrThumb16::Branch { cond, imm, immx } => {
                if cond == UNUSED_FIELD {
                    self.reg.set(Register::PC, branch_target(pc, imm, immx));
                    Ok(())
                } else {
                    Err(Fault::Unimplemented { pc, opcode: fetched, decoded })
                }
            },
            InstrThumb16::Thumb2A { .. } | InstrThumb16::Thumb2B { .. } | InstrThumb16::Thumb2C {
                ..
            } => {
                let next = pc.wrapping_add(2);
                match self.mem.read_u16(next as usize) {
                    Some(second) => Err(
                        Fault::UnimplementedWide { pc, first: fetched, second, decoded },
                    ),
                    None => Err(
                        Fault::SecondHalfwordOutOfBounds { pc, first: fetched, address: next, decoded },
                    ),
                }
            },
            InstrThumb16::AdcReg { .. }
            | InstrThumb16::AddImm { .. }
            | InstrThumb16::AddReg { .. }
            | InstrThumb16::AddSpImm { .. }
            | InstrThumb16::AddSpReg { .. }
            | InstrThumb16::Adr { .. }
            | InstrThumb16::AndReg { .. }
            | InstrThumb16::AsrImm { .. }
            | InstrThumb16::AsrReg { .. }
            | InstrThumb16::BicReg { .. }
            | InstrThumb16::Breakpoint { .. }
            | InstrThumb16::BranchLx { .. }
            | InstrThumb16::BranchX { .. }
            | InstrThumb16::Cbnz { .. }
            | InstrThumb16::Cbz { .. }
            | InstrThumb16::CmnReg { .. }
            | InstrThumb16::CmpImm { .. }
            | InstrThumb16::CmpReg { .. }
            | InstrThumb16::Cps { .. }
            | InstrThumb16::EorReg { .. }
            | InstrThumb16::IfThen { .. }
            | InstrThumb16::Ldm { .. }
            | InstrThumb16::LdrImm { .. }
            | InstrThumb16::LdrLit { .. }
            | InstrThumb16::LdrReg { .. }
            | InstrThumb16::LdrbImm { .. }
            | InstrThumb16::LdrbReg { .. }
            | InstrThumb16::LdrhImm { .. }
            | InstrThumb16::LdrhReg { .. }
            | InstrThumb16::LdrSbReg { .. }
            | InstrThumb16::LdrShReg { .. }
            | InstrThumb16::LslImm { .. }
            | InstrThumb16::LslReg { .. }
            | InstrThumb16::LsrImm { .. }
            | InstrThumb16::LsrReg { .. }
            | InstrThumb16::MovImm { .. }
            | InstrThumb16::MovReg { .. }
            | InstrThumb16::Mul { .. }
            | InstrThumb16::MvnReg { .. }
            | InstrThumb16::OrrReg { .. }
            | InstrThumb16::Pop { .. }
            | InstrThumb16::Push { .. }
            | InstrThumb16::Rev { .. }
            | InstrThumb16::Rev16 { .. }
            | InstrThumb16::RevSh { .. }
            | InstrThumb16::RorReg { .. }
            | InstrThumb16::RsbImm { .. }
            | InstrThumb16::SbcReg { .. }
            | InstrThumb16::Stm { .. }
            | InstrThumb16::StrImm { .. }
            | InstrThumb16::StrReg { .. }
            | InstrThumb16::StrbImm { .. }
            | InstrThumb16::StrbReg { .. }
            | InstrThumb16::StrhImm { .. }
            | InstrThumb16::StrhReg { .. }
            | InstrThumb16::SubImm { .. }
            | InstrThumb16::SubReg { .. }
            | InstrThumb16::SubSpImm { .. }
            | InstrThumb16::Svc
            | InstrThumb16::Sxtb { .. }
            | InstrThumb16::Sxth { .. }
            | InstrThumb16::TstReg { .. }
            | InstrThumb16::Udf { .. }
            | InstrThumb16::Uxtb { .. }
            | InstrThumb16::Uxth { .. } => Err(Fault::Unimplemented { pc, opcode: fetched, decoded }),
        }
    }

    fn fde_loop(&mut self, cycle_limit: usize) -> (r: RunReport)
        requires
            old(self).wf(),
        ensures
            final(self).wf(),
            final(self).table() == old(self).table(),
            final(self).memory() == old(self).memory(),
            final(self).entry_point() == old(self).entry_point(),
            r.cycles == run_spec(old(self).pc(), old(self).memory(), old(self).table(), cycle_limit as nat).0,
            r.fault == run_spec(old(self).pc(), old(self).memory(), old(self).table(), cycle_limit as nat).1,
            final(self).pc() == run_spec(old(self).pc(), old(self).memory(), old(self).table(), cycle_limit as nat).2,
            forall|reg: Register| reg != Register::PC ==> #[trigger] final(self).registers().value(reg)
                == old(self).registers().value(reg),
    {
        let ghost whole = run_spec(self.pc(), self.memory(), self.table(), cycle_limit as nat);
        let mut cycles: usize = 0;
        while cycles < cycle_limit
            invariant
                self.wf(),
                cycles <= cycle_limit,
                self.table() == old(self).table(),
                self.memory() == old(self).memory(),
                self.entry_point() == old(self).entry_point(),
                forall|reg: Register| reg != Register::PC ==> #[trigger] self.registers().value(reg)
                    == old(self).registers().value(reg),
                whole == run_spec(old(self).pc(), old(self).memory(), old(self).table(), cycle_limit as nat),
                ({
                    let rest = run_spec(self.pc(), self.memory(), self.table(), (cycle_limit - cycles) as nat);
                    whole == ((rest.0 + cycles) as nat, rest.1, rest.2)
                }),
            decreases cycle_limit - cycles,
        {
            match self.step() {
                Ok(()) => {},
                Err(f) => {
                    return RunReport { cycles, fault: Some(f) };
                },
            }
            cycles = cycles + 1;
        }
        RunReport { cycles, fault: None }
    }
}

/// The target of an unconditional branch at `pc`.
fn branch_target(pc: u32, imm: u8, immx: u8) -> (r: u32)
    ensures
        r == wrap32(pc + 4 + branch_offset(imm, immx)),
{
    let raw: u32 = ((immx % 8) as u32) * 256 + imm as u32;
    if raw >= 1024 {
        pc.wrapping_add(4).wrapping_add(raw * 2).wrapping_sub(4096)
    } else {
        pc.wrapping_add(4).wrapping_add(raw * 2)
    }
}

} // verus!
