//! The 16-bit Thumb instruction forms and the catalog of their encodings.

use vstd::prelude::*;

pub mod data_processing;

use crate::decode::{
    catalog_layout, catalog_wf, compile_decode_table, compiled_from, desc_layout, Encoding,
    EncodingLayout, InstrDesc, Operand,
};

verus! {

/// Number of distinct 16-bit opcodes, and so the length of a decode table.
pub const NUM_TH16_INSTRUCTIONS: usize = 65536;

/// Names of the operand fields that instruction forms carry.
#[derive(Clone, Copy, Debug, PartialEq, Eq, Structural)]
pub enum Field {
    Cond,
    D,
    Ff,
    Fi,
    High,
    Imm,
    Imm1,
    Imm5,
    Immx,
    List,
    Low,
    M,
    Mask,
    N,
    P,
    Rd,
    Rdm,
    Rdn,
    Rm,
    Rn,
    Rt,
}

/// A decoded 16-bit Thumb instruction: one variant per instruction form, each
/// carrying its operands as raw 8-bit field values.
#[derive(Clone, Copy, Debug, PartialEq, Eq, Structural)]
pub enum InstrThumb16 {
    AdcReg { rm: u8, rdn: u8 },
    AddImm { imm: u8, rdn: u8, rd: u8 },
    AddReg { rm: u8, rdn: u8, rd: u8 },
    AddSpImm { imm: u8, rd: u8 },
    AddSpReg { rdm: u8 },
    Adr { rd: u8, imm: u8 },
    AndReg { rm: u8, rdn: u8 },
    AsrImm { imm: u8, rm: u8, rd: u8 },
    AsrReg { rm: u8, rdn: u8 },
    Branch { cond: u8, imm: u8, immx: u8 },
    BicReg { rm: u8, rdn: u8 },
    Breakpoint { imm: u8 },
    BranchLx { rm: u8 },
    BranchX { rm: u8 },
    Cbnz { imm1: u8, imm5: u8, rn: u8 },
    Cbz { imm1: u8, imm5: u8, rn: u8 },
    CmnReg { rm: u8, rn: u8 },
    CmpImm { rn: u8, imm: u8 },
    CmpReg { rm: u8, rn: u8, n: u8 },
    Cps { imm: u8, fi: u8, ff: u8 },
    EorReg { rm: u8, rdn: u8 },
    IfThen { cond: u8, mask: u8 },
    Ldm { list: u8, rn: u8 },
    LdrImm { imm: u8, rn: u8, rt: u8 },
    LdrLit { rt: u8, imm: u8 },
    LdrReg { rm: u8, rn: u8, rt: u8 },
    LdrbImm { imm: u8, rn: u8, rt: u8 },
    LdrbReg { rm: u8, rn: u8, rt: u8 },
    LdrhImm { imm: u8, rn: u8, rt: u8 },
    LdrhReg { rm: u8, rn: u8, rt: u8 },
    LdrSbReg { rm: u8, rn: u8, rt: u8 },
    LdrShReg { rm: u8, rn: u8, rt: u8 },
    LslImm { imm: u8, rm: u8, rd: u8 },
    LslReg { rm: u8, rdn: u8 },
    LsrImm { imm: u8, rm: u8, rd: u8 },
    LsrReg { rm: u8, rdn: u8 },
    MovImm { rd: u8, imm: u8 },
    MovReg { rm: u8, rd: u8, d: u8 },
    Mul { rn: u8, rdm: u8 },
    MvnReg { rm: u8, rd: u8 },
    Nop,
    OrrReg { rm: u8, rdn: u8 },
    Pop { p: u8, list: u8 },
    Push { m: u8, list: u8 },
    Rev { rm: u8, rd: u8 },
    Rev16 { rm: u8, rd: u8 },
    RevSh { rm: u8, rd: u8 },
    RorReg { rm: u8, rdn: u8 },
    RsbImm { rn: u8, rd: u8 },
    SbcReg { rm: u8, rdn: u8 },
    Sev,
    Stm { rn: u8, list: u8 },
    StrImm { imm: u8, rn: u8, rt: u8 },
    StrReg { rm: u8, rn: u8, rt: u8 },
    StrbImm { imm: u8, rn: u8, rt: u8 },
    StrbReg { rm: u8, rn: u8, rt: u8 },
    StrhImm { imm: u8, rn: u8, rt: u8 },
    StrhReg { rm: u8, rn: u8, rt: u8 },
    SubImm { imm: u8, rn: u8, rdn: u8 },
    SubReg { rm: u8, rn: u8, rd: u8 },
    SubSpImm { imm: u8 },
    Svc,
    Sxtb { rm: u8, rd: u8 },
    Sxth { rm: u8, rd: u8 },
    TstReg { rm: u8, rn: u8 },
    Udf { imm: u8 },
    Uxtb { rm: u8, rd: u8 },
    Uxth { rm: u8, rd: u8 },
    Wfe,
    Wfi,
    Yield,
    // first halfwords of two-halfword instructions
    Thumb2A { high: u8, low: u8 },
    Thumb2B { high: u8, low: u8 },
    Thumb2C { high: u8, low: u8 },
    Undefined,
}

impl InstrThumb16 {
    /// The value of the named field, or `None` when this form has no such field.
    pub open spec fn field(self, f: Field) -> Option<u8> {
        match self {
            InstrThumb16::AdcReg { rm, rdn } => match f {
                Field::Rm => Some(rm),
                Field::Rdn => Some(rdn),
                _ => None,
            },
            InstrThumb16::AddImm { imm, rdn, rd } => match f {
                Field::Imm => Some(imm),
                Field::Rdn => Some(rdn),
                Field::Rd => Some(rd),
                _ => None,
            },
            InstrThumb16::AddReg { rm, rdn, rd } => match f {
                Field::Rm => Some(rm),
                Field::Rdn => Some(rdn),
                Field::Rd => Some(rd),
                _ => None,
            },
            InstrThumb16::AddSpImm { imm, rd } => match f {
                Field::Imm => Some(imm),
                Field::Rd => Some(rd),
                _ => None,
            },
            InstrThumb16::AddSpReg { rdm } => match f {
                Field::Rdm => Some(rdm),
                _ => None,
            },
            InstrThumb16::Adr { rd, imm } => match f {
                Field::Rd => Some(rd),
                Field::Imm => Some(imm),
                _ => None,
            },
            InstrThumb16::AndReg { rm, rdn } => match f {
                Field::Rm => Some(rm),
                Field::Rdn => Some(rdn),
                _ => None,
            },
            InstrThumb16::AsrImm { imm, rm, rd } => match f {
                Field::Imm => Some(imm),
                Field::Rm => Some(rm),
                Field::Rd => Some(rd),
                _ => None,
            },
            InstrThumb16::AsrReg { rm, rdn } => match f {
                Field::Rm => Some(rm),
                Field::Rdn => Some(rdn),
                _ => None,
            },
            InstrThumb16::Branch { cond, imm, immx } => match f {
                Field::Cond => Some(cond),
                Field::Imm => Some(imm),
                Field::Immx => Some(immx),
                _ => None,
            },
            InstrThumb16::BicReg { rm, rdn } => match f {
                Field::Rm => Some(rm),
                Field::Rdn => Some(rdn),
                _ => None,
            },
            InstrThumb16::Breakpoint { imm } => match f {
                Field::Imm => Some(imm),
                _ => None,
            },
            InstrThumb16::BranchLx { rm } => match f {
                Field::Rm => Some(rm),
                _ => None,
            },
            InstrThumb16::BranchX { rm } => match f {
                Field::Rm => Some(rm),
                _ => None,
            },
            InstrThumb16::Cbnz { imm1, imm5, rn } => match f {
                Field::Imm1 => Some(imm1),
                Field::Imm5 => Some(imm5),
                Field::Rn => Some(rn),
                _ => None,
            },
            InstrThumb16::Cbz { imm1, imm5, rn } => match f {
                Field::Imm1 => Some(imm1),
                Field::Imm5 => Some(imm5),
                Field::Rn => Some(rn),
                _ => None,
            },
            InstrThumb16::CmnReg { rm, rn } => match f {
                Field::Rm => Some(rm),
                Field::Rn => Some(rn),
                _ => None,
            },
            InstrThumb16::CmpImm { rn, imm } => match f {
                Field::Rn => Some(rn),
                Field::Imm => Some(imm),
                _ => None,
            },
            InstrThumb16::CmpReg { rm, rn, n } => match f {
                Field::Rm => Some(rm),
                Field::Rn => Some(rn),
                Field::N => Some(n),
                _ => None,
            },
            InstrThumb16::Cps { imm, fi, ff } => match f {
                Field::Imm => Some(imm),
                Field::Fi => Some(fi),
                Field::Ff => Some(ff),
                _ => None,
            },
            InstrThumb16::EorReg { rm, rdn } => match f {
                Field::Rm => Some(rm),
                Field::Rdn => Some(rdn),
                _ => None,
            },
            InstrThumb16::IfThen { cond, mask } => match f {
                Field::Cond => Some(cond),
                Field::Mask => Some(mask),
                _ => None,
            },
            InstrThumb16::Ldm { list, rn } => match f {
                Field::List => Some(list),
                Field::Rn => Some(rn),
                _ => None,
            },
            InstrThumb16::LdrImm { imm, rn, rt } => match f {
                Field::Imm => Some(imm),
                Field::Rn => Some(rn),
                Field::Rt => Some(rt),
                _ => None,
            },
            InstrThumb16::LdrLit { rt, imm } => match f {
                Field::Rt => Some(rt),
                Field::Imm => Some(imm),
                _ => None,
            },
            InstrThumb16::LdrReg { rm, rn, rt } => match f {
                Field::Rm => Some(rm),
                Field::Rn => Some(rn),
                Field::Rt => Some(rt),
                _ => None,
            },
            InstrThumb16::LdrbImm { imm, rn, rt } => match f {
                Field::Imm => Some(imm),
                Field::Rn => Some(rn),
                Field::Rt => Some(rt),
                _ => None,
            },
            InstrThumb16::LdrbReg { rm, rn, rt } => match f {
                Field::Rm => Some(rm),
                Field::Rn => Some(rn),
                Field::Rt => Some(rt),
                _ => None,
            },
            InstrThumb16::LdrhImm { imm, rn, rt } => match f {
                Field::Imm => Some(imm),
                Field::Rn => Some(rn),
                Field::Rt => Some(rt),
                _ => None,
            },
            InstrThumb16::LdrhReg { rm, rn, rt } => match f {
                Field::Rm => Some(rm),
                Field::Rn => Some(rn),
                Field::Rt => Some(rt),
                _ => None,
            },
            InstrThumb16::LdrSbReg { rm, rn, rt } => match f {
                Field::Rm => Some(rm),
                Field::Rn => Some(rn),
                Field::Rt => Some(rt),
                _ => None,
            },
            InstrThumb16::LdrShReg { rm, rn, rt } => match f {
                Field::Rm => Some(rm),
                Field::Rn => Some(rn),
                Field::Rt => Some(rt),
                _ => None,
            },
            InstrThumb16::LslImm { imm, rm, rd } => match f {
                Field::Imm => Some(imm),
                Field::Rm => Some(rm),
                Field::Rd => Some(rd),
                _ => None,
            },
            InstrThumb16::LslReg { rm, rdn } => match f {
                Field::Rm => Some(rm),
                Field::Rdn => Some(rdn),
                _ => None,
            },
            InstrThumb16::LsrImm { imm, rm, rd } => match f {
                Field::Imm => Some(imm),
                Field::Rm => Some(rm),
                Field::Rd => Some(rd),
                _ => None,
            },
            InstrThumb16::LsrReg { rm, rdn } => match f {
                Field::Rm => Some(rm),
                Field::Rdn => Some(rdn),
                _ => None,
            },
            InstrThumb16::MovImm { rd, imm } => match f {
                Field::Rd => Some(rd),
                Field::Imm => Some(imm),
                _ => None,
            },
            InstrThumb16::MovReg { rm, rd, d } => match f {
                Field::Rm => Some(rm),
                Field::Rd => Some(rd),
                Field::D => Some(d),
                _ => None,
            },
            InstrThumb16::Mul { rn, rdm } => match f {
                Field::Rn => Some(rn),
                Field::Rdm => Some(rdm),
                _ => None,
            },
            InstrThumb16::MvnReg { rm, rd } => match f {
                Field::Rm => Some(rm),
                Field::Rd => Some(rd),
                _ => None,
            },
            InstrThumb16::OrrReg { rm, rdn } => match f {
                Field::Rm => Some(rm),
                Field::Rdn => Some(rdn),
                _ => None,
            },
            InstrThumb16::Pop { p, list } => match f {
                Field::P => Some(p),
                Field::List => Some(list),
                _ => None,
            },
            InstrThumb16::Push { m, list } => match f {
                Field::M => Some(m),
                Field::List => Some(list),
                _ => None,
            },
            InstrThumb16::Rev { rm, rd } => match f {
                Field::Rm => Some(rm),
                Field::Rd => Some(rd),
                _ => None,
            },
            InstrThumb16::Rev16 { rm, rd } => match f {
                Field::Rm => Some(rm),
                Field::Rd => Some(rd),
                _ => None,
            },
            InstrThumb16::RevSh { rm, rd } => match f {
                Field::Rm => Some(rm),
                Field::Rd => Some(rd),
                _ => None,
            },
            InstrThumb16::RorReg { rm, rdn } => match f {
                Field::Rm => Some(rm),
                Field::Rdn => Some(rdn),
                _ => None,
            },
            InstrThumb16::RsbImm { rn, rd } => match f {
                Field::Rn => Some(rn),
                Field::Rd => Some(rd),
                _ => None,
            },
            InstrThumb16::SbcReg { rm, rdn } => match f {
                Field::Rm => Some(rm),
                Field::Rdn => Some(rdn),
                _ => None,
            },
            InstrThumb16::Stm { rn, list } => match f {
                Field::Rn => Some(rn),
                Field::List => Some(list),
                _ => None,
            },
            InstrThumb16::StrImm { imm, rn, rt } => match f {
                Field::Imm => Some(imm),
                Field::Rn => Some(rn),
                Field::Rt => Some(rt),
                _ => None,
            },
            InstrThumb16::StrReg { rm, rn, rt } => match f {
                Field::Rm => Some(rm),
                Field::Rn => Some(rn),
                Field::Rt => Some(rt),
                _ => None,
            },
            InstrThumb16::StrbImm { imm, rn, rt } => match f {
                Field::Imm => Some(imm),
                Field::Rn => Some(rn),
                Field::Rt => Some(rt),
                _ => None,
            },
            InstrThumb16::StrbReg { rm, rn, rt } => match f {
                Field::Rm => Some(rm),
                Field::Rn => Some(rn),
                Field::Rt => Some(rt),
                _ => None,
            },
            InstrThumb16::StrhImm { imm, rn, rt } => match f {
                Field::Imm => Some(imm),
                Field::Rn => Some(rn),
                Field::Rt => Some(rt),
                _ => None,
            },
            InstrThumb16::StrhReg { rm, rn, rt } => match f {
                Field::Rm => Some(rm),
                Field::Rn => Some(rn),
                Field::Rt => Some(rt),
                _ => None,
            },
            InstrThumb16::SubImm { imm, rn, rdn } => match f {
                Field::Imm => Some(imm),
                Field::Rn => Some(rn),
                Field::Rdn => Some(rdn),
                _ => None,
            },
            InstrThumb16::SubReg { rm, rn, rd } => match f {
                Field::Rm => Some(rm),
                Field::Rn => Some(rn),
                Field::Rd => Some(rd),
                _ => None,
            },
            InstrThumb16::SubSpImm { imm } => match f {
                Field::Imm => Some(imm),
                _ => None,
            },
            InstrThumb16::Sxtb { rm, rd } => match f {
                Field::Rm => Some(rm),
                Field::Rd => Some(rd),
                _ => None,
            },
            InstrThumb16::Sxth { rm, rd } => match f {
                Field::Rm => Some(rm),
                Field::Rd => Some(rd),
                _ => None,
            },
            InstrThumb16::TstReg { rm, rn } => match f {
                Field::Rm => Some(rm),
                Field::Rn => Some(rn),
                _ => None,
            },
            InstrThumb16::Udf { imm } => match f {
                Field::Imm => Some(imm),
                _ => None,
            },
            InstrThumb16::Uxtb { rm, rd } => match f {
                Field::Rm => Some(rm),
                Field::Rd => Some(rd),
                _ => None,
            },
            InstrThumb16::Uxth { rm, rd } => match f {
                Field::Rm => Some(rm),
                Field::Rd => Some(rd),
                _ => None,
            },
            InstrThumb16::Thumb2A { high, low } => match f {
                Field::High => Some(high),
                Field::Low => Some(low),
                _ => None,
            },
            InstrThumb16::Thumb2B { high, low } => match f {
                Field::High => Some(high),
                Field::Low => Some(low),
                _ => None,
            },
            InstrThumb16::Thumb2C { high, low } => match f {
                Field::High => Some(high),
                Field::Low => Some(low),
                _ => None,
            },
            _ => None,
        }
    }

    /// This instruction with the named field set to `v`; unchanged when the form
    /// has no such field.
    pub open spec fn with_field(self, f: Field, v: u8) -> InstrThumb16 {
        match self {
            InstrThumb16::AdcReg { rm, rdn } => match f {
                Field::Rm => InstrThumb16::AdcReg { rm: v, rdn },
                Field::Rdn => InstrThumb16::AdcReg { rm, rdn: v },
                _ => self,
            },
            InstrThumb16::AddImm { imm, rdn, rd } => match f {
                Field::Imm => InstrThumb16::AddImm { imm: v, rdn, rd },
                Field::Rdn => InstrThumb16::AddImm { imm, rdn: v, rd },
                Field::Rd => InstrThumb16::AddImm { imm, rdn, rd: v },
                _ => self,
            },
            InstrThumb16::AddReg { rm, rdn, rd } => match f {
                Field::Rm => InstrThumb16::AddReg { rm: v, rdn, rd },
                Field::Rdn => InstrThumb16::AddReg { rm, rdn: v, rd },
                Field::Rd => InstrThumb16::AddReg { rm, rdn, rd: v },
                _ => self,
            },
            InstrThumb16::AddSpImm { imm, rd } => match f {
                Field::Imm => InstrThumb16::AddSpImm { imm: v, rd },
                Field::Rd => InstrThumb16::AddSpImm { imm, rd: v },
                _ => self,
            },
            InstrThumb16::AddSpReg { rdm } => match f {
                Field::Rdm => InstrThumb16::AddSpReg { rdm: v },
                _ => self,
            },
            InstrThumb16::Adr { rd, imm } => match f {
                Field::Rd => InstrThumb16::Adr { rd: v, imm },
                Field::Imm => InstrThumb16::Adr { rd, imm: v },
                _ => self,
            },
            InstrThumb16::AndReg { rm, rdn } => match f {
                Field::Rm => InstrThumb16::AndReg { rm: v, rdn },
                Field::Rdn => InstrThumb16::AndReg { rm, rdn: v },
                _ => self,
            },
            InstrThumb16::AsrImm { imm, rm, rd } => match f {
                Field::Imm => InstrThumb16::AsrImm { imm: v, rm, rd },
                Field::Rm => InstrThumb16::AsrImm { imm, rm: v, rd },
                Field::Rd => InstrThumb16::AsrImm { imm, rm, rd: v },
                _ => self,
            },
            InstrThumb16::AsrReg { rm, rdn } => match f {
                Field::Rm => InstrThumb16::AsrReg { rm: v, rdn },
                Field::Rdn => InstrThumb16::AsrReg { rm, rdn: v },
                _ => self,
            },
            InstrThumb16::Branch { cond, imm, immx } => match f {
                Field::Cond => InstrThumb16::Branch { cond: v, imm, immx },
                Field::Imm => InstrThumb16::Branch { cond, imm: v, immx },
                Field::Immx => InstrThumb16::Branch { cond, imm, immx: v },
                _ => self,
            },
            InstrThumb16::BicReg { rm, rdn } => match f {
                Field::Rm => InstrThumb16::BicReg { rm: v, rdn },
                Field::Rdn => InstrThumb16::BicReg { rm, rdn: v },
                _ => self,
            },
            InstrThumb16::Breakpoint { imm } => match f {
                Field::Imm => InstrThumb16::Breakpoint { imm: v },
                _ => self,
            },
            InstrThumb16::BranchLx { rm } => match f {
                Field::Rm => InstrThumb16::BranchLx { rm: v },
                _ => self,
            },
            InstrThumb16::BranchX { rm } => match f {
                Field::Rm => InstrThumb16::BranchX { rm: v },
                _ => self,
            },
            InstrThumb16::Cbnz { imm1, imm5, rn } => match f {
                Field::Imm1 => InstrThumb16::Cbnz { imm1: v, imm5, rn },
                Field::Imm5 => InstrThumb16::Cbnz { imm1, imm5: v, rn },
                Field::Rn => InstrThumb16::Cbnz { imm1, imm5, rn: v },
                _ => self,
            },
            InstrThumb16::Cbz { imm1, imm5, rn } => match f {
                Field::Imm1 => InstrThumb16::Cbz { imm1: v, imm5, rn },
                Field::Imm5 => InstrThumb16::Cbz { imm1, imm5: v, rn },
                Field::Rn => InstrThumb16::Cbz { imm1, imm5, rn: v },
                _ => self,
            },
            InstrThumb16::CmnReg { rm, rn } => match f {
                Field::Rm => InstrThumb16::CmnReg { rm: v, rn },
                Field::Rn => InstrThumb16::CmnReg { rm, rn: v },
                _ => self,
            },
            InstrThumb16::CmpImm { rn, imm } => match f {
                Field::Rn => InstrThumb16::CmpImm { rn: v, imm },
                Field::Imm => InstrThumb16::CmpImm { rn, imm: v },
                _ => self,
            },
            InstrThumb16::CmpReg { rm, rn, n } => match f {
                Field::Rm => InstrThumb16::CmpReg { rm: v, rn, n },
                Field::Rn => InstrThumb16::CmpReg { rm, rn: v, n },
                Field::N => InstrThumb16::CmpReg { rm, rn, n: v },
                _ => self,
            },
            InstrThumb16::Cps { imm, fi, ff } => match f {
                Field::Imm => InstrThumb16::Cps { imm: v, fi, ff },
                Field::Fi => InstrThumb16::Cps { imm, fi: v, ff },
                Field::Ff => InstrThumb16::Cps { imm, fi, ff: v },
                _ => self,
            },
            InstrThumb16::EorReg { rm, rdn } => match f {
                Field::Rm => InstrThumb16::EorReg { rm: v, rdn },
                Field::Rdn => InstrThumb16::EorReg { rm, rdn: v },
                _ => self,
            },
            InstrThumb16::IfThen { cond, mask } => match f {
                Field::Cond => InstrThumb16::IfThen { cond: v, mask },
                Field::Mask => InstrThumb16::IfThen { cond, mask: v },
                _ => self,
            },
            InstrThumb16::Ldm { list, rn } => match f {
                Field::List => InstrThumb16::Ldm { list: v, rn },
                Field::Rn => InstrThumb16::Ldm { list, rn: v },
                _ => self,
            },
            InstrThumb16::LdrImm { imm, rn, rt } => match f {
                Field::Imm => InstrThumb16::LdrImm { imm: v, rn, rt },
                Field::Rn => InstrThumb16::LdrImm { imm, rn: v, rt },
                Field::Rt => InstrThumb16::LdrImm { imm, rn, rt: v },
                _ => self,
            },
            InstrThumb16::LdrLit { rt, imm } => match f {
                Field::Rt => InstrThumb16::LdrLit { rt: v, imm },
                Field::Imm => InstrThumb16::LdrLit { rt, imm: v },
                _ => self,
            },
            InstrThumb16::LdrReg { rm, rn, rt } => match f {
                Field::Rm => InstrThumb16::LdrReg { rm: v, rn, rt },
                Field::Rn => InstrThumb16::LdrReg { rm, rn: v, rt },
                Field::Rt => InstrThumb16::LdrReg { rm, rn, rt: v },
                _ => self,
            },
            InstrThumb16::LdrbImm { imm, rn, rt } => match f {
                Field::Imm => InstrThumb16::LdrbImm { imm: v, rn, rt },
                Field::Rn => InstrThumb16::LdrbImm { imm, rn: v, rt },
                Field::Rt => InstrThumb16::LdrbImm { imm, rn, rt: v },
                _ => self,
            },
            InstrThumb16::LdrbReg { rm, rn, rt } => match f {
                Field::Rm => InstrThumb16::LdrbReg { rm: v, rn, rt },
                Field::Rn => InstrThumb16::LdrbReg { rm, rn: v, rt },
                Field::Rt => InstrThumb16::LdrbReg { rm, rn, rt: v },
                _ => self,
            },
            InstrThumb16::LdrhImm { imm, rn, rt } => match f {
                Field::Imm => InstrThumb16::LdrhImm { imm: v, rn, rt },
                Field::Rn => InstrThumb16::LdrhImm { imm, rn: v, rt },
                Field::Rt => InstrThumb16::LdrhImm { imm, rn, rt: v },
                _ => self,
            },
            InstrThumb16::LdrhReg { rm, rn, rt } => match f {
                Field::Rm => InstrThumb16::LdrhReg { rm: v, rn, rt },
                Field::Rn => InstrThumb16::LdrhReg { rm, rn: v, rt },
                Field::Rt => InstrThumb16::LdrhReg { rm, rn, rt: v },
                _ => self,
            },
            InstrThumb16::LdrSbReg { rm, rn, rt } => match f {
                Field::Rm => InstrThumb16::LdrSbReg { rm: v, rn, rt },
                Field::Rn => InstrThumb16::LdrSbReg { rm, rn: v, rt },
                Field::Rt => InstrThumb16::LdrSbReg { rm, rn, rt: v },
                _ => self,
            },
            InstrThumb16::LdrShReg { rm, rn, rt } => match f {
                Field::Rm => InstrThumb16::LdrShReg { rm: v, rn, rt },
                Field::Rn => InstrThumb16::LdrShReg { rm, rn: v, rt },
                Field::Rt => InstrThumb16::LdrShReg { rm, rn, rt: v },
                _ => self,
            },
            InstrThumb16::LslImm { imm, rm, rd } => match f {
                Field::Imm => InstrThumb16::LslImm { imm: v, rm, rd },
                Field::Rm => InstrThumb16::LslImm { imm, rm: v, rd },
                Field::Rd => InstrThumb16::LslImm { imm, rm, rd: v },
                _ => self,
            },
            InstrThumb16::LslReg { rm, rdn } => match f {
                Field::Rm => InstrThumb16::LslReg { rm: v, rdn },
                Field::Rdn => InstrThumb16::LslReg { rm, rdn: v },
                _ => self,
            },
            InstrThumb16::LsrImm { imm, rm, rd } => match f {
                Field::Imm => InstrThumb16::LsrImm { imm: v, rm, rd },
                Field::Rm => InstrThumb16::LsrImm { imm, rm: v, rd },
                Field::Rd => InstrThumb16::LsrImm { imm, rm, rd: v },
                _ => self,
            },
            InstrThumb16::LsrReg { rm, rdn } => match f {
                Field::Rm => InstrThumb16::LsrReg { rm: v, rdn },
                Field::Rdn => InstrThumb16::LsrReg { rm, rdn: v },
                _ => self,
            },
            InstrThumb16::MovImm { rd, imm } => match f {
                Field::Rd => InstrThumb16::MovImm { rd: v, imm },
                Field::Imm => InstrThumb16::MovImm { rd, imm: v },
                _ => self,
            },
            InstrThumb16::MovReg { rm, rd, d } => match f {
                Field::Rm => InstrThumb16::MovReg { rm: v, rd, d },
                Field::Rd => InstrThumb16::MovReg { rm, rd: v, d },
                Field::D => InstrThumb16::MovReg { rm, rd, d: v },
                _ => self,
            },
            InstrThumb16::Mul { rn, rdm } => match f {
                Field::Rn => InstrThumb16::Mul { rn: v, rdm },
                Field::Rdm => InstrThumb16::Mul { rn, rdm: v },
                _ => self,
            },
            InstrThumb16::MvnReg { rm, rd } => match f {
                Field::Rm => InstrThumb16::MvnReg { rm: v, rd },
                Field::Rd => InstrThumb16::MvnReg { rm, rd: v },
                _ => self,
            },
            InstrThumb16::OrrReg { rm, rdn } => match f {
                Field::Rm => InstrThumb16::OrrReg { rm: v, rdn },
                Field::Rdn => InstrThumb16::OrrReg { rm, rdn: v },
                _ => self,
            },
            InstrThumb16::Pop { p, list } => match f {
                Field::P => InstrThumb16::Pop { p: v, list },
                Field::List => InstrThumb16::Pop { p, list: v },
                _ => self,
            },
            InstrThumb16::Push { m, list } => match f {
                Field::M => InstrThumb16::Push { m: v, list },
                Field::List => InstrThumb16::Push { m, list: v },
                _ => self,
            },
            InstrThumb16::Rev { rm, rd } => match f {
                Field::Rm => InstrThumb16::Rev { rm: v, rd },
                Field::Rd => InstrThumb16::Rev { rm, rd: v },
                _ => self,
            },
            InstrThumb16::Rev16 { rm, rd } => match f {
                Field::Rm => InstrThumb16::Rev16 { rm: v, rd },
                Field::Rd => InstrThumb16::Rev16 { rm, rd: v },
                _ => self,
            },
            InstrThumb16::RevSh { rm, rd } => match f {
                Field::Rm => InstrThumb16::RevSh { rm: v, rd },
                Field::Rd => InstrThumb16::RevSh { rm, rd: v },
                _ => self,
            },
            InstrThumb16::RorReg { rm, rdn } => match f {
                Field::Rm => InstrThumb16::RorReg { rm: v, rdn },
                Field::Rdn => InstrThumb16::RorReg { rm, rdn: v },
                _ => self,
            },
            InstrThumb16::RsbImm { rn, rd } => match f {
                Field::Rn => InstrThumb16::RsbImm { rn: v, rd },
                Field::Rd => InstrThumb16::RsbImm { rn, rd: v },
                _ => self,
            },
            InstrThumb16::SbcReg { rm, rdn } => match f {
                Field::Rm => InstrThumb16::SbcReg { rm: v, rdn },
                Field::Rdn => InstrThumb16::SbcReg { rm, rdn: v },
                _ => self,
            },
            InstrThumb16::Stm { rn, list } => match f {
                Field::Rn => InstrThumb16::Stm { rn: v, list },
                Field::List => InstrThumb16::Stm { rn, list: v },
                _ => self,
            },
            InstrThumb16::StrImm { imm, rn, rt } => match f {
                Field::Imm => InstrThumb16::StrImm { imm: v, rn, rt },
                Field::Rn => InstrThumb16::StrImm { imm, rn: v, rt },
                Field::Rt => InstrThumb16::StrImm { imm, rn, rt: v },
                _ => self,
            },
            InstrThumb16::StrReg { rm, rn, rt } => match f {
                Field::Rm => InstrThumb16::StrReg { rm: v, rn, rt },
                Field::Rn => InstrThumb16::StrReg { rm, rn: v, rt },
                Field::Rt => InstrThumb16::StrReg { rm, rn, rt: v },
                _ => self,
            },
            InstrThumb16::StrbImm { imm, rn, rt } => match f {
                Field::Imm => InstrThumb16::StrbImm { imm: v, rn, rt },
                Field::Rn => InstrThumb16::StrbImm { imm, rn: v, rt },
                Field::Rt => InstrThumb16::StrbImm { imm, rn, rt: v },
                _ => self,
            },
            InstrThumb16::StrbReg { rm, rn, rt } => match f {
                Field::Rm => InstrThumb16::StrbReg { rm: v, rn, rt },
                Field::Rn => InstrThumb16::StrbReg { rm, rn: v, rt },
                Field::Rt => InstrThumb16::StrbReg { rm, rn, rt: v },
                _ => self,
            },
            InstrThumb16::StrhImm { imm, rn, rt } => match f {
                Field::Imm => InstrThumb16::StrhImm { imm: v, rn, rt },
                Field::Rn => InstrThumb16::StrhImm { imm, rn: v, rt },
                Field::Rt => InstrThumb16::StrhImm { imm, rn, rt: v },
                _ => self,
            },
            InstrThumb16::StrhReg { rm, rn, rt } => match f {
                Field::Rm => InstrThumb16::StrhReg { rm: v, rn, rt },
                Field::Rn => InstrThumb16::StrhReg { rm, rn: v, rt },
                Field::Rt => InstrThumb16::StrhReg { rm, rn, rt: v },
                _ => self,
            },
            InstrThumb16::SubImm { imm, rn, rdn } => match f {
                Field::Imm => InstrThumb16::SubImm { imm: v, rn, rdn },
                Field::Rn => InstrThumb16::SubImm { imm, rn: v, rdn },
                Field::Rdn => InstrThumb16::SubImm { imm, rn, rdn: v },
                _ => self,
            },
            InstrThumb16::SubReg { rm, rn, rd } => match f {
                Field::Rm => InstrThumb16::SubReg { rm: v, rn, rd },
                Field::Rn => InstrThumb16::SubReg { rm, rn: v, rd },
                Field::Rd => InstrThumb16::SubReg { rm, rn, rd: v },
                _ => self,
            },
            InstrThumb16::SubSpImm { imm } => match f {
                Field::Imm => InstrThumb16::SubSpImm { imm: v },
                _ => self,
            },
            InstrThumb16::Sxtb { rm, rd } => match f {
                Field::Rm => InstrThumb16::Sxtb { rm: v, rd },
                Field::Rd => InstrThumb16::Sxtb { rm, rd: v },
                _ => self,
            },
            InstrThumb16::Sxth { rm, rd } => match f {
                Field::Rm => InstrThumb16::Sxth { rm: v, rd },
                Field::Rd => InstrThumb16::Sxth { rm, rd: v },
                _ => self,
            },
            InstrThumb16::TstReg { rm, rn } => match f {
                Field::Rm => InstrThumb16::TstReg { rm: v, rn },
                Field::Rn => InstrThumb16::TstReg { rm, rn: v },
                _ => self,
            },
            InstrThumb16::Udf { imm } => match f {
                Field::Imm => InstrThumb16::Udf { imm: v },
                _ => self,
            },
            InstrThumb16::Uxtb { rm, rd } => match f {
                Field::Rm => InstrThumb16::Uxtb { rm: v, rd },
                Field::Rd => InstrThumb16::Uxtb { rm, rd: v },
                _ => self,
            },
            InstrThumb16::Uxth { rm, rd } => match f {
                Field::Rm => InstrThumb16::Uxth { rm: v, rd },
                Field::Rd => InstrThumb16::Uxth { rm, rd: v },
                _ => self,
            },
            InstrThumb16::Thumb2A { high, low } => match f {
                Field::High => InstrThumb16::Thumb2A { high: v, low },
                Field::Low => InstrThumb16::Thumb2A { high, low: v },
                _ => self,
            },
            InstrThumb16::Thumb2B { high, low } => match f {
                Field::High => InstrThumb16::Thumb2B { high: v, low },
                Field::Low => InstrThumb16::Thumb2B { high, low: v },
                _ => self,
            },
            InstrThumb16::Thumb2C { high, low } => match f {
                Field::High => InstrThumb16::Thumb2C { high: v, low },
                Field::Low => InstrThumb16::Thumb2C { high, low: v },
                _ => self,
            },
            _ => self,
        }
    }

    /// Sets the named field to `v`, leaving every other field and the form as they are.
    pub fn set_field(self, f: Field, v: u8) -> (r: InstrThumb16)
        ensures
            r == self.with_field(f, v),
    {
        match self {
            InstrThumb16::AdcReg { rm, rdn } => match f {
                Field::Rm => InstrThumb16::AdcReg { rm: v, rdn },
                Field::Rdn => InstrThumb16::AdcReg { rm, rdn: v },
                _ => self,
            },
            InstrThumb16::AddImm { imm, rdn, rd } => match f {
                Field::Imm => InstrThumb16::AddImm { imm: v, rdn, rd },
                Field::Rdn => InstrThumb16::AddImm { imm, rdn: v, rd },
                Field::Rd => InstrThumb16::AddImm { imm, rdn, rd: v },
                _ => self,
            },
            InstrThumb16::AddReg { rm, rdn, rd } => match f {
                Field::Rm => InstrThumb16::AddReg { rm: v, rdn, rd },
                Field::Rdn => InstrThumb16::AddReg { rm, rdn: v, rd },
                Field::Rd => InstrThumb16::AddReg { rm, rdn, rd: v },
                _ => self,
            },
            InstrThumb16::AddSpImm { imm, rd } => match f {
                Field::Imm => InstrThumb16::AddSpImm { imm: v, rd },
                Field::Rd => InstrThumb16::AddSpImm { imm, rd: v },
                _ => self,
            },
            InstrThumb16::AddSpReg { rdm } => match f {
                Field::Rdm => InstrThumb16::AddSpReg { rdm: v },
                _ => self,
            },
            InstrThumb16::Adr { rd, imm } => match f {
                Field::Rd => InstrThumb16::Adr { rd: v, imm },
                Field::Imm => InstrThumb16::Adr { rd, imm: v },
                _ => self,
            },
            InstrThumb16::AndReg { rm, rdn } => match f {
                Field::Rm => InstrThumb16::AndReg { rm: v, rdn },
                Field::Rdn => InstrThumb16::AndReg { rm, rdn: v },
                _ => self,
            },
            InstrThumb16::AsrImm { imm, rm, rd } => match f {
                Field::Imm => InstrThumb16::AsrImm { imm: v, rm, rd },
                Field::Rm => InstrThumb16::AsrImm { imm, rm: v, rd },
                Field::Rd => InstrThumb16::AsrImm { imm, rm, rd: v },
                _ => self,
            },
            InstrThumb16::AsrReg { rm, rdn } => match f {
                Field::Rm => InstrThumb16::AsrReg { rm: v, rdn },
                Field::Rdn => InstrThumb16::AsrReg { rm, rdn: v },
                _ => self,
            },
            InstrThumb16::Branch { cond, imm, immx } => match f {
                Field::Cond => InstrThumb16::Branch { cond: v, imm, immx },
                Field::Imm => InstrThumb16::Branch { cond, imm: v, immx },
                Field::Immx => InstrThumb16::Branch { cond, imm, immx: v },
                _ => self,
            },
            InstrThumb16::BicReg { rm, rdn } => match f {
                Field::Rm => InstrThumb16::BicReg { rm: v, rdn },
                Field::Rdn => InstrThumb16::BicReg { rm, rdn: v },
                _ => self,
            },
            InstrThumb16::Breakpoint { imm } => match f {
                Field::Imm => InstrThumb16::Breakpoint { imm: v },
                _ => self,
            },
            InstrThumb16::BranchLx { rm } => match f {
                Field::Rm => InstrThumb16::BranchLx { rm: v },
                _ => self,
            },
            InstrThumb16::BranchX { rm } => match f {
                Field::Rm => InstrThumb16::BranchX { rm: v },
                _ => self,
            },
            InstrThumb16::Cbnz { imm1, imm5, rn } => match f {
                Field::Imm1 => InstrThumb16::Cbnz { imm1: v, imm5, rn },
                Field::Imm5 => InstrThumb16::Cbnz { imm1, imm5: v, rn },
                Field::Rn => InstrThumb16::Cbnz { imm1, imm5, rn: v },
                _ => self,
            },
            InstrThumb16::Cbz { imm1, imm5, rn } => match f {
                Field::Imm1 => InstrThumb16::Cbz { imm1: v, imm5, rn },
                Field::Imm5 => InstrThumb16::Cbz { imm1, imm5: v, rn },
                Field::Rn => InstrThumb16::Cbz { imm1, imm5, rn: v },
                _ => self,
            },
            InstrThumb16::CmnReg { rm, rn } => match f {
                Field::Rm => InstrThumb16::CmnReg { rm: v, rn },
                Field::Rn => InstrThumb16::CmnReg { rm, rn: v },
                _ => self,
            },
            InstrThumb16::CmpImm { rn, imm } => match f {
                Field::Rn => InstrThumb16::CmpImm { rn: v, imm },
                Field::Imm => InstrThumb16::CmpImm { rn, imm: v },
                _ => self,
            },
            InstrThumb16::CmpReg { rm, rn, n } => match f {
                Field::Rm => InstrThumb16::CmpReg { rm: v, rn, n },
                Field::Rn => InstrThumb16::CmpReg { rm, rn: v, n },
                Field::N => InstrThumb16::CmpReg { rm, rn, n: v },
                _ => self,
            },
            InstrThumb16::Cps { imm, fi, ff } => match f {
                Field::Imm => InstrThumb16::Cps { imm: v, fi, ff },
                Field::Fi => InstrThumb16::Cps { imm, fi: v, ff },
                Field::Ff => InstrThumb16::Cps { imm, fi, ff: v },
                _ => self,
            },
            InstrThumb16::EorReg { rm, rdn } => match f {
                Field::Rm => InstrThumb16::EorReg { rm: v, rdn },
                Field::Rdn => InstrThumb16::EorReg { rm, rdn: v },
                _ => self,
            },
            InstrThumb16::IfThen { cond, mask } => match f {
                Field::Cond => InstrThumb16::IfThen { cond: v, mask },
                Field::Mask => InstrThumb16::IfThen { cond, mask: v },
                _ => self,
            },
            InstrThumb16::Ldm { list, rn } => match f {
                Field::List => InstrThumb16::Ldm { list: v, rn },
                Field::Rn => InstrThumb16::Ldm { list, rn: v },
                _ => self,
            },
            InstrThumb16::LdrImm { imm, rn, rt } => match f {
                Field::Imm => InstrThumb16::LdrImm { imm: v, rn, rt },
                Field::Rn => InstrThumb16::LdrImm { imm, rn: v, rt },
                Field::Rt => InstrThumb16::LdrImm { imm, rn, rt: v },
                _ => self,
            },
            InstrThumb16::LdrLit { rt, imm } => match f {
                Field::Rt => InstrThumb16::LdrLit { rt: v, imm },
                Field::Imm => InstrThumb16::LdrLit { rt, imm: v },
                _ => self,
            },
            InstrThumb16::LdrReg { rm, rn, rt } => match f {
                Field::Rm => InstrThumb16::LdrReg { rm: v, rn, rt },
                Field::Rn => InstrThumb16::LdrReg { rm, rn: v, rt },
                Field::Rt => InstrThumb16::LdrReg { rm, rn, rt: v },
                _ => self,
            },
            InstrThumb16::LdrbImm { imm, rn, rt } => match f {
                Field::Imm => InstrThumb16::LdrbImm { imm: v, rn, rt },
                Field::Rn => InstrThumb16::LdrbImm { imm, rn: v, rt },
                Field::Rt => InstrThumb16::LdrbImm { imm, rn, rt: v },
                _ => self,
            },
            InstrThumb16::LdrbReg { rm, rn, rt } => match f {
                Field::Rm => InstrThumb16::LdrbReg { rm: v, rn, rt },
                Field::Rn => InstrThumb16::LdrbReg { rm, rn: v, rt },
                Field::Rt => InstrThumb16::LdrbReg { rm, rn, rt: v },
                _ => self,
            },
            InstrThumb16::LdrhImm { imm, rn, rt } => match f {
                Field::Imm => InstrThumb16::LdrhImm { imm: v, rn, rt },
                Field::Rn => InstrThumb16::LdrhImm { imm, rn: v, rt },
                Field::Rt => InstrThumb16::LdrhImm { imm, rn, rt: v },
                _ => self,
            },
            InstrThumb16::LdrhReg { rm, rn, rt } => match f {
                Field::Rm => InstrThumb16::LdrhReg { rm: v, rn, rt },
                Field::Rn => InstrThumb16::LdrhReg { rm, rn: v, rt },
                Field::Rt => InstrThumb16::LdrhReg { rm, rn, rt: v },
                _ => self,
            },
            InstrThumb16::LdrSbReg { rm, rn, rt } => match f {
                Field::Rm => InstrThumb16::LdrSbReg { rm: v, rn, rt },
                Field::Rn => InstrThumb16::LdrSbReg { rm, rn: v, rt },
                Field::Rt => InstrThumb16::LdrSbReg { rm, rn, rt: v },
                _ => self,
            },
            InstrThumb16::LdrShReg { rm, rn, rt } => match f {
                Field::Rm => InstrThumb16::LdrShReg { rm: v, rn, rt },
                Field::Rn => InstrThumb16::LdrShReg { rm, rn: v, rt },
                Field::Rt => InstrThumb16::LdrShReg { rm, rn, rt: v },
                _ => self,
            },
            InstrThumb16::LslImm { imm, rm, rd } => match f {
                Field::Imm => InstrThumb16::LslImm { imm: v, rm, rd },
                Field::Rm => InstrThumb16::LslImm { imm, rm: v, rd },
                Field::Rd => InstrThumb16::LslImm { imm, rm, rd: v },
                _ => self,
            },
            InstrThumb16::LslReg { rm, rdn } => match f {
                Field::Rm => InstrThumb16::LslReg { rm: v, rdn },
                Field::Rdn => InstrThumb16::LslReg { rm, rdn: v },
                _ => self,
            },
            InstrThumb16::LsrImm { imm, rm, rd } => match f {
                Field::Imm => InstrThumb16::LsrImm { imm: v, rm, rd },
                Field::Rm => InstrThumb16::LsrImm { imm, rm: v, rd },
                Field::Rd => InstrThumb16::LsrImm { imm, rm, rd: v },
                _ => self,
            },
            InstrThumb16::LsrReg { rm, rdn } => match f {
                Field::Rm => InstrThumb16::LsrReg { rm: v, rdn },
                Field::Rdn => InstrThumb16::LsrReg { rm, rdn: v },
                _ => self,
            },
            InstrThumb16::MovImm { rd, imm } => match f {
                Field::Rd => InstrThumb16::MovImm { rd: v, imm },
                Field::Imm => InstrThumb16::MovImm { rd, imm: v },
                _ => self,
            },
            InstrThumb16::MovReg { rm, rd, d } => match f {
                Field::Rm => InstrThumb16::MovReg { rm: v, rd, d },
                Field::Rd => InstrThumb16::MovReg { rm, rd: v, d },
                Field::D => InstrThumb16::MovReg { rm, rd, d: v },
                _ => self,
            },
            InstrThumb16::Mul { rn, rdm } => match f {
                Field::Rn => InstrThumb16::Mul { rn: v, rdm },
                Field::Rdm => InstrThumb16::Mul { rn, rdm: v },
                _ => self,
            },
            InstrThumb16::MvnReg { rm, rd } => match f {
                Field::Rm => InstrThumb16::MvnReg { rm: v, rd },
                Field::Rd => InstrThumb16::MvnReg { rm, rd: v },
                _ => self,
            },
            InstrThumb16::OrrReg { rm, rdn } => match f {
                Field::Rm => InstrThumb16::OrrReg { rm: v, rdn },
                Field::Rdn => InstrThumb16::OrrReg { rm, rdn: v },
                _ => self,
            },
            InstrThumb16::Pop { p, list } => match f {
                Field::P => InstrThumb16::Pop { p: v, list },
                Field::List => InstrThumb16::Pop { p, list: v },
                _ => self,
            },
            InstrThumb16::Push { m, list } => match f {
                Field::M => InstrThumb16::Push { m: v, list },
                Field::List => InstrThumb16::Push { m, list: v },
                _ => self,
            },
            InstrThumb16::Rev { rm, rd } => match f {
                Field::Rm => InstrThumb16::Rev { rm: v, rd },
                Field::Rd => InstrThumb16::Rev { rm, rd: v },
                _ => self,
            },
            InstrThumb16::Rev16 { rm, rd } => match f {
                Field::Rm => InstrThumb16::Rev16 { rm: v, rd },
                Field::Rd => InstrThumb16::Rev16 { rm, rd: v },
                _ => self,
            },
            InstrThumb16::RevSh { rm, rd } => match f {
                Field::Rm => InstrThumb16::RevSh { rm: v, rd },
                Field::Rd => InstrThumb16::RevSh { rm, rd: v },
                _ => self,
            },
            InstrThumb16::RorReg { rm, rdn } => match f {
                Field::Rm => InstrThumb16::RorReg { rm: v, rdn },
                Field::Rdn => InstrThumb16::RorReg { rm, rdn: v },
                _ => self,
            },
            InstrThumb16::RsbImm { rn, rd } => match f {
                Field::Rn => InstrThumb16::RsbImm { rn: v, rd },
                Field::Rd => InstrThumb16::RsbImm { rn, rd: v },
                _ => self,
            },
            InstrThumb16::SbcReg { rm, rdn } => match f {
                Field::Rm => InstrThumb16::SbcReg { rm: v, rdn },
                Field::Rdn => InstrThumb16::SbcReg { rm, rdn: v },
                _ => self,
            },
            InstrThumb16::Stm { rn, list } => match f {
                Field::Rn => InstrThumb16::Stm { rn: v, list },
                Field::List => InstrThumb16::Stm { rn, list: v },
                _ => self,
            },
            InstrThumb16::StrImm { imm, rn, rt } => match f {
                Field::Imm => InstrThumb16::StrImm { imm: v, rn, rt },
                Field::Rn => InstrThumb16::StrImm { imm, rn: v, rt },
                Field::Rt => InstrThumb16::StrImm { imm, rn, rt: v },
                _ => self,
            },
            InstrThumb16::StrReg { rm, rn, rt } => match f {
                Field::Rm => InstrThumb16::StrReg { rm: v, rn, rt },
                Field::Rn => InstrThumb16::StrReg { rm, rn: v, rt },
                Field::Rt => InstrThumb16::StrReg { rm, rn, rt: v },
                _ => self,
            },
            InstrThumb16::StrbImm { imm, rn, rt } => match f {
                Field::Imm => InstrThumb16::StrbImm { imm: v, rn, rt },
                Field::Rn => InstrThumb16::StrbImm { imm, rn: v, rt },
                Field::Rt => InstrThumb16::StrbImm { imm, rn, rt: v },
                _ => self,
            },
            InstrThumb16::StrbReg { rm, rn, rt } => match f {
                Field::Rm => InstrThumb16::StrbReg { rm: v, rn, rt },
                Field::Rn => InstrThumb16::StrbReg { rm, rn: v, rt },
                Field::Rt => InstrThumb16::StrbReg { rm, rn, rt: v },
                _ => self,
            },
            InstrThumb16::StrhImm { imm, rn, rt } => match f {
                Field::Imm => InstrThumb16::StrhImm { imm: v, rn, rt },
                Field::Rn => InstrThumb16::StrhImm { imm, rn: v, rt },
                Field::Rt => InstrThumb16::StrhImm { imm, rn, rt: v },
                _ => self,
            },
            InstrThumb16::StrhReg { rm, rn, rt } => match f {
                Field::Rm => InstrThumb16::StrhReg { rm: v, rn, rt },
                Field::Rn => InstrThumb16::StrhReg { rm, rn: v, rt },
                Field::Rt => InstrThumb16::StrhReg { rm, rn, rt: v },
                _ => self,
            },
            InstrThumb16::SubImm { imm, rn, rdn } => match f {
                Field::Imm => InstrThumb16::SubImm { imm: v, rn, rdn },
                Field::Rn => InstrThumb16::SubImm { imm, rn: v, rdn },
                Field::Rdn => InstrThumb16::SubImm { imm, rn, rdn: v },
                _ => self,
            },
            InstrThumb16::SubReg { rm, rn, rd } => match f {
                Field::Rm => InstrThumb16::SubReg { rm: v, rn, rd },
                Field::Rn => InstrThumb16::SubReg { rm, rn: v, rd },
                Field::Rd => InstrThumb16::SubReg { rm, rn, rd: v },
                _ => self,
            },
            InstrThumb16::SubSpImm { imm } => match f {
                Field::Imm => InstrThumb16::SubSpImm { imm: v },
                _ => self,
            },
            InstrThumb16::Sxtb { rm, rd } => match f {
                Field::Rm => InstrThumb16::Sxtb { rm: v, rd },
                Field::Rd => InstrThumb16::Sxtb { rm, rd: v },
                _ => self,
            },
            InstrThumb16::Sxth { rm, rd } => match f {
                Field::Rm => InstrThumb16::Sxth { rm: v, rd },
                Field::Rd => InstrThumb16::Sxth { rm, rd: v },
                _ => self,
            },
            InstrThumb16::TstReg { rm, rn } => match f {
                Field::Rm => InstrThumb16::TstReg { rm: v, rn },
                Field::Rn => InstrThumb16::TstReg { rm, rn: v },
                _ => self,
            },
            InstrThumb16::Udf { imm } => match f {
                Field::Imm => InstrThumb16::Udf { imm: v },
                _ => self,
            },
            InstrThumb16::Uxtb { rm, rd } => match f {
                Field::Rm => InstrThumb16::Uxtb { rm: v, rd },
                Field::Rd => InstrThumb16::Uxtb { rm, rd: v },
                _ => self,
            },
            InstrThumb16::Uxth { rm, rd } => match f {
                Field::Rm => InstrThumb16::Uxth { rm: v, rd },
                Field::Rd => InstrThumb16::Uxth { rm, rd: v },
                _ => self,
            },
            InstrThumb16::Thumb2A { high, low } => match f {
                Field::High => InstrThumb16::Thumb2A { high: v, low },
                Field::Low => InstrThumb16::Thumb2A { high, low: v },
                _ => self,
            },
            InstrThumb16::Thumb2B { high, low } => match f {
                Field::High => InstrThumb16::Thumb2B { high: v, low },
                Field::Low => InstrThumb16::Thumb2B { high, low: v },
                _ => self,
            },
            InstrThumb16::Thumb2C { high, low } => match f {
                Field::High => InstrThumb16::Thumb2C { high: v, low },
                Field::Low => InstrThumb16::Thumb2C { high, low: v },
                _ => self,
            },
            _ => self,
        }
    }

    /// Setting a field changes that field, when the form has it, and nothing else.
    pub proof fn lemma_with_field(self, f: Field, g: Field, v: u8)
        ensures
            self.with_field(f, v).field(g) == (if g == f && self.field(f).is_some() {
                Some(v)
            } else {
                self.field(g)
            }),
    {
    }
}

impl InstrThumb16 {
    /// Compiles the decode table of the whole instruction set.
    pub fn generate_decode_table() -> (r: Vec<InstrThumb16>)
        ensures
            r@.len() == NUM_TH16_INSTRUCTIONS,
            exists|descs: Seq<InstrDesc>|
                catalog_wf(descs) && catalog_layout(descs) == thumb16_layout()
                    && #[trigger] compiled_from(r@, descs),
    {
        let descs = instruction_set();
        let r = compile_decode_table(&descs);
        assert(compiled_from(r@, descs@));
        r
    }
}

/// The value an encoding forces into a field that it does not hold.
pub const UNUSED_FIELD: u8 = 0xFF;

/// An operand that takes every value of `width` bits, packed at `shift`.
fn field_op(name: &str, field: Field, width: usize, shift: usize) -> (r: Operand)
    requires
        width <= 8,
        shift < 16,
        width + shift <= 16,
    ensures
        r.wf(),
        r.width == width,
        r.shift == shift,
        r.default.is_none(),
        r.map == Some(field),
{
    Operand::new().name(name).width(width).shift(shift).map(field).build()
}

/// An operand the encoding does not hold: forced to `UNUSED_FIELD`.
fn unused_op(name: &str, field: Field) -> (r: Operand)
    ensures
        r.wf(),
        r.width == 0,
        r.shift == 0,
        r.default == Some(UNUSED_FIELD),
        r.map == Some(field),
{
    Operand::new().name(name).default_value(UNUSED_FIELD).map(field).build()
}

/// Appends one instruction to the catalog.
fn register(catalog: &mut Vec<InstrDesc>, desc: InstrDesc)
    requires
        desc.wf(),
    ensures
        final(catalog)@ == old(catalog)@.push(desc),
        catalog_layout(final(catalog)@) == catalog_layout(old(catalog)@).push(desc_layout(desc)),
{
    catalog.push(desc);
    proof {
        assert(catalog_layout(catalog@) =~= catalog_layout(old(catalog)@).push(desc_layout(desc)));
    }
}

/// The supported instructions with their encodings, in the order they are
/// written to the decode table: where two encodings share an opcode, the later
/// one is kept.
pub fn instruction_set() -> (r: Vec<InstrDesc>)
    ensures
        catalog_wf(r@),
        catalog_layout(r@) == thumb16_layout(),
{
    let mut catalog: Vec<InstrDesc> = Vec::new();
    catalog_a_to_c(&mut catalog);
    catalog_e_to_m(&mut catalog);
    catalog_n_to_s(&mut catalog);
    catalog_s_to_y(&mut catalog);
    catalog_thumb2_prefixes(&mut catalog);
    proof {
        assert(catalog_layout(Seq::<InstrDesc>::empty()) =~= Seq::<Seq<EncodingLayout>>::empty());
        assert(catalog_layout(catalog@) =~= thumb16_layout());
    }
    catalog
}

/// The layout of the whole instruction set, in catalog order.
pub open spec fn thumb16_layout() -> Seq<Seq<EncodingLayout>> {
    catalog_a_to_c_layout() + catalog_e_to_m_layout() + catalog_n_to_s_layout()
        + catalog_s_to_y_layout() + catalog_thumb2_prefixes_layout()
}

/// The layout of the instructions from `AdcReg` to `Cps`.
pub open spec fn catalog_a_to_c_layout() -> Seq<Seq<EncodingLayout>> {
    seq![
        // AdcReg
        seq![
            (0x4140u16, Some(InstrThumb16::AdcReg { rm: 0, rdn: 0 }), seq![
                (3usize, 3usize, None, Some(Field::Rm)),
                (3usize, 0usize, None, Some(Field::Rdn)),
            ]),
        ],
        // AddImm
        seq![
            (0x1C00u16, Some(InstrThumb16::AddImm { imm: 0, rdn: 0, rd: 0 }), seq![
                (3usize, 0usize, None, Some(Field::Rd)),
                (3usize, 3usize, None, Some(Field::Rdn)),
                (3usize, 6usize, None, Some(Field::Imm)),
            ]),
            (0x3000u16, Some(InstrThumb16::AddImm { imm: 0, rdn: 0, rd: 0 }), seq![
                (8usize, 0usize, None, Some(Field::Imm)),
                (3usize, 8usize, None, Some(Field::Rdn)),
                (0usize, 0usize, Some(UNUSED_FIELD), Some(Field::Rd)),
            ]),
        ],
        // AddReg
        seq![
            (0x1800u16, Some(InstrThumb16::AddReg { rm: 0, rdn: 0, rd: 0 }), seq![
                (3usize, 6usize, None, Some(Field::Rm)),
                (3usize, 3usize, None, Some(Field::Rdn)),
                (3usize, 0usize, None, Some(Field::Rd)),
            ]),
            (0x4400u16, Some(InstrThumb16::AddReg { rm: 0, rdn: 0, rd: 0 }), seq![
                (4usize, 3usize, None, Some(Field::Rm)),
                (3usize, 0usize, None, Some(Field::Rdn)),
                (1usize, 7usize, None, Some(Field::Rd)),
            ]),
        ],
        // AddSpImm
        seq![
            (0xA800u16, Some(InstrThumb16::AddSpImm { imm: 0, rd: 0 }), seq![
                (3usize, 8usize, None, Some(Field::Rd)),
                (8usize, 0usize, None, Some(Field::Imm)),
            ]),
            (0xB000u16, Some(InstrThumb16::AddSpImm { imm: 0, rd: 0 }), seq![
                (7usize, 0usize, None, Some(Field::Imm)),
                (0usize, 0usize, Some(UNUSED_FIELD), Some(Field::Rd)),
            ]),
        ],
        // AddSpReg
        seq![
            (0x4468u16, Some(InstrThumb16::AddSpReg { rdm: 0 }), seq![
                (3usize, 0usize, None, Some(Field::Rdm)),
            ]),
            (0x4485u16, Some(InstrThumb16::AddSpReg { rdm: 0 }), seq![
                (4usize, 3usize, None, Some(Field::Rdm)),
            ]),
        ],
        // Adr
        seq![
            (0xA000u16, Some(InstrThumb16::Adr { rd: 0, imm: 0 }), seq![
                (3usize, 8usize, None, Some(Field::Rd)),
                (8usize, 0usize, None, Some(Field::Imm)),
            ]),
        ],
        // AndReg
        seq![
            (0x4000u16, Some(InstrThumb16::AndReg { rm: 0, rdn: 0 }), seq![
                (3usize, 3usize, None, Some(Field::Rm)),
                (3usize, 0usize, None, Some(Field::Rdn)),
            ]),
        ],
        // AsrImm
        seq![
            (0x1000u16, Some(InstrThumb16::AsrImm { imm: 0, rm: 0, rd: 0 }), seq![
                (5usize, 6usize, None, Some(Field::Imm)),
                (3usize, 3usize, None, Some(Field::Rm)),
                (3usize, 0usize, None, Some(Field::Rd)),
            ]),
        ],
        // AsrReg
        seq![
            (0x4100u16, Some(InstrThumb16::AsrReg { rm: 0, rdn: 0 }), seq![
                (3usize, 3usize, None, Some(Field::Rm)),
                (3usize, 0usize, None, Some(Field::Rdn)),
            ]),
        ],
        // Branch
        seq![
            (0xD000u16, Some(InstrThumb16::Branch { cond: 0, imm: 0, immx: 0 }), seq![
                (4usize, 8usize, None, Some(Field::Cond)),
                (8usize, 0usize, None, Some(Field::Imm)),
                (0usize, 0usize, Some(UNUSED_FIELD), Some(Field::Immx)),
            ]),
            (0xE000u16, Some(InstrThumb16::Branch { cond: 0, imm: 0, immx: 0 }), seq![
                (8usize, 0usize, None, Some(Field::Imm)),
                (3usize, 8usize, None, Some(Field::Immx)),
                (0usize, 0usize, Some(UNUSED_FIELD), Some(Field::Cond)),
            ]),
        ],
        // BicReg
        seq![
            (0x4380u16, Some(InstrThumb16::BicReg { rm: 0, rdn: 0 }), seq![
                (3usize, 3usize, None, Some(Field::Rm)),
                (3usize, 0usize, None, Some(Field::Rdn)),
            ]),
        ],
        // Breakpoint
        seq![
            (0xBE00u16, Some(InstrThumb16::Breakpoint { imm: 0 }), seq![
                (8usize, 0usize, None, Some(Field::Imm)),
            ]),
        ],
        // BranchLx
        seq![
            (0x4780u16, Some(InstrThumb16::BranchLx { rm: 0 }), seq![
                (4usize, 3usize, None, Some(Field::Rm)),
            ]),
        ],
        // BranchX
        seq![
            (0x4700u16, Some(InstrThumb16::BranchX { rm: 0 }), seq![
                (4usize, 3usize, None, Some(Field::Rm)),
            ]),
        ],
        // Cbnz
        seq![
            (0xB900u16, Some(InstrThumb16::Cbnz { imm1: 0, imm5: 0, rn: 0 }), seq![
                (1usize, 9usize, None, Some(Field::Imm1)),
                (5usize, 3usize, None, Some(Field::Imm5)),
                (3usize, 0usize, None, Some(Field::Rn)),
            ]),
        ],
        // Cbz
        seq![
            (0xB100u16, Some(InstrThumb16::Cbz { imm1: 0, imm5: 0, rn: 0 }), seq![
                (1usize, 9usize, None, Some(Field::Imm1)),
                (5usize, 3usize, None, Some(Field::Imm5)),
                (3usize, 0usize, None, Some(Field::Rn)),
            ]),
        ],
        // CmnReg
        seq![
            (0x42C0u16, Some(InstrThumb16::CmnReg { rm: 0, rn: 0 }), seq![
                (3usize, 3usize, None, Some(Field::Rm)),
                (3usize, 0usize, None, Some(Field::Rn)),
            ]),
        ],
        // CmpImm
        seq![
            (0x2800u16, Some(InstrThumb16::CmpImm { rn: 0, imm: 0 }), seq![
                (3usize, 8usize, None, Some(Field::Rn)),
                (8usize, 0usize, None, Some(Field::Imm)),
            ]),
        ],
        // CmpReg
        seq![
            (0x4280u16, Some(InstrThumb16::CmpReg { rm: 0, rn: 0, n: 0 }), seq![
                (3usize, 3usize, None, Some(Field::Rm)),
                (3usize, 0usize, None, Some(Field::Rn)),
                (0usize, 0usize, Some(UNUSED_FIELD), Some(Field::N)),
            ]),
            (0x4500u16, Some(InstrThumb16::CmpReg { rm: 0, rn: 0, n: 0 }), seq![
                (1usize, 7usize, None, Some(Field::N)),
                (4usize, 3usize, None, Some(Field::Rm)),
                (3usize, 0usize, None, Some(Field::Rn)),
            ]),
        ],
        // Cps
        seq![
            (0xB660u16, Some(InstrThumb16::Cps { imm: 0, fi: 0, ff: 0 }), seq![
                (1usize, 4usize, None, Some(Field::Imm)),
                (1usize, 1usize, None, Some(Field::Fi)),
                (1usize, 0usize, None, Some(Field::Ff)),
            ]),
        ],
    ]
}

/// The layout of the instructions from `EorReg` to `MvnReg`.
pub open spec fn catalog_e_to_m_layout() -> Seq<Seq<EncodingLayout>> {
    seq![
        // EorReg
        seq![
            (0x4040u16, Some(InstrThumb16::EorReg { rm: 0, rdn: 0 }), seq![
                (3usize, 3usize, None, Some(Field::Rm)),
                (3usize, 0usize, None, Some(Field::Rdn)),
            ]),
        ],
        // IfThen
        seq![
            (0xBF00u16, Some(InstrThumb16::IfThen { cond: 0, mask: 0 }), seq![
                (4usize, 4usize, None, Some(Field::Cond)),
                (4usize, 0usize, None, Some(Field::Mask)),
            ]),
        ],
        // Ldm
        seq![
            (0xC800u16, Some(InstrThumb16::Ldm { list: 0, rn: 0 }), seq![
                (8usize, 0usize, None, Some(Field::List)),
                (3usize, 8usize, None, Some(Field::Rn)),
            ]),
        ],
        // LdrImm
        seq![
            (0x6800u16, Some(InstrThumb16::LdrImm { imm: 0, rn: 0, rt: 0 }), seq![
                (5usize, 6usize, None, Some(Field::Imm)),
                (3usize, 3usize, None, Some(Field::Rn)),
                (3usize, 0usize, None, Some(Field::Rt)),
            ]),
            (0x9800u16, Some(InstrThumb16::LdrImm { imm: 0, rn: 0, rt: 0 }), seq![
                (3usize, 8usize, None, Some(Field::Rt)),
                (8usize, 0usize, None, Some(Field::Imm)),
                (0usize, 0usize, Some(UNUSED_FIELD), Some(Field::Rn)),
            ]),
        ],
        // LdrLit
        seq![
            (0x4800u16, Some(InstrThumb16::LdrLit { rt: 0, imm: 0 }), seq![
                (3usize, 8usize, None, Some(Field::Rt)),
                (8usize, 0usize, None, Some(Field::Imm)),
            ]),
        ],
        // LdrReg
        seq![
            (0x5800u16, Some(InstrThumb16::LdrReg { rm: 0, rn: 0, rt: 0 }), seq![
                (3usize, 6usize, None, Some(Field::Rm)),
                (3usize, 3usize, None, Some(Field::Rn)),
                (3usize, 0usize, None, Some(Field::Rt)),
            ]),
        ],
        // LdrbImm
        seq![
            (0x7800u16, Some(InstrThumb16::LdrbImm { imm: 0, rn: 0, rt: 0 }), seq![
                (5usize, 6usize, None, Some(Field::Imm)),
                (3usize, 3usize, None, Some(Field::Rn)),
                (3usize, 0usize, None, Some(Field::Rt)),
            ]),
        ],
        // LdrbReg
        seq![
            (0x5C00u16, Some(InstrThumb16::LdrbReg { rm: 0, rn: 0, rt: 0 }), seq![
                (3usize, 6usize, None, Some(Field::Rm)),
                (3usize, 3usize, None, Some(Field::Rn)),
                (3usize, 0usize, None, Some(Field::Rt)),
            ]),
        ],
        // LdrhImm
        seq![
            (0x8800u16, Some(InstrThumb16::LdrhImm { imm: 0, rn: 0, rt: 0 }), seq![
                (5usize, 6usize, None, Some(Field::Imm)),
                (3usize, 3usize, None, Some(Field::Rn)),
                (3usize, 0usize, None, Some(Field::Rt)),
            ]),
        ],
        // LdrhReg
        seq![
            (0x5A00u16, Some(InstrThumb16::LdrhReg { rm: 0, rn: 0, rt: 0 }), seq![
                (3usize, 6usize, None, Some(Field::Rm)),
                (3usize, 3usize, None, Some(Field::Rn)),
                (3usize, 0usize, None, Some(Field::Rt)),
            ]),
        ],
        // LdrSbReg
        seq![
            (0x5600u16, Some(InstrThumb16::LdrSbReg { rm: 0, rn: 0, rt: 0 }), seq![
                (3usize, 6usize, None, Some(Field::Rm)),
                (3usize, 3usize, None, Some(Field::Rn)),
                (3usize, 0usize, None, Some(Field::Rt)),
            ]),
        ],
        // LdrShReg
        seq![
            (0x5E00u16, Some(InstrThumb16::LdrShReg { rm: 0, rn: 0, rt: 0 }), seq![
                (3usize, 6usize, None, Some(Field::Rm)),
                (3usize, 3usize, None, Some(Field::Rn)),
                (3usize, 0usize, None, Some(Field::Rt)),
            ]),
        ],
        // LslImm
        seq![
            (0x0000u16, Some(InstrThumb16::LslImm { imm: 0, rm: 0, rd: 0 }), seq![
                (5usize, 6usize, None, Some(Field::Imm)),
                (3usize, 3usize, None, Some(Field::Rm)),
                (3usize, 0usize, None, Some(Field::Rd)),
            ]),
        ],
        // LslReg
        seq![
            (0x4080u16, Some(InstrThumb16::LslReg { rm: 0, rdn: 0 }), seq![
                (3usize, 3usize, None, Some(Field::Rm)),
                (3usize, 0usize, None, Some(Field::Rdn)),
            ]),
        ],
        // LsrImm
        seq![
            (0x0800u16, Some(InstrThumb16::LsrImm { imm: 0, rm: 0, rd: 0 }), seq![
                (5usize, 6usize, None, Some(Field::Imm)),
                (3usize, 3usize, None, Some(Field::Rm)),
                (3usize, 0usize, None, Some(Field::Rd)),
            ]),
        ],
        // LsrReg
        seq![
            (0x40C0u16, Some(InstrThumb16::LsrReg { rm: 0, rdn: 0 }), seq![
                (3usize, 3usize, None, Some(Field::Rm)),
                (3usize, 0usize, None, Some(Field::Rdn)),
            ]),
        ],
        // MovImm
        seq![
            (0x2000u16, Some(InstrThumb16::MovImm { rd: 0, imm: 0 }), seq![
                (3usize, 8usize, None, Some(Field::Rd)),
                (8usize, 0usize, None, Some(Field::Imm)),
            ]),
        ],
        // MovReg
        seq![
            (0x4600u16, Some(InstrThumb16::MovReg { rm: 0, rd: 0, d: 0 }), seq![
                (1usize, 7usize, None, Some(Field::D)),
                (4usize, 3usize, None, Some(Field::Rm)),
                (3usize, 0usize, None, Some(Field::Rd)),
            ]),
        ],
        // Mul
        seq![
            (0x4340u16, Some(InstrThumb16::Mul { rn: 0, rdm: 0 }), seq![
                (3usize, 3usize, None, Some(Field::Rn)),
                (3usize, 0usize, None, Some(Field::Rdm)),
            ]),
        ],
        // MvnReg
        seq![
            (0x43C0u16, Some(InstrThumb16::MvnReg { rm: 0, rd: 0 }), seq![
                (3usize, 3usize, None, Some(Field::Rm)),
                (3usize, 0usize, None, Some(Field::Rd)),
            ]),
        ],
    ]
}

/// The layout of the instructions from `Nop` to `Svc`.
pub open spec fn catalog_n_to_s_layout() -> Seq<Seq<EncodingLayout>> {
    seq![
        // Nop
        seq![
            (0xBF00u16, Some(InstrThumb16::Nop), seq![
            ]),
        ],
        // OrrReg
        seq![
            (0x4300u16, Some(InstrThumb16::OrrReg { rm: 0, rdn: 0 }), seq![
                (3usize, 3usize, None, Some(Field::Rm)),
                (3usize, 0usize, None, Some(Field::Rdn)),
            ]),
        ],
        // Pop
        seq![
            (0xBC00u16, Some(InstrThumb16::Pop { p: 0, list: 0 }), seq![
                (1usize, 8usize, None, Some(Field::P)),
                (8usize, 0usize, None, Some(Field::List)),
            ]),
        ],
        // Push
        seq![
            (0xB400u16, Some(InstrThumb16::Push { m: 0, list: 0 }), seq![
                (1usize, 8usize, None, Some(Field::M)),
                (8usize, 0usize, None, Some(Field::List)),
            ]),
        ],
        // Rev
        seq![
            (0xBA00u16, Some(InstrThumb16::Rev { rm: 0, rd: 0 }), seq![
                (3usize, 3usize, None, Some(Field::Rm)),
                (3usize, 0usize, None, Some(Field::Rd)),
            ]),
        ],
        // Rev16
        seq![
            (0xBA40u16, Some(InstrThumb16::Rev16 { rm: 0, rd: 0 }), seq![
                (3usize, 3usize, None, Some(Field::Rm)),
                (3usize, 0usize, None, Some(Field::Rd)),
            ]),
        ],
        // RevSh
        seq![
            (0xBAC0u16, Some(InstrThumb16::RevSh { rm: 0, rd: 0 }), seq![
                (3usize, 3usize, None, Some(Field::Rm)),
                (3usize, 0usize, None, Some(Field::Rd)),
            ]),
        ],
        // RorReg
        seq![
            (0x41C0u16, Some(InstrThumb16::RorReg { rm: 0, rdn: 0 }), seq![
                (3usize, 3usize, None, Some(Field::Rm)),
                (3usize, 0usize, None, Some(Field::Rdn)),
            ]),
        ],
        // RsbImm
        seq![
            (0x4240u16, Some(InstrThumb16::RsbImm { rn: 0, rd: 0 }), seq![
                (3usize, 3usize, None, Some(Field::Rn)),
                (3usize, 0usize, None, Some(Field::Rd)),
            ]),
        ],
        // SbcReg
        seq![
            (0x4180u16, Some(InstrThumb16::SbcReg { rm: 0, rdn: 0 }), seq![
                (3usize, 3usize, None, Some(Field::Rm)),
                (3usize, 0usize, None, Some(Field::Rdn)),
            ]),
        ],
        // Sev
        seq![
            (0xBF40u16, Some(InstrThumb16::Sev), seq![
            ]),
        ],
        // Stm
        seq![
            (0xC000u16, Some(InstrThumb16::Stm { rn: 0, list: 0 }), seq![
                (3usize, 8usize, None, Some(Field::Rn)),
                (8usize, 0usize, None, Some(Field::List)),
            ]),
        ],
        // StrImm
        seq![
            (0x6000u16, Some(InstrThumb16::StrImm { imm: 0, rn: 0, rt: 0 }), seq![
                (5usize, 6usize, None, Some(Field::Imm)),
                (3usize, 3usize, None, Some(Field::Rn)),
                (3usize, 0usize, None, Some(Field::Rt)),
            ]),
        ],
        // StrReg
        seq![
            (0x5000u16, Some(InstrThumb16::StrReg { rm: 0, rn: 0, rt: 0 }), seq![
                (3usize, 6usize, None, Some(Field::Rm)),
                (3usize, 3usize, None, Some(Field::Rn)),
                (3usize, 0usize, None, Some(Field::Rt)),
            ]),
        ],
        // StrbImm
        seq![
            (0x7000u16, Some(InstrThumb16::StrbImm { imm: 0, rn: 0, rt: 0 }), seq![
                (5usize, 6usize, None, Some(Field::Imm)),
                (3usize, 3usize, None, Some(Field::Rn)),
                (3usize, 0usize, None, Some(Field::Rt)),
            ]),
        ],
        // StrbReg
        seq![
            (0x5400u16, Some(InstrThumb16::StrbReg { rm: 0, rn: 0, rt: 0 }), seq![
                (3usize, 6usize, None, Some(Field::Rm)),
                (3usize, 3usize, None, Some(Field::Rn)),
                (3usize, 0usize, None, Some(Field::Rt)),
            ]),
        ],
        // StrhImm
        seq![
            (0x8000u16, Some(InstrThumb16::StrhImm { imm: 0, rn: 0, rt: 0 }), seq![
                (5usize, 6usize, None, Some(Field::Imm)),
                (3usize, 3usize, None, Some(Field::Rn)),
                (3usize, 0usize, None, Some(Field::Rt)),
            ]),
        ],
        // StrhReg
        seq![
            (0x5200u16, Some(InstrThumb16::StrhReg { rm: 0, rn: 0, rt: 0 }), seq![
                (3usize, 6usize, None, Some(Field::Rm)),
                (3usize, 3usize, None, Some(Field::Rn)),
                (3usize, 0usize, None, Some(Field::Rt)),
            ]),
        ],
        // SubImm
        seq![
            (0x1E00u16, Some(InstrThumb16::SubImm { imm: 0, rn: 0, rdn: 0 }), seq![
                (3usize, 6usize, None, Some(Field::Imm)),
                (3usize, 3usize, None, Some(Field::Rn)),
                (3usize, 0usize, None, Some(Field::Rdn)),
            ]),
            (0x3800u16, Some(InstrThumb16::SubImm { imm: 0, rn: 0, rdn: 0 }), seq![
                (3usize, 8usize, None, Some(Field::Rdn)),
                (8usize, 0usize, None, Some(Field::Imm)),
                (0usize, 0usize, Some(UNUSED_FIELD), Some(Field::Rn)),
            ]),
        ],
        // SubReg
        seq![
            (0x1A00u16, Some(InstrThumb16::SubReg { rm: 0, rn: 0, rd: 0 }), seq![
                (3usize, 6usize, None, Some(Field::Rm)),
                (3usize, 3usize, None, Some(Field::Rn)),
                (3usize, 0usize, None, Some(Field::Rd)),
            ]),
        ],
        // SubSpImm
        seq![
            (0xB080u16, Some(InstrThumb16::SubSpImm { imm: 0 }), seq![
                (7usize, 0usize, None, Some(Field::Imm)),
            ]),
        ],
        // Svc
        seq![
            (0xDF00u16, Some(InstrThumb16::Svc), seq![
            ]),
        ],
    ]
}

/// The layout of the instructions from `Sxtb` to `Yield`.
pub open spec fn catalog_s_to_y_layout() -> Seq<Seq<EncodingLayout>> {
    seq![
        // Sxtb
        seq![
            (0xB240u16, Some(InstrThumb16::Sxtb { rm: 0, rd: 0 }), seq![
                (3usize, 3usize, None, Some(Field::Rm)),
                (3usize, 0usize, None, Some(Field::Rd)),
            ]),
        ],
        // Sxth
        seq![
            (0xB200u16, Some(InstrThumb16::Sxth { rm: 0, rd: 0 }), seq![
                (3usize, 3usize, None, Some(Field::Rm)),
                (3usize, 0usize, None, Some(Field::Rd)),
            ]),
        ],
        // TstReg
        seq![
            (0x4200u16, Some(InstrThumb16::TstReg { rm: 0, rn: 0 }), seq![
                (3usize, 3usize, None, Some(Field::Rm)),
                (3usize, 0usize, None, Some(Field::Rn)),
            ]),
        ],
        // Udf
        seq![
            (0xDE00u16, Some(InstrThumb16::Udf { imm: 0 }), seq![
                (8usize, 0usize, None, Some(Field::Imm)),
            ]),
        ],
        // Uxtb
        seq![
            (0xB2C0u16, Some(InstrThumb16::Uxtb { rm: 0, rd: 0 }), seq![
                (3usize, 3usize, None, Some(Field::Rm)),
                (3usize, 0usize, None, Some(Field::Rd)),
            ]),
        ],
        // Uxth
        seq![
            (0xB280u16, Some(InstrThumb16::Uxth { rm: 0, rd: 0 }), seq![
                (3usize, 3usize, None, Some(Field::Rm)),
                (3usize, 0usize, None, Some(Field::Rd)),
            ]),
        ],
        // Wfe
        seq![
            (0xBF20u16, Some(InstrThumb16::Wfe), seq![
            ]),
        ],
        // Wfi
        seq![
            (0xBF30u16, Some(InstrThumb16::Wfi), seq![
            ]),
        ],
        // Yield
        seq![
            (0xBF10u16, Some(InstrThumb16::Yield), seq![
            ]),
        ],
    ]
}

/// The layout of the instructions the first halfwords of two-halfword instructions.
pub open spec fn catalog_thumb2_prefixes_layout() -> Seq<Seq<EncodingLayout>> {
    seq![
        // Thumb2A
        seq![
            (0xE800u16, Some(InstrThumb16::Thumb2A { high: 0, low: 0 }), seq![
                (3usize, 8usize, None, Some(Field::High)),
                (8usize, 0usize, None, Some(Field::Low)),
            ]),
        ],
        // Thumb2B
        seq![
            (0xF000u16, Some(InstrThumb16::Thumb2B { high: 0, low: 0 }), seq![
                (3usize, 8usize, None, Some(Field::High)),
                (8usize, 0usize, None, Some(Field::Low)),
            ]),
        ],
        // Thumb2C
        seq![
            (0xF800u16, Some(InstrThumb16::Thumb2C { high: 0, low: 0 }), seq![
                (3usize, 8usize, None, Some(Field::High)),
                (8usize, 0usize, None, Some(Field::Low)),
            ]),
        ],
    ]
}


/// Appends the instructions from `AdcReg` to `Cps`.
fn catalog_a_to_c(catalog: &mut Vec<InstrDesc>)
    requires
        forall|i: int| 0 <= i < old(catalog)@.len() ==> #[trigger] old(catalog)@[i].wf(),
    ensures
        forall|i: int| 0 <= i < final(catalog)@.len() ==> #[trigger] final(catalog)@[i].wf(),
        catalog_layout(final(catalog)@) == catalog_layout(old(catalog)@) + catalog_a_to_c_layout(),
{
    register(
        catalog,
        InstrDesc::new().name("AdcReg")
            .encoding(
                Encoding::new().base(0x4140).ctor(InstrThumb16::AdcReg { rm: 0, rdn: 0 })
                    .operand(field_op("rm", Field::Rm, 3, 3))
                    .operand(field_op("rdn", Field::Rdn, 3, 0))
                    .build(),
            )
            .build(),
    );
    register(
        catalog,
        InstrDesc::new().name("AddImm")
            .encoding(
                Encoding::new().base(0x1C00).ctor(InstrThumb16::AddImm { imm: 0, rdn: 0, rd: 0 })
                    .operand(field_op("rd", Field::Rd, 3, 0))
                    .operand(field_op("rdn", Field::Rdn, 3, 3))
                    .operand(field_op("imm", Field::Imm, 3, 6))
                    .build(),
            )
            .encoding(
                Encoding::new().base(0x3000).ctor(InstrThumb16::AddImm { imm: 0, rdn: 0, rd: 0 })
                    .operand(field_op("imm", Field::Imm, 8, 0))
                    .operand(field_op("rdn", Field::Rdn, 3, 8))
                    .operand(unused_op("rd", Field::Rd))
                    .build(),
            )
            .build(),
    );
    register(
        catalog,
        InstrDesc::new().name("AddReg")
            .encoding(
                Encoding::new().base(0x1800).ctor(InstrThumb16::AddReg { rm: 0, rdn: 0, rd: 0 })
                    .operand(field_op("rm", Field::Rm, 3, 6))
                    .operand(field_op("rdn", Field::Rdn, 3, 3))
                    .operand(field_op("rd", Field::Rd, 3, 0))
                    .build(),
            )
            .encoding(
                Encoding::new().base(0x4400).ctor(InstrThumb16::AddReg { rm: 0, rdn: 0, rd: 0 })
                    .operand(field_op("rm", Field::Rm, 4, 3))
                    .operand(field_op("rdn", Field::Rdn, 3, 0))
                    .operand(field_op("rd", Field::Rd, 1, 7))
                    .build(),
            )
            .build(),
    );
    register(
        catalog,
        InstrDesc::new().name("AddSpImm")
            .encoding(
                Encoding::new().base(0xA800).ctor(InstrThumb16::AddSpImm { imm: 0, rd: 0 })
                    .operand(field_op("rd", Field::Rd, 3, 8))
                    .operand(field_op("imm", Field::Imm, 8, 0))
                    .build(),
            )
            .encoding(
                Encoding::new().base(0xB000).ctor(InstrThumb16::AddSpImm { imm: 0, rd: 0 })
                    .operand(field_op("imm", Field::Imm, 7, 0))
                    .operand(unused_op("rd", Field::Rd))
                    .build(),
            )
            .build(),
    );
    register(
        catalog,
        InstrDesc::new().name("AddSpReg")
            .encoding(
                Encoding::new().base(0x4468).ctor(InstrThumb16::AddSpReg { rdm: 0 })
                    .operand(field_op("rdm", Field::Rdm, 3, 0))
                    .build(),
            )
            .encoding(
                Encoding::new().base(0x4485).ctor(InstrThumb16::AddSpReg { rdm: 0 })
                    .operand(field_op("rdm", Field::Rdm, 4, 3))
                    .build(),
            )
            .build(),
    );
    register(
        catalog,
        InstrDesc::new().name("Adr")
            .encoding(
                Encoding::new().base(0xA000).ctor(InstrThumb16::Adr { rd: 0, imm: 0 })
                    .operand(field_op("rd", Field::Rd, 3, 8))
                    .operand(field_op("imm", Field::Imm, 8, 0))
                    .build(),
            )
            .build(),
    );
    register(
        catalog,
        InstrDesc::new().name("AndReg")
            .encoding(
                Encoding::new().base(0x4000).ctor(InstrThumb16::AndReg { rm: 0, rdn: 0 })
                    .operand(field_op("rm", Field::Rm, 3, 3))
                    .operand(field_op("rdn", Field::Rdn, 3, 0))
                    .build(),
            )
            .build(),
    );
    register(
        catalog,
        InstrDesc::new().name("AsrImm")
            .encoding(
                Encoding::new().base(0x1000).ctor(InstrThumb16::AsrImm { imm: 0, rm: 0, rd: 0 })
                    .operand(field_op("imm", Field::Imm, 5, 6))
                    .operand(field_op("rm", Field::Rm, 3, 3))
                    .operand(field_op("rd", Field::Rd, 3, 0))
                    .build(),
            )
            .build(),
    );
    register(
        catalog,
        InstrDesc::new().name("AsrReg")
            .encoding(
                Encoding::new().base(0x4100).ctor(InstrThumb16::AsrReg { rm: 0, rdn: 0 })
                    .operand(field_op("rm", Field::Rm, 3, 3))
                    .operand(field_op("rdn", Field::Rdn, 3, 0))
                    .build(),
            )
            .build(),
    );
    register(
        catalog,
        InstrDesc::new().name("Branch")
            .encoding(
                Encoding::new().base(0xD000).ctor(InstrThumb16::Branch { cond: 0, imm: 0, immx: 0 })
                    .operand(field_op("cond", Field::Cond, 4, 8))
                    .operand(field_op("imm", Field::Imm, 8, 0))
                    .operand(unused_op("immx", Field::Immx))
                    .build(),
            )
            .encoding(
                Encoding::new().base(0xE000).ctor(InstrThumb16::Branch { cond: 0, imm: 0, immx: 0 })
                    .operand(field_op("imm", Field::Imm, 8, 0))
                    .operand(field_op("immx", Field::Immx, 3, 8))
                    .operand(unused_op("cond", Field::Cond))
                    .build(),
            )
            .build(),
    );
    register(
        catalog,
        InstrDesc::new().name("BicReg")
            .encoding(
                Encoding::new().base(0x4380).ctor(InstrThumb16::BicReg { rm: 0, rdn: 0 })
                    .operand(field_op("rm", Field::Rm, 3, 3))
                    .operand(field_op("rdn", Field::Rdn, 3, 0))
                    .build(),
            )
            .build(),
    );
    register(
        catalog,
        InstrDesc::new().name("Breakpoint")
            .encoding(
                Encoding::new().base(0xBE00).ctor(InstrThumb16::Breakpoint { imm: 0 })
                    .operand(field_op("imm", Field::Imm, 8, 0))
                    .build(),
            )
            .build(),
    );
    register(
        catalog,
        InstrDesc::new().name("BranchLx")
            .encoding(
                Encoding::new().base(0x4780).ctor(InstrThumb16::BranchLx { rm: 0 })
                    .operand(field_op("rm", Field::Rm, 4, 3))
                    .build(),
            )
            .build(),
    );
    register(
        catalog,
        InstrDesc::new().name("BranchX")
            .encoding(
                Encoding::new().base(0x4700).ctor(InstrThumb16::BranchX { rm: 0 })
                    .operand(field_op("rm", Field::Rm, 4, 3))
                    .build(),
            )
            .build(),
    );
    register(
        catalog,
        InstrDesc::new().name("Cbnz")
            .encoding(
                Encoding::new().base(0xB900).ctor(InstrThumb16::Cbnz { imm1: 0, imm5: 0, rn: 0 })
                    .operand(field_op("imm1", Field::Imm1, 1, 9))
                    .operand(field_op("imm5", Field::Imm5, 5, 3))
                    .operand(field_op("rn", Field::Rn, 3, 0))
                    .build(),
            )
            .build(),
    );
    register(
        catalog,
        InstrDesc::new().name("Cbz")
            .encoding(
                Encoding::new().base(0xB100).ctor(InstrThumb16::Cbz { imm1: 0, imm5: 0, rn: 0 })
                    .operand(field_op("imm1", Field::Imm1, 1, 9))
                    .operand(field_op("imm5", Field::Imm5, 5, 3))
                    .operand(field_op("rn", Field::Rn, 3, 0))
                    .build(),
            )
            .build(),
    );
    register(
        catalog,
        InstrDesc::new().name("CmnReg")
            .encoding(
                Encoding::new().base(0x42C0).ctor(InstrThumb16::CmnReg { rm: 0, rn: 0 })
                    .operand(field_op("rm", Field::Rm, 3, 3))
                    .operand(field_op("rn", Field::Rn, 3, 0))
                    .build(),
            )
            .build(),
    );
    register(
        catalog,
        InstrDesc::new().name("CmpImm")
            .encoding(
                Encoding::new().base(0x2800).ctor(InstrThumb16::CmpImm { rn: 0, imm: 0 })
                    .operand(field_op("rn", Field::Rn, 3, 8))
                    .operand(field_op("imm", Field::Imm, 8, 0))
                    .build(),
            )
            .build(),
    );
    register(
        catalog,
        InstrDesc::new().name("CmpReg")
            .encoding(
                Encoding::new().base(0x4280).ctor(InstrThumb16::CmpReg { rm: 0, rn: 0, n: 0 })
                    .operand(field_op("rm", Field::Rm, 3, 3))
                    .operand(field_op("rn", Field::Rn, 3, 0))
                    .operand(unused_op("n", Field::N))
                    .build(),
            )
            .encoding(
                Encoding::new().base(0x4500).ctor(InstrThumb16::CmpReg { rm: 0, rn: 0, n: 0 })
                    .operand(field_op("n", Field::N, 1, 7))
                    .operand(field_op("rm", Field::Rm, 4, 3))
                    .operand(field_op("rn", Field::Rn, 3, 0))
                    .build(),
            )
            .build(),
    );
    register(
        catalog,
        InstrDesc::new().name("Cps")
            .encoding(
                Encoding::new().base(0xB660).ctor(InstrThumb16::Cps { imm: 0, fi: 0, ff: 0 })
                    .operand(field_op("imm", Field::Imm, 1, 4))
                    .operand(field_op("fi", Field::Fi, 1, 1))
                    .operand(field_op("ff", Field::Ff, 1, 0))
                    .build(),
            )
            .build(),
    );
    proof {
        assert(catalog_layout(catalog@) =~~= catalog_layout(old(catalog)@) + catalog_a_to_c_layout());
    }
}

/// Appends the instructions from `EorReg` to `MvnReg`.
#[verifier::rlimit(40)]
fn catalog_e_to_m(catalog: &mut Vec<InstrDesc>)
    requires
        forall|i: int| 0 <= i < old(catalog)@.len() ==> #[trigger] old(catalog)@[i].wf(),
    ensures
        forall|i: int| 0 <= i < final(catalog)@.len() ==> #[trigger] final(catalog)@[i].wf(),
        catalog_layout(final(catalog)@) == catalog_layout(old(catalog)@) + catalog_e_to_m_layout(),
{
    register(
        catalog,
        InstrDesc::new().name("EorReg")
            .encoding(
                Encoding::new().base(0x4040).ctor(InstrThumb16::EorReg { rm: 0, rdn: 0 })
                    .operand(field_op("rm", Field::Rm, 3, 3))
                    .operand(field_op("rdn", Field::Rdn, 3, 0))
                    .build(),
            )
            .build(),
    );
    register(
        catalog,
        InstrDesc::new().name("IfThen")
            .encoding(
                Encoding::new().base(0xBF00).ctor(InstrThumb16::IfThen { cond: 0, mask: 0 })
                    .operand(field_op("cond", Field::Cond, 4, 4))
                    .operand(field_op("mask", Field::Mask, 4, 0))
                    .build(),
            )
            .build(),
    );
    register(
        catalog,
        InstrDesc::new().name("Ldm")
            .encoding(
                Encoding::new().base(0xC800).ctor(InstrThumb16::Ldm { list: 0, rn: 0 })
                    .operand(field_op("list", Field::List, 8, 0))
                    .operand(field_op("rn", Field::Rn, 3, 8))
                    .build(),
            )
            .build(),
    );
    register(
        catalog,
        InstrDesc::new().name("LdrImm")
            .encoding(
                Encoding::new().base(0x6800).ctor(InstrThumb16::LdrImm { imm: 0, rn: 0, rt: 0 })
                    .operand(field_op("imm", Field::Imm, 5, 6))
                    .operand(field_op("rn", Field::Rn, 3, 3))
                    .operand(field_op("rt", Field::Rt, 3, 0))
                    .build(),
            )
            .encoding(
                Encoding::new().base(0x9800).ctor(InstrThumb16::LdrImm { imm: 0, rn: 0, rt: 0 })
                    .operand(field_op("rt", Field::Rt, 3, 8))
                    .operand(field_op("imm", Field::Imm, 8, 0))
                    .operand(unused_op("rn", Field::Rn))
                    .build(),
            )
            .build(),
    );
    register(
        catalog,
        InstrDesc::new().name("LdrLit")
            .encoding(
                Encoding::new().base(0x4800).ctor(InstrThumb16::LdrLit { rt: 0, imm: 0 })
                    .operand(field_op("rt", Field::Rt, 3, 8))
                    .operand(field_op("imm", Field::Imm, 8, 0))
                    .build(),
            )
            .build(),
    );
    register(
        catalog,
        InstrDesc::new().name("LdrReg")
            .encoding(
                Encoding::new().base(0x5800).ctor(InstrThumb16::LdrReg { rm: 0, rn: 0, rt: 0 })
                    .operand(field_op("rm", Field::Rm, 3, 6))
                    .operand(field_op("rn", Field::Rn, 3, 3))
                    .operand(field_op("rt", Field::Rt, 3, 0))
                    .build(),
            )
            .build(),
    );
    register(
        catalog,
        InstrDesc::new().name("LdrbImm")
            .encoding(
                Encoding::new().base(0x7800).ctor(InstrThumb16::LdrbImm { imm: 0, rn: 0, rt: 0 })
                    .operand(field_op("imm", Field::Imm, 5, 6))
                    .operand(field_op("rn", Field::Rn, 3, 3))
                    .operand(field_op("rt", Field::Rt, 3, 0))
                    .build(),
            )
            .build(),
    );
    register(
        catalog,
        InstrDesc::new().name("LdrbReg")
            .encoding(
                Encoding::new().base(0x5C00).ctor(InstrThumb16::LdrbReg { rm: 0, rn: 0, rt: 0 })
                    .operand(field_op("rm", Field::Rm, 3, 6))
                    .operand(field_op("rn", Field::Rn, 3, 3))
                    .operand(field_op("rt", Field::Rt, 3, 0))
                    .build(),
            )
            .build(),
    );
    register(
        catalog,
        InstrDesc::new().name("LdrhImm")
            .encoding(
                Encoding::new().base(0x8800).ctor(InstrThumb16::LdrhImm { imm: 0, rn: 0, rt: 0 })
                    .operand(field_op("imm", Field::Imm, 5, 6))
                    .operand(field_op("rn", Field::Rn, 3, 3))
                    .operand(field_op("rt", Field::Rt, 3, 0))
                    .build(),
            )
            .build(),
    );
    register(
        catalog,
        InstrDesc::new().name("LdrhReg")
            .encoding(
                Encoding::new().base(0x5A00).ctor(InstrThumb16::LdrhReg { rm: 0, rn: 0, rt: 0 })
                    .operand(field_op("rm", Field::Rm, 3, 6))
                    .operand(field_op("rn", Field::Rn, 3, 3))
                    .operand(field_op("rt", Field::Rt, 3, 0))
                    .build(),
            )
            .build(),
    );
    register(
        catalog,
        InstrDesc::new().name("LdrSbReg")
            .encoding(
                Encoding::new().base(0x5600).ctor(InstrThumb16::LdrSbReg { rm: 0, rn: 0, rt: 0 })
                    .operand(field_op("rm", Field::Rm, 3, 6))
                    .operand(field_op("rn", Field::Rn, 3, 3))
                    .operand(field_op("rt", Field::Rt, 3, 0))
                    .build(),
            )
            .build(),
    );
    register(
        catalog,
        InstrDesc::new().name("LdrShReg")
            .encoding(
                Encoding::new().base(0x5E00).ctor(InstrThumb16::LdrShReg { rm: 0, rn: 0, rt: 0 })
                    .operand(field_op("rm", Field::Rm, 3, 6))
                    .operand(field_op("rn", Field::Rn, 3, 3))
                    .operand(field_op("rt", Field::Rt, 3, 0))
                    .build(),
            )
            .build(),
    );
    register(
        catalog,
        InstrDesc::new().name("LslImm")
            .encoding(
                Encoding::new().base(0x0000).ctor(InstrThumb16::LslImm { imm: 0, rm: 0, rd: 0 })
                    .operand(field_op("imm", Field::Imm, 5, 6))
                    .operand(field_op("rm", Field::Rm, 3, 3))
                    .operand(field_op("rd", Field::Rd, 3, 0))
                    .build(),
            )
            .build(),
    );
    register(
        catalog,
        InstrDesc::new().name("LslReg")
            .encoding(
                Encoding::new().base(0x4080).ctor(InstrThumb16::LslReg { rm: 0, rdn: 0 })
                    .operand(field_op("rm", Field::Rm, 3, 3))
                    .operand(field_op("rdn", Field::Rdn, 3, 0))
                    .build(),
            )
            .build(),
    );
    register(
        catalog,
        InstrDesc::new().name("LsrImm")
            .encoding(
                Encoding::new().base(0x0800).ctor(InstrThumb16::LsrImm { imm: 0, rm: 0, rd: 0 })
                    .operand(field_op("imm", Field::Imm, 5, 6))
                    .operand(field_op("rm", Field::Rm, 3, 3))
                    .operand(field_op("rd", Field::Rd, 3, 0))
                    .build(),
            )
            .build(),
    );
    register(
        catalog,
        InstrDesc::new().name("LsrReg")
            .encoding(
                Encoding::new().base(0x40C0).ctor(InstrThumb16::LsrReg { rm: 0, rdn: 0 })
                    .operand(field_op("rm", Field::Rm, 3, 3))
                    .operand(field_op("rdn", Field::Rdn, 3, 0))
                    .build(),
            )
            .build(),
    );
    register(
        catalog,
        InstrDesc::new().name("MovImm")
            .encoding(
                Encoding::new().base(0x2000).ctor(InstrThumb16::MovImm { rd: 0, imm: 0 })
                    .operand(field_op("rd", Field::Rd, 3, 8))
                    .operand(field_op("imm", Field::Imm, 8, 0))
                    .build(),
            )
            .build(),
    );
    register(
        catalog,
        InstrDesc::new().name("MovReg")
            .encoding(
                Encoding::new().base(0x4600).ctor(InstrThumb16::MovReg { rm: 0, rd: 0, d: 0 })
                    .operand(field_op("d", Field::D, 1, 7))
                    .operand(field_op("rm", Field::Rm, 4, 3))
                    .operand(field_op("rd", Field::Rd, 3, 0))
                    .build(),
            )
            .build(),
    );
    register(
        catalog,
        InstrDesc::new().name("Mul")
            .encoding(
                Encoding::new().base(0x4340).ctor(InstrThumb16::Mul { rn: 0, rdm: 0 })
                    .operand(field_op("rn", Field::Rn, 3, 3))
                    .operand(field_op("rdm", Field::Rdm, 3, 0))
                    .build(),
            )
            .build(),
    );
    register(
        catalog,
        InstrDesc::new().name("MvnReg")
            .encoding(
                Encoding::new().base(0x43C0).ctor(InstrThumb16::MvnReg { rm: 0, rd: 0 })
                    .operand(field_op("rm", Field::Rm, 3, 3))
                    .operand(field_op("rd", Field::Rd, 3, 0))
                    .build(),
            )
            .build(),
    );
    proof {
        assert(catalog_layout(catalog@) =~~= catalog_layout(old(catalog)@) + catalog_e_to_m_layout());
    }
}

/// Appends the instructions from `Nop` to `Svc`.
fn catalog_n_to_s(catalog: &mut Vec<InstrDesc>)
    requires
        forall|i: int| 0 <= i < old(catalog)@.len() ==> #[trigger] old(catalog)@[i].wf(),
    ensures
        forall|i: int| 0 <= i < final(catalog)@.len() ==> #[trigger] final(catalog)@[i].wf(),
        catalog_layout(final(catalog)@) == catalog_layout(old(catalog)@) + catalog_n_to_s_layout(),
{
    register(
        catalog,
        InstrDesc::new().name("Nop")
            .encoding(
                Encoding::new().base(0xBF00).ctor(InstrThumb16::Nop)
                    .build(),
            )
            .build(),
    );
    register(
        catalog,
        InstrDesc::new().name("OrrReg")
            .encoding(
                Encoding::new().base(0x4300).ctor(InstrThumb16::OrrReg { rm: 0, rdn: 0 })
                    .operand(field_op("rm", Field::Rm, 3, 3))
                    .operand(field_op("rdn", Field::Rdn, 3, 0))
                    .build(),
            )
            .build(),
    );
    register(
        catalog,
        InstrDesc::new().name("Pop")
            .encoding(
                Encoding::new().base(0xBC00).ctor(InstrThumb16::Pop { p: 0, list: 0 })
                    .operand(field_op("p", Field::P, 1, 8))
                    .operand(field_op("list", Field::List, 8, 0))
                    .build(),
            )
            .build(),
    );
    register(
        catalog,
        InstrDesc::new().name("Push")
            .encoding(
                Encoding::new().base(0xB400).ctor(InstrThumb16::Push { m: 0, list: 0 })
                    .operand(field_op("m", Field::M, 1, 8))
                    .operand(field_op("list", Field::List, 8, 0))
                    .build(),
            )
            .build(),
    );
    register(
        catalog,
        InstrDesc::new().name("Rev")
            .encoding(
                Encoding::new().base(0xBA00).ctor(InstrThumb16::Rev { rm: 0, rd: 0 })
                    .operand(field_op("rm", Field::Rm, 3, 3))
                    .operand(field_op("rd", Field::Rd, 3, 0))
                    .build(),
            )
            .build(),
    );
    register(
        catalog,
        InstrDesc::new().name("Rev16")
            .encoding(
                Encoding::new().base(0xBA40).ctor(InstrThumb16::Rev16 { rm: 0, rd: 0 })
                    .operand(field_op("rm", Field::Rm, 3, 3))
                    .operand(field_op("rd", Field::Rd, 3, 0))
                    .build(),
            )
            .build(),
    );
    register(
        catalog,
        InstrDesc::new().name("RevSh")
            .encoding(
                Encoding::new().base(0xBAC0).ctor(InstrThumb16::RevSh { rm: 0, rd: 0 })
                    .operand(field_op("rm", Field::Rm, 3, 3))
                    .operand(field_op("rd", Field::Rd, 3, 0))
                    .build(),
            )
            .build(),
    );
    register(
        catalog,
        InstrDesc::new().name("RorReg")
            .encoding(
                Encoding::new().base(0x41C0).ctor(InstrThumb16::RorReg { rm: 0, rdn: 0 })
                    .operand(field_op("rm", Field::Rm, 3, 3))
                    .operand(field_op("rdn", Field::Rdn, 3, 0))
                    .build(),
            )
            .build(),
    );
    register(
        catalog,
        InstrDesc::new().name("RsbImm")
            .encoding(
                Encoding::new().base(0x4240).ctor(InstrThumb16::RsbImm { rn: 0, rd: 0 })
                    .operand(field_op("rn", Field::Rn, 3, 3))
                    .operand(field_op("rd", Field::Rd, 3, 0))
                    .build(),
            )
            .build(),
    );
    register(
        catalog,
        InstrDesc::new().name("SbcReg")
            .encoding(
                Encoding::new().base(0x4180).ctor(InstrThumb16::SbcReg { rm: 0, rdn: 0 })
                    .operand(field_op("rm", Field::Rm, 3, 3))
                    .operand(field_op("rdn", Field::Rdn, 3, 0))
                    .build(),
            )
            .build(),
    );
    register(
        catalog,
        InstrDesc::new().name("Sev")
            .encoding(
                Encoding::new().base(0xBF40).ctor(InstrThumb16::Sev)
                    .build(),
            )
            .build(),
    );
    register(
        catalog,
        InstrDesc::new().name("Stm")
            .encoding(
                Encoding::new().base(0xC000).ctor(InstrThumb16::Stm { rn: 0, list: 0 })
                    .operand(field_op("rn", Field::Rn, 3, 8))
                    .operand(field_op("list", Field::List, 8, 0))
                    .build(),
            )
            .build(),
    );
    register(
        catalog,
        InstrDesc::new().name("StrImm")
            .encoding(
                Encoding::new().base(0x6000).ctor(InstrThumb16::StrImm { imm: 0, rn: 0, rt: 0 })
                    .operand(field_op("imm", Field::Imm, 5, 6))
                    .operand(field_op("rn", Field::Rn, 3, 3))
                    .operand(field_op("rt", Field::Rt, 3, 0))
                    .build(),
            )
            .build(),
    );
    register(
        catalog,
        InstrDesc::new().name("StrReg")
            .encoding(
                Encoding::new().base(0x5000).ctor(InstrThumb16::StrReg { rm: 0, rn: 0, rt: 0 })
                    .operand(field_op("rm", Field::Rm, 3, 6))
                    .operand(field_op("rn", Field::Rn, 3, 3))
                    .operand(field_op("rt", Field::Rt, 3, 0))
                    .build(),
            )
            .build(),
    );
    register(
        catalog,
        InstrDesc::new().name("StrbImm")
            .encoding(
                Encoding::new().base(0x7000).ctor(InstrThumb16::StrbImm { imm: 0, rn: 0, rt: 0 })
                    .operand(field_op("imm", Field::Imm, 5, 6))
                    .operand(field_op("rn", Field::Rn, 3, 3))
                    .operand(field_op("rt", Field::Rt, 3, 0))
                    .build(),
            )
            .build(),
    );
    register(
        catalog,
        InstrDesc::new().name("StrbReg")
            .encoding(
                Encoding::new().base(0x5400).ctor(InstrThumb16::StrbReg { rm: 0, rn: 0, rt: 0 })
                    .operand(field_op("rm", Field::Rm, 3, 6))
                    .operand(field_op("rn", Field::Rn, 3, 3))
                    .operand(field_op("rt", Field::Rt, 3, 0))
                    .build(),
            )
            .build(),
    );
    register(
        catalog,
        InstrDesc::new().name("StrhImm")
            .encoding(
                Encoding::new().base(0x8000).ctor(InstrThumb16::StrhImm { imm: 0, rn: 0, rt: 0 })
                    .operand(field_op("imm", Field::Imm, 5, 6))
                    .operand(field_op("rn", Field::Rn, 3, 3))
                    .operand(field_op("rt", Field::Rt, 3, 0))
                    .build(),
            )
            .build(),
    );
    register(
        catalog,
        InstrDesc::new().name("StrhReg")
            .encoding(
                Encoding::new().base(0x5200).ctor(InstrThumb16::StrhReg { rm: 0, rn: 0, rt: 0 })
                    .operand(field_op("rm", Field::Rm, 3, 6))
                    .operand(field_op("rn", Field::Rn, 3, 3))
                    .operand(field_op("rt", Field::Rt, 3, 0))
                    .build(),
            )
            .build(),
    );
    register(
        catalog,
        InstrDesc::new().name("SubImm")
            .encoding(
                Encoding::new().base(0x1E00).ctor(InstrThumb16::SubImm { imm: 0, rn: 0, rdn: 0 })
                    .operand(field_op("imm", Field::Imm, 3, 6))
                    .operand(field_op("rn", Field::Rn, 3, 3))
                    .operand(field_op("rdn", Field::Rdn, 3, 0))
                    .build(),
            )
            .encoding(
                Encoding::new().base(0x3800).ctor(InstrThumb16::SubImm { imm: 0, rn: 0, rdn: 0 })
                    .operand(field_op("rdn", Field::Rdn, 3, 8))
                    .operand(field_op("imm", Field::Imm, 8, 0))
                    .operand(unused_op("rn", Field::Rn))
                    .build(),
            )
            .build(),
    );
    register(
        catalog,
        InstrDesc::new().name("SubReg")
            .encoding(
                Encoding::new().base(0x1A00).ctor(InstrThumb16::SubReg { rm: 0, rn: 0, rd: 0 })
                    .operand(field_op("rm", Field::Rm, 3, 6))
                    .operand(field_op("rn", Field::Rn, 3, 3))
                    .operand(field_op("rd", Field::Rd, 3, 0))
                    .build(),
            )
            .build(),
    );
    register(
        catalog,
        InstrDesc::new().name("SubSpImm")
            .encoding(
                Encoding::new().base(0xB080).ctor(InstrThumb16::SubSpImm { imm: 0 })
                    .operand(field_op("imm", Field::Imm, 7, 0))
                    .build(),
            )
            .build(),
    );
    register(
        catalog,
        InstrDesc::new().name("Svc")
            .encoding(
                Encoding::new().base(0xDF00).ctor(InstrThumb16::Svc)
                    .build(),
            )
            .build(),
    );
    proof {
        assert(catalog_layout(catalog@) =~~= catalog_layout(old(catalog)@) + catalog_n_to_s_layout());
    }
}

/// Appends the instructions from `Sxtb` to `Yield`.
fn catalog_s_to_y(catalog: &mut Vec<InstrDesc>)
    requires
        forall|i: int| 0 <= i < old(catalog)@.len() ==> #[trigger] old(catalog)@[i].wf(),
    ensures
        forall|i: int| 0 <= i < final(catalog)@.len() ==> #[trigger] final(catalog)@[i].wf(),
        catalog_layout(final(catalog)@) == catalog_layout(old(catalog)@) + catalog_s_to_y_layout(),
{
    register(
        catalog,
        InstrDesc::new().name("Sxtb")
            .encoding(
                Encoding::new().base(0xB240).ctor(InstrThumb16::Sxtb { rm: 0, rd: 0 })
                    .operand(field_op("rm", Field::Rm, 3, 3))
                    .operand(field_op("rd", Field::Rd, 3, 0))
                    .build(),
            )
            .build(),
    );
    register(
        catalog,
        InstrDesc::new().name("Sxth")
            .encoding(
                Encoding::new().base(0xB200).ctor(InstrThumb16::Sxth { rm: 0, rd: 0 })
                    .operand(field_op("rm", Field::Rm, 3, 3))
                    .operand(field_op("rd", Field::Rd, 3, 0))
                    .build(),
            )
            .build(),
    );
    register(
        catalog,
        InstrDesc::new().name("TstReg")
            .encoding(
                Encoding::new().base(0x4200).ctor(InstrThumb16::TstReg { rm: 0, rn: 0 })
                    .operand(field_op("rm", Field::Rm, 3, 3))
                    .operand(field_op("rn", Field::Rn, 3, 0))
                    .build(),
            )
            .build(),
    );
    register(
        catalog,
        InstrDesc::new().name("Udf")
            .encoding(
                Encoding::new().base(0xDE00).ctor(InstrThumb16::Udf { imm: 0 })
                    .operand(field_op("imm", Field::Imm, 8, 0))
                    .build(),
            )
            .build(),
    );
    register(
        catalog,
        InstrDesc::new().name("Uxtb")
            .encoding(
                Encoding::new().base(0xB2C0).ctor(InstrThumb16::Uxtb { rm: 0, rd: 0 })
                    .operand(field_op("rm", Field::Rm, 3, 3))
                    .operand(field_op("rd", Field::Rd, 3, 0))
                    .build(),
            )
            .build(),
    );
    register(
        catalog,
        InstrDesc::new().name("Uxth")
            .encoding(
                Encoding::new().base(0xB280).ctor(InstrThumb16::Uxth { rm: 0, rd: 0 })
                    .operand(field_op("rm", Field::Rm, 3, 3))
                    .operand(field_op("rd", Field::Rd, 3, 0))
                    .build(),
            )
            .build(),
    );
    register(
        catalog,
        InstrDesc::new().name("Wfe")
            .encoding(
                Encoding::new().base(0xBF20).ctor(InstrThumb16::Wfe)
                    .build(),
            )
            .build(),
    );
    register(
        catalog,
        InstrDesc::new().name("Wfi")
            .encoding(
                Encoding::new().base(0xBF30).ctor(InstrThumb16::Wfi)
                    .build(),
            )
            .build(),
    );
    register(
        catalog,
        InstrDesc::new().name("Yield")
            .encoding(
                Encoding::new().base(0xBF10).ctor(InstrThumb16::Yield)
                    .build(),
            )
            .build(),
    );
    proof {
        assert(catalog_layout(catalog@) =~~= catalog_layout(old(catalog)@) + catalog_s_to_y_layout());
    }
}

/// Appends the instructions the first halfwords of two-halfword instructions.
fn catalog_thumb2_prefixes(catalog: &mut Vec<InstrDesc>)
    requires
        forall|i: int| 0 <= i < old(catalog)@.len() ==> #[trigger] old(catalog)@[i].wf(),
    ensures
        forall|i: int| 0 <= i < final(catalog)@.len() ==> #[trigger] final(catalog)@[i].wf(),
        catalog_layout(final(catalog)@) == catalog_layout(old(catalog)@) + catalog_thumb2_prefixes_layout(),
{
    register(
        catalog,
        InstrDesc::new().name("Thumb2A")
            .encoding(
                Encoding::new().base(0xE800).ctor(InstrThumb16::Thumb2A { high: 0, low: 0 })
                    .operand(field_op("high", Field::High, 3, 8))
                    .operand(field_op("low", Field::Low, 8, 0))
                    .build(),
            )
            .build(),
    );
    register(
        catalog,
        InstrDesc::new().name("Thumb2B")
            .encoding(
                Encoding::new().base(0xF000).ctor(InstrThumb16::Thumb2B { high: 0, low: 0 })
                    .operand(field_op("high", Field::High, 3, 8))
                    .operand(field_op("low", Field::Low, 8, 0))
                    .build(),
            )
            .build(),
    );
    register(
        catalog,
        InstrDesc::new().name("Thumb2C")
            .encoding(
                Encoding::new().base(0xF800).ctor(InstrThumb16::Thumb2C { high: 0, low: 0 })
                    .operand(field_op("high", Field::High, 3, 8))
                    .operand(field_op("low", Field::Low, 8, 0))
                    .build(),
            )
            .build(),
    );
    proof {
        assert(catalog_layout(catalog@) =~~= catalog_layout(old(catalog)@) + catalog_thumb2_prefixes_layout());
    }
}

} // verus!
