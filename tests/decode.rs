use armchair::decode::{
    compile_decode_table, Encoding, InstrDesc, InstructionCodecPair, Operand, OperandRepr,
};
use armchair::instructions::{Field, InstrThumb16, NUM_TH16_INSTRUCTIONS, UNUSED_FIELD};

fn operand(name: &str, field: Field, width: usize, shift: usize) -> Operand {
    Operand::new().name(name).width(width).shift(shift).map(field).build()
}

fn unused(name: &str, field: Field) -> Operand {
    Operand::new().name(name).default_value(UNUSED_FIELD).map(field).build()
}

fn add_imm_t1() -> Encoding {
    Encoding::new()
        .base(0x1C00)
        .ctor(InstrThumb16::AddImm { imm: 0, rdn: 0, rd: 0 })
        .operand(operand("rd", Field::Rd, 3, 0))
        .operand(operand("rdn", Field::Rdn, 3, 3))
        .operand(operand("imm", Field::Imm, 3, 6))
        .build()
}

fn add_imm_t2() -> Encoding {
    Encoding::new()
        .base(0x3000)
        .ctor(InstrThumb16::AddImm { imm: 0, rdn: 0, rd: 0 })
        .operand(operand("imm", Field::Imm, 8, 0))
        .operand(operand("rdn", Field::Rdn, 3, 8))
        .operand(unused("rd", Field::Rd))
        .build()
}

fn single(name: &str, encodings: Vec<Encoding>) -> InstrDesc {
    let mut b = InstrDesc::new().name(name);
    for e in encodings {
        b = b.encoding(e);
    }
    b.build()
}

fn branch_t1() -> Encoding {
    Encoding::new()
        .base(0xD000)
        .ctor(InstrThumb16::Branch { cond: 0, imm: 0, immx: 0 })
        .operand(operand("cond", Field::Cond, 4, 8))
        .operand(operand("imm", Field::Imm, 8, 0))
        .operand(unused("immx", Field::Immx))
        .build()
}

fn udf() -> Encoding {
    Encoding::new()
        .base(0xDE00)
        .ctor(InstrThumb16::Udf { imm: 0 })
        .operand(operand("imm", Field::Imm, 8, 0))
        .build()
}

fn nop() -> Encoding {
    Encoding::new().base(0xBF00).ctor(InstrThumb16::Nop).build()
}

#[test]
fn instruction_description_builder() {
    let branch = InstrDesc::new()
        .name("Branch")
        .desc("Conditional and unconditional branching")
        .encoding(
            Encoding::new()
                .name("E1")
                .desc("Performs a conditional branch")
                .base(0xD000)
                .ctor(InstrThumb16::Branch { cond: 0, imm: 0, immx: 0 })
                .operand(
                    Operand::new()
                        .name("cond")
                        .width(4)
                        .shift(8)
                        .repr(OperandRepr::UnsignedByte)
                        .map(Field::Cond)
                        .build(),
                )
                .operand(
                    Operand::new()
                        .name("imm")
                        .width(8)
                        .repr(OperandRepr::SignedByte)
                        .map(Field::Imm)
                        .build(),
                )
                .build(),
        )
        .encoding(
            Encoding::new()
                .name("E2")
                .desc("Performs an unconditional branch")
                .base(0xE000)
                .ctor(InstrThumb16::Branch { cond: 0, imm: 0, immx: 0 })
                .operand(
                    Operand::new()
                        .name("imm")
                        .width(8)
                        .repr(OperandRepr::SignedShort)
                        .map(Field::Imm)
                        .build(),
                )
                .operand(
                    Operand::new()
                        .name("immx")
                        .width(3)
                        .shift(8)
                        .repr(OperandRepr::SignedShort)
                        .map(Field::Immx)
                        .build(),
                )
                .build(),
        )
        .build();

    let test_desc = InstrDesc::new()
        .name("SimpleTest")
        .desc("Simple unit testing instruction")
        .encoding(
            Encoding::new()
                .name("E1")
                .desc("First Encoding")
                .base(0xF000)
                .ctor(InstrThumb16::AddReg { rm: 0, rdn: 0, rd: 0 })
                .operand(
                    Operand::new()
                        .name("a")
                        .width(2)
                        .shift(6)
                        .repr(OperandRepr::UnsignedByte)
                        .map(Field::Rm)
                        .build(),
                )
                .operand(
                    Operand::new()
                        .name("b")
                        .width(2)
                        .shift(3)
                        .repr(OperandRepr::UnsignedByte)
                        .map(Field::Rdn)
                        .build(),
                )
                .operand(
                    Operand::new()
                        .name("c")
                        .width(2)
                        .shift(0)
                        .repr(OperandRepr::UnsignedByte)
                        .map(Field::Rd)
                        .build(),
                )
                .build(),
        )
        .build();

    assert_eq!(branch.name, "Branch");
    assert_eq!(branch.encodings.len(), 2);
    assert_eq!(branch.encodings[0].parent, "Branch");
    assert_eq!(branch.encodings[1].arity(), 2);

    let e1 = branch.encodings[0].generate_decode_table();
    assert_eq!(e1.len(), 16 * 256);
    assert_eq!(
        e1[0],
        InstructionCodecPair { encoded: 0xD000, decoded: InstrThumb16::Branch { cond: 0, imm: 0, immx: 0 } }
    );
    assert_eq!(
        e1[16 * 256 - 1],
        InstructionCodecPair {
            encoded: 0xDFFF,
            decoded: InstrThumb16::Branch { cond: 15, imm: 255, immx: 0 }
        }
    );
    let e2 = branch.encodings[1].generate_decode_table();
    assert_eq!(e2.len(), 256 * 8);

    let t = test_desc.encodings[0].generate_decode_table();
    assert_eq!(t.len(), 64);
    assert_eq!(test_desc.encodings[0].parent, "SimpleTest");
    assert_eq!(
        t[63],
        InstructionCodecPair { encoded: 0xF0DB, decoded: InstrThumb16::AddReg { rm: 3, rdn: 3, rd: 3 } }
    );
}

#[test]
fn add_imm_three_field_form_decodes_fields() {
    let table = compile_decode_table(&vec![single("AddImm", vec![add_imm_t1()])]);
    assert_eq!(table[0x1C00], InstrThumb16::AddImm { rd: 0, rdn: 0, imm: 0 });
    assert_eq!(0x1C00 | (5 << 0) | (2 << 3) | (3 << 6), 0x1CD5);
    assert_eq!(table[0x1CD5], InstrThumb16::AddImm { rd: 5, rdn: 2, imm: 3 });
}

#[test]
fn add_imm_forced_field_takes_default() {
    let table = compile_decode_table(&vec![single("AddImm", vec![add_imm_t1(), add_imm_t2()])]);
    assert_eq!(table[0x3012], InstrThumb16::AddImm { imm: 0x12, rdn: 0, rd: 0xFF });
    assert_eq!(table[0x1CD5], InstrThumb16::AddImm { rd: 5, rdn: 2, imm: 3 });
    // the forced field adds no iteration: 256 * 8 opcodes, one per combination
    assert_eq!(add_imm_t2().generate_decode_table().len(), 256 * 8);
}

#[test]
fn full_table_has_every_opcode() {
    let table = InstrThumb16::generate_decode_table();
    assert_eq!(table.len(), NUM_TH16_INSTRUCTIONS);
    assert_eq!(table.len(), 65536);
    let undefined = table.iter().filter(|i| **i == InstrThumb16::Undefined).count();
    assert_eq!(undefined, 3096);
}

#[test]
fn full_table_scenarios() {
    let table = InstrThumb16::generate_decode_table();
    assert_eq!(table[0x1C00], InstrThumb16::AddImm { rd: 0, rdn: 0, imm: 0 });
    assert_eq!(table[0x1CD5], InstrThumb16::AddImm { rd: 5, rdn: 2, imm: 3 });
    assert_eq!(table[0x3012], InstrThumb16::AddImm { imm: 0x12, rdn: 0, rd: 0xFF });
    assert_eq!(table[0xBF00], InstrThumb16::Nop);
    assert_eq!(table[0x0001], InstrThumb16::LslImm { imm: 0, rm: 0, rd: 1 });
    assert_eq!(table[0xE7FE], InstrThumb16::Branch { imm: 0xFE, immx: 7, cond: 0xFF });
    assert_eq!(table[0xD105], InstrThumb16::Branch { cond: 1, imm: 5, immx: 0xFF });
    assert_eq!(table[0xF000], InstrThumb16::Thumb2B { high: 0, low: 0 });
    assert_eq!(table[0x4319], InstrThumb16::OrrReg { rm: 3, rdn: 1 });
}

#[test]
fn zero_operand_encoding_writes_one_entry() {
    let pairs = nop().generate_decode_table();
    assert_eq!(pairs, vec![InstructionCodecPair { encoded: 0xBF00, decoded: InstrThumb16::Nop }]);
    let table = compile_decode_table(&vec![single("Nop", vec![nop()])]);
    let defined: Vec<usize> = (0..table.len()).filter(|i| table[*i] != InstrThumb16::Undefined).collect();
    assert_eq!(defined, vec![0xBF00]);
}

#[test]
fn later_encoding_wins_on_shared_opcode() {
    let udf_last = compile_decode_table(&vec![
        single("Branch", vec![branch_t1()]),
        single("Udf", vec![udf()]),
    ]);
    assert_eq!(udf_last[0xDE05], InstrThumb16::Udf { imm: 5 });
    assert_eq!(udf_last[0xD105], InstrThumb16::Branch { cond: 1, imm: 5, immx: 0xFF });

    let branch_last = compile_decode_table(&vec![
        single("Udf", vec![udf()]),
        single("Branch", vec![branch_t1()]),
    ]);
    assert_eq!(branch_last[0xDE05], InstrThumb16::Branch { cond: 0xE, imm: 5, immx: 0xFF });

    let full = InstrThumb16::generate_decode_table();
    assert_eq!(full[0xDE05], InstrThumb16::Udf { imm: 5 });
    assert_eq!(full[0xDF00], InstrThumb16::Svc);
    assert_eq!(full[0xDF05], InstrThumb16::Branch { cond: 15, imm: 5, immx: 0xFF });
}

#[test]
fn unmapped_opcode_is_undefined() {
    let table = compile_decode_table(&vec![single("AddImm", vec![add_imm_t1()])]);
    assert_eq!(table[0x0000], InstrThumb16::Undefined);
    assert_eq!(table[0x3012], InstrThumb16::Undefined);
    let empty = compile_decode_table(&vec![]);
    assert!(empty.iter().all(|i| *i == InstrThumb16::Undefined));
    let full = InstrThumb16::generate_decode_table();
    assert_eq!(full[0x4701], InstrThumb16::Undefined);
    assert_eq!(full[0xB600], InstrThumb16::Undefined);
}

#[test]
fn round_trip_every_combination() {
    let enc = add_imm_t1();
    let table = compile_decode_table(&vec![single("AddImm", vec![add_imm_t1()])]);
    for rd in 0u16..8 {
        for rdn in 0u16..8 {
            for imm in 0u16..8 {
                let code = 0x1C00 | rd | (rdn << 3) | (imm << 6);
                assert_eq!(
                    table[code as usize],
                    InstrThumb16::AddImm { rd: rd as u8, rdn: rdn as u8, imm: imm as u8 }
                );
            }
        }
    }
    assert_eq!(enc.generate_decode_table().len(), 512);
}

#[test]
fn permutation_ranges() {
    assert_eq!(operand("rd", Field::Rd, 3, 0).permutations(), (0, 7));
    assert_eq!(operand("imm", Field::Imm, 8, 0).permutations(), (0, 255));
    assert_eq!(operand("z", Field::Imm, 0, 4).permutations(), (0, 0));
    assert_eq!(unused("rd", Field::Rd).permutations(), (0xFF, 0xFF));
    assert_eq!(Operand::new().build().permutations(), (0, 0));
    assert_eq!(Operand::new().width(0).repr(OperandRepr::UnsignedWord).build().permutations(), (0, 0));
    assert_eq!(Operand::new().width(16).build().permutations(), (0, 65535));
}

#[test]
fn fresh_builders_are_empty() {
    let op = Operand::new().build();
    assert_eq!(op.name, "");
    assert_eq!(op.map, None);
    let enc = Encoding::new().build();
    assert_eq!((enc.parent.as_str(), enc.name.as_str(), enc.desc.as_str()), ("", "", ""));
    assert_eq!(enc.arity(), 0);
    assert_eq!(enc.base, 0);
    let desc = InstrDesc::new().name("X").build();
    assert_eq!(desc.desc, "");
    assert_eq!(desc.encodings.len(), 0);
}

#[test]
fn full_table_add_imm_ranges() {
    let table = InstrThumb16::generate_decode_table();
    for op in 0x1C00usize..=0x1DFF {
        assert_eq!(
            table[op],
            InstrThumb16::AddImm { rd: (op & 7) as u8, rdn: ((op >> 3) & 7) as u8, imm: ((op >> 6) & 7) as u8 }
        );
    }
    for op in 0x3000usize..=0x37FF {
        assert_eq!(
            table[op],
            InstrThumb16::AddImm { imm: (op & 0xFF) as u8, rdn: ((op >> 8) & 7) as u8, rd: 0xFF }
        );
    }
}

#[test]
fn zero_width_operand_acts_as_fixed_bits() {
    let enc = Encoding::new()
        .base(0xBE00)
        .ctor(InstrThumb16::Breakpoint { imm: 0 })
        .operand(operand("imm", Field::Imm, 0, 3))
        .build();
    let pairs = enc.generate_decode_table();
    assert_eq!(
        pairs,
        vec![InstructionCodecPair { encoded: 0xBE00, decoded: InstrThumb16::Breakpoint { imm: 0 } }]
    );
}

#[test]
fn set_field_changes_only_that_field() {
    let i = InstrThumb16::AddImm { imm: 1, rdn: 2, rd: 3 };
    assert_eq!(i.set_field(Field::Rdn, 7), InstrThumb16::AddImm { imm: 1, rdn: 7, rd: 3 });
    assert_eq!(i.set_field(Field::Cond, 7), i);
    assert_eq!(InstrThumb16::Nop.set_field(Field::Imm, 1), InstrThumb16::Nop);
}

#[test]
fn catalog_is_ordered_and_named() {
    let set = armchair::instructions::instruction_set();
    assert_eq!(set.len(), 74);
    assert_eq!(set[0].name, "AdcReg");
    assert_eq!(set[1].encodings.len(), 2);
    assert_eq!(set[1].encodings[1].operands[2].default, Some(0xFF));
    let total: usize = set.iter().map(|d| d.encodings.len()).sum();
    assert_eq!(total, 82);
}
