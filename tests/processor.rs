use armchair::decode::{Encoding, InstrDesc};
use armchair::instructions::InstrThumb16;
use armchair::loader::{LoadError, ProgramImage, Segment};
use armchair::memory::{Memory, Register, RegisterBank};
use armchair::processor::{Fault, Processor, RunReport};

fn image(entry: usize, bytes: &[u8]) -> ProgramImage {
    let seg = Segment {
        virtual_address: 0,
        physical_address: 0,
        memory_size: bytes.len(),
        data: bytes.to_vec(),
    };
    ProgramImage::from_segments(entry, &vec![seg]).unwrap()
}

fn nop_only() -> Vec<InstrDesc> {
    vec![InstrDesc::new()
        .name("Nop")
        .encoding(Encoding::new().base(0xBF00).ctor(InstrThumb16::Nop).build())
        .build()]
}

/// Nop, Nop, then the halfword 0x0001.
const NOP_NOP_ONE: [u8; 6] = [0x00, 0xBF, 0x00, 0xBF, 0x01, 0x00];

#[test]
fn two_nops_then_undefined_opcode() {
    let mut p = Processor::new();
    p.init_with(&nop_only());
    p.load(image(0, &NOP_NOP_ONE));
    assert_eq!(p.register(Register::PC), 0);
    assert_eq!(p.step(), Ok(()));
    assert_eq!(p.register(Register::PC), 2);
    assert_eq!(p.step(), Ok(()));
    assert_eq!(p.register(Register::PC), 4);
    assert_eq!(p.step(), Err(Fault::Undefined { pc: 4, opcode: 0x0001 }));
    assert_eq!(p.register(Register::PC), 4);
}

#[test]
fn run_stops_on_undefined_opcode() {
    let mut p = Processor::new();
    p.init_with(&nop_only());
    p.load(image(0, &NOP_NOP_ONE));
    let report = p.run(100);
    assert_eq!(
        report,
        RunReport { cycles: 2, fault: Some(Fault::Undefined { pc: 4, opcode: 0x0001 }) }
    );
    assert_eq!(p.register(Register::PC), 4);
}

#[test]
fn full_catalog_stops_on_unimplemented_instruction() {
    let mut p = Processor::new();
    p.init();
    p.load(image(0, &NOP_NOP_ONE));
    let report = p.run(100);
    assert_eq!(
        report,
        RunReport {
            cycles: 2,
            fault: Some(Fault::Unimplemented {
                pc: 4,
                opcode: 0x0001,
                decoded: InstrThumb16::LslImm { imm: 0, rm: 0, rd: 1 },
            }),
        }
    );
}

#[test]
fn uninitialized_table_decodes_nothing() {
    let mut p = Processor::new();
    p.load(image(0, &NOP_NOP_ONE));
    assert_eq!(p.step(), Err(Fault::Undefined { pc: 0, opcode: 0xBF00 }));
}

#[test]
fn cycle_limit_ends_run() {
    let mut p = Processor::new();
    p.init();
    p.load(image(0, &NOP_NOP_ONE));
    assert_eq!(p.run(1), RunReport { cycles: 1, fault: None });
    assert_eq!(p.register(Register::PC), 2);
    assert_eq!(p.run(0), RunReport { cycles: 0, fault: None });
    assert_eq!(p.register(Register::PC), 2);
}

#[test]
fn branch_to_self_loops() {
    let mut p = Processor::new();
    p.init();
    // b . (0xE7FE): offset -4 relative to pc + 4
    p.load(image(0, &[0x00, 0xBF, 0xFE, 0xE7]));
    assert_eq!(p.run(5), RunReport { cycles: 5, fault: None });
    assert_eq!(p.register(Register::PC), 2);
}

#[test]
fn forward_branch_skips_ahead() {
    let mut p = Processor::new();
    p.init();
    // b +2 (0xE001) lands at pc + 6
    p.load(image(0, &[0x01, 0xE0, 0x00, 0x00, 0x00, 0x00, 0x00, 0xBF]));
    assert_eq!(p.step(), Ok(()));
    assert_eq!(p.register(Register::PC), 6);
    assert_eq!(p.step(), Ok(()));
    assert_eq!(p.register(Register::PC), 8);
}

#[test]
fn conditional_branch_is_unimplemented() {
    let mut p = Processor::new();
    p.init();
    p.load(image(0, &[0x05, 0xD1]));
    assert_eq!(
        p.step(),
        Err(Fault::Unimplemented {
            pc: 0,
            opcode: 0xD105,
            decoded: InstrThumb16::Branch { cond: 1, imm: 5, immx: 0xFF },
        })
    );
}

#[test]
fn wide_instruction_fetches_second_halfword() {
    let mut p = Processor::new();
    p.init();
    p.load(image(0, &[0x00, 0xF0, 0x34, 0x12]));
    assert_eq!(
        p.step(),
        Err(Fault::UnimplementedWide {
            pc: 0,
            first: 0xF000,
            second: 0x1234,
            decoded: InstrThumb16::Thumb2B { high: 0, low: 0 },
        })
    );
}

#[test]
fn fetch_past_memory_faults() {
    // memory is one page: the halfword at 4094 is the last one
    let mut q = Processor::new();
    q.init();
    q.load(image(4094, &[0x00, 0xBF]));
    assert_eq!(
        q.step(),
        Err(Fault::Unimplemented { pc: 4094, opcode: 0, decoded: InstrThumb16::LslImm { imm: 0, rm: 0, rd: 0 } })
    );
    let mut r = Processor::new();
    r.init();
    r.load(image(4095, &[0x00, 0xBF]));
    assert_eq!(r.step(), Err(Fault::FetchOutOfBounds { pc: 4095, address: 4095 }));
    let mut r2 = Processor::new();
    r2.init();
    r2.load(image(4096, &[0x00, 0xBF]));
    assert_eq!(r2.step(), Err(Fault::FetchOutOfBounds { pc: 4096, address: 4096 }));
    let seg = Segment { virtual_address: 4094, physical_address: 4094, memory_size: 2, data: vec![0x00, 0xF0] };
    let mut s = Processor::new();
    s.init();
    s.load(ProgramImage::from_segments(4094, &vec![seg]).unwrap());
    assert_eq!(
        s.step(),
        Err(Fault::SecondHalfwordOutOfBounds {
            pc: 4094,
            first: 0xF000,
            address: 4096,
            decoded: InstrThumb16::Thumb2B { high: 0, low: 0 },
        })
    );
}

#[test]
fn empty_processor_faults_on_fetch() {
    let mut p = Processor::new();
    p.init();
    assert_eq!(p.run(3), RunReport { cycles: 0, fault: Some(Fault::FetchOutOfBounds { pc: 0, address: 0 }) });
}

#[test]
fn reset_clears_thumb_bit() {
    let mut p = Processor::new();
    p.load(image(0x101, &NOP_NOP_ONE));
    assert_eq!(p.register(Register::PC), 0x101);
    p.reset();
    assert_eq!(p.register(Register::PC), 0x100);
    assert_eq!(p.register(Register::R0), 0);
}

#[test]
fn decode_table_lists_every_opcode() {
    let mut p = Processor::new();
    p.init();
    let pairs = p.decode_table();
    assert_eq!(pairs.len(), 65536);
    assert_eq!(pairs[0xBF00].encoded, 0xBF00);
    assert_eq!(pairs[0xBF00].decoded, InstrThumb16::Nop);
    assert_eq!(pairs[0x4701].decoded, InstrThumb16::Undefined);
    for op in 0..=u16::MAX {
        assert_eq!(p.decode(op), pairs[op as usize].decoded);
    }
}

#[test]
fn register_bank_reads_and_writes() {
    let mut bank = RegisterBank::new();
    assert_eq!(bank.get(Register::LR), 0);
    bank.set(Register::LR, 0xDEAD_BEEF);
    bank.set(Register::R3, 7);
    assert_eq!(bank.get(Register::LR), 0xDEAD_BEEF);
    assert_eq!(bank.get(Register::R3), 7);
    assert_eq!(bank.get(Register::R4), 0);
    assert_eq!(Register::EPSR.index(), 19);
}

#[test]
fn memory_is_page_rounded_and_little_endian() {
    assert_eq!(Memory::allocate(0).allocated_bytes(), 0);
    assert_eq!(Memory::allocate(1).allocated_bytes(), 4096);
    assert_eq!(Memory::allocate(4096).allocated_bytes(), 4096);
    assert_eq!(Memory::allocate(4097).allocated_bytes(), 8192);
    let mut m = Memory::allocate(5);
    assert_eq!(m.read_u16(0), Some(0));
    m.write_bytes(10, &[0x34, 0x12, 0xFF]);
    assert_eq!(m.read_u16(10), Some(0x1234));
    assert_eq!(m.read_u16(11), Some(0xFF12));
    assert_eq!(m.read_u16(4094), Some(0));
    assert_eq!(m.read_u16(4095), None);
    assert_eq!(m.read_u16(usize::MAX), None);
}

#[test]
fn segments_are_laid_out_in_order() {
    let segs = vec![
        Segment { virtual_address: 0x10, physical_address: 0x10, memory_size: 2, data: vec![1, 2] },
        Segment { virtual_address: 0x2000, physical_address: 0x2000, memory_size: 2, data: vec![3, 4] },
        Segment { virtual_address: 0x11, physical_address: 0x11, memory_size: 1, data: vec![9] },
    ];
    let img = ProgramImage::from_segments(0x11, &segs).unwrap();
    assert_eq!(img.entry(), 0x11);
    let mem = img.into_raw_image();
    assert_eq!(mem.allocated_bytes(), 0x3000);
    assert_eq!(mem.read_u16(0x10), Some(0x0901));
    assert_eq!(mem.read_u16(0x2000), Some(0x0403));
}

#[test]
fn inconsistent_segments_are_rejected() {
    let bad_address = vec![
        Segment { virtual_address: 0, physical_address: 0, memory_size: 1, data: vec![1] },
        Segment { virtual_address: 4, physical_address: 8, memory_size: 1, data: vec![1] },
    ];
    assert_eq!(
        ProgramImage::from_segments(0, &bad_address).err(),
        Some(LoadError::AddressMismatch { index: 1 })
    );
    let bad_size = vec![Segment { virtual_address: 0, physical_address: 0, memory_size: 3, data: vec![1] }];
    assert_eq!(ProgramImage::from_segments(0, &bad_size).err(), Some(LoadError::SizeMismatch { index: 0 }));
    let huge = vec![Segment { virtual_address: usize::MAX - 10, physical_address: 0, memory_size: 1, data: vec![] }];
    assert_eq!(ProgramImage::from_segments(0, &huge).err(), Some(LoadError::TooLarge));
    assert_eq!(ProgramImage::from_segments(0, &vec![]).unwrap().into_raw_image().allocated_bytes(), 0);
}
