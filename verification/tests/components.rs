use emu8080::flags::parity;
use emu8080::instr::{decode, mnemonic};
use emu8080::memory::Memory;
use emu8080::registers::RegisterFile;
use emu8080::{Cpu, Fault, OpKind, Reg, RegPair, Status};

const MEM_SIZE: usize = 0x10000;

#[test]
fn parity_counts_even_set_bits() {
    assert!(parity(0x00));
    assert!(!parity(0x01));
    assert!(parity(0x03));
    assert!(!parity(0x10));
    assert!(!parity(0x7F)); // seven set bits
    assert!(parity(0xFF)); // eight set bits
    assert!(parity(0x81));
}

#[test]
fn register_roundtrip_single() {
    let mut cpu = Cpu::new(1);
    for r in [Reg::A, Reg::B, Reg::C, Reg::D, Reg::E, Reg::H, Reg::L] {
        for v in [0x00u8, 0x01, 0x7F, 0x80, 0xFF] {
            cpu.set_reg(r, v);
            assert_eq!(cpu.reg(r), v);
        }
    }
}

#[test]
fn register_roundtrip_pairs() {
    let mut cpu = Cpu::new(1);
    for p in [RegPair::BC, RegPair::DE, RegPair::HL] {
        for v in [0x0000u16, 0x0001, 0x00FF, 0x0100, 0xABCD, 0xFFFF] {
            cpu.set_pair(p, v);
            assert_eq!(cpu.pair(p), v);
        }
    }
}

#[test]
fn pair_composition_is_high_then_low() {
    let mut cpu = Cpu::new(1);
    cpu.set_pair(RegPair::BC, 0xABCD);
    assert_eq!(cpu.reg(Reg::B), 0xAB);
    assert_eq!(cpu.reg(Reg::C), 0xCD);

    cpu.set_reg(Reg::H, 0x12);
    cpu.set_reg(Reg::L, 0x34);
    assert_eq!(cpu.pair(RegPair::HL), 0x1234);
}

#[test]
fn register_file_get_set_direct() {
    let mut rf = RegisterFile { a: 0, b: 0, c: 0, d: 0, e: 0, h: 0, l: 0, sp: 0, pc: 0 };
    rf.set(Reg::E, 0x42);
    assert_eq!(rf.get(Reg::E), 0x42);
    assert_eq!(rf.get(Reg::D), 0x00);
    rf.set_pair(RegPair::DE, 0xBEEF);
    assert_eq!(rf.get_pair(RegPair::DE), 0xBEEF);
    assert_eq!(rf.get(Reg::D), 0xBE);
    assert_eq!(rf.get(Reg::E), 0xEF);
}

#[test]
fn memory_word_access_is_little_endian() {
    let mut mem = Memory::new(0x100);
    mem.write16(0x10, 0x1234).unwrap();
    assert_eq!(mem.read8(0x10).unwrap(), 0x34);
    assert_eq!(mem.read8(0x11).unwrap(), 0x12);
    assert_eq!(mem.read16(0x10).unwrap(), 0x1234);
}

#[test]
fn memory_faults_outside_the_configured_size() {
    let mut mem = Memory::new(0x100);
    assert_eq!(mem.read8(0x100), Err(Fault::AddressOutOfRange { addr: 0x100 }));
    assert_eq!(mem.write8(0x100, 1), Err(Fault::AddressOutOfRange { addr: 0x100 }));
    // a 16-bit access needs both bytes in range
    assert_eq!(mem.read16(0xFF), Err(Fault::AddressOutOfRange { addr: 0xFF }));
    assert_eq!(mem.write16(0xFF, 1), Err(Fault::AddressOutOfRange { addr: 0xFF }));
    assert_eq!(mem.read8(0xFF).unwrap(), 0);
}

#[test]
fn load_rejects_an_image_that_does_not_fit() {
    let mut cpu = Cpu::new(MEM_SIZE);
    let image = vec![1, 2, 3];
    assert_eq!(
        cpu.load(&image, 0xFFFE),
        Err(Fault::AddressOutOfRange { addr: 0xFFFE })
    );
    // nothing was copied
    assert_eq!(cpu.read_mem(0xFFFE).unwrap(), 0);
    assert_eq!(cpu.read_mem(0xFFFF).unwrap(), 0);

    cpu.load(&image, 0xFFFD).unwrap();
    assert_eq!(cpu.read_mem(0xFFFD).unwrap(), 1);
    assert_eq!(cpu.read_mem(0xFFFE).unwrap(), 2);
    assert_eq!(cpu.read_mem(0xFFFF).unwrap(), 3);
}

#[test]
fn load_of_an_empty_image_changes_nothing() {
    let mut cpu = Cpu::new(0x100);
    let before = cpu.snapshot();
    cpu.load(&vec![], 0x100).unwrap();
    assert_eq!(cpu.memory(), before.memory());
}

#[test]
fn decode_is_total_and_matches_the_opcode_map() {
    let nop = decode(0x00);
    assert_eq!(nop.kind, OpKind::Nop);
    assert_eq!((nop.length, nop.cycles), (1, 1));

    let lxi = decode(0x01);
    assert_eq!(lxi.kind, OpKind::LxiB);
    assert_eq!((lxi.length, lxi.cycles), (3, 3));

    let stax = decode(0x02);
    assert_eq!(stax.kind, OpKind::StaxB);
    assert_eq!((stax.length, stax.cycles), (1, 2));

    assert_eq!(decode(0x03).kind, OpKind::InxB);
    assert_eq!(decode(0x04).kind, OpKind::InrB);
    assert_eq!(decode(0x05).kind, OpKind::DcrB);

    let mvi = decode(0x06);
    assert_eq!(mvi.kind, OpKind::MviB);
    assert_eq!(mvi.length, 2);

    assert_eq!(decode(0x07).kind, OpKind::Rlc);
    assert_eq!(decode(0x08).kind, OpKind::Nop);
    assert_eq!(decode(0x09).kind, OpKind::DadB);
    assert_eq!(decode(0x76).kind, OpKind::Hlt);
    assert_eq!(decode(0xF3).kind, OpKind::Di);
    assert_eq!(decode(0xFB).kind, OpKind::Ei);

    // every unbound opcode yields the explicit sentinel, never a gap
    for op in 0u16..=0xFF {
        let op = op as u8;
        let bound = matches!(
            op,
            0x00..=0x09 | 0x76 | 0xF3 | 0xFB
        );
        if !bound {
            assert_eq!(decode(op).kind, OpKind::Unimplemented);
        }
    }

    assert_eq!(mnemonic(OpKind::Nop), "NOP");
    assert_eq!(mnemonic(OpKind::LxiB), "LXI B,D16");
    assert_eq!(mnemonic(OpKind::Unimplemented), "UNIMPLEMENTED");
}

#[test]
fn a_later_injection_overwrites_an_unconsumed_one() {
    let mut cpu = Cpu::new(MEM_SIZE);
    cpu.load(&vec![0xFB], 0).unwrap();
    cpu.step().unwrap(); // EI
    cpu.inject(0x0010);
    cpu.inject(0x0020);
    cpu.step().unwrap(); // redirect to the latest vector
    assert_eq!(cpu.pc(), 0x0020);
}

#[test]
fn new_cpu_uses_the_documented_reset_state() {
    let cpu = Cpu::new(MEM_SIZE);
    for r in [Reg::A, Reg::B, Reg::C, Reg::D, Reg::E, Reg::H, Reg::L] {
        assert_eq!(cpu.reg(r), 1);
    }
    assert_eq!(cpu.sp(), 1);
    assert_eq!(cpu.pc(), 0);
    let f = cpu.flags();
    assert!(f.z && f.s && f.p && f.cy && f.ac);
    assert_eq!(f.pad, 3);
    assert_eq!(cpu.status(), Status::Running);
    assert_eq!(cpu.total_cycles(), 0);
    assert_eq!(cpu.last_fault(), None);
    assert!(!cpu.interrupts_enabled());
    assert_eq!(cpu.memory_size(), MEM_SIZE);
    assert_eq!(cpu.read_mem(0x1234).unwrap(), 0);
}

#[test]
fn restore_of_snapshot_reproduces_observable_state() {
    let mut cpu = Cpu::new(MEM_SIZE);
    cpu.load(&vec![0x01, 0x34, 0x12, 0x05, 0xFF], 0).unwrap();
    cpu.set_pair(RegPair::HL, 0x4242);
    let _ = cpu.step(); // LXI B
    let snap = cpu.snapshot();

    // run on: DCR B, then a fault on 0xFF
    let _ = cpu.step();
    let _ = cpu.step();
    assert_eq!(cpu.status(), Status::Faulted);

    cpu.restore(&snap);

    assert_eq!(cpu.pc(), snap.pc());
    assert_eq!(cpu.sp(), snap.sp());
    for r in [Reg::A, Reg::B, Reg::C, Reg::D, Reg::E, Reg::H, Reg::L] {
        assert_eq!(cpu.reg(r), snap.reg(r));
    }
    assert_eq!(cpu.flags(), snap.flags());
    assert_eq!(cpu.memory(), snap.memory());
    assert_eq!(cpu.status(), Status::Running);
    assert_eq!(cpu.total_cycles(), snap.total_cycles());
    assert_eq!(cpu.last_fault(), None);

    // and execution resumes exactly where the snapshot was taken
    assert_eq!(cpu.step(), Ok(1)); // DCR B
    assert_eq!(cpu.reg(Reg::B), 0x11);
}

#[test]
fn set_pc_and_set_sp_only_move_those() {
    let mut cpu = Cpu::new(MEM_SIZE);
    let before = cpu.snapshot();
    cpu.set_pc(0x0100);
    cpu.set_sp(0x2000);
    assert_eq!(cpu.pc(), 0x0100);
    assert_eq!(cpu.sp(), 0x2000);
    assert_eq!(cpu.flags(), before.flags());
    assert_eq!(cpu.memory(), before.memory());
    for r in [Reg::A, Reg::B, Reg::C, Reg::D, Reg::E, Reg::H, Reg::L] {
        assert_eq!(cpu.reg(r), before.reg(r));
    }
}
