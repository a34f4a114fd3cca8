use emu8080::{Cpu, Fault, Reg, RegPair, Status};

const MEM_SIZE: usize = 0x10000;

#[test]
fn nop_program_leaves_everything_but_pc() {
    let mut cpu = Cpu::new(MEM_SIZE);
    cpu.load(&vec![0x00], 0).unwrap();
    let before = cpu.snapshot();

    assert_eq!(cpu.step(), Ok(1));

    for r in [Reg::A, Reg::B, Reg::C, Reg::D, Reg::E, Reg::H, Reg::L] {
        assert_eq!(cpu.reg(r), before.reg(r));
    }
    assert_eq!(cpu.flags(), before.flags());
    assert_eq!(cpu.pc(), 1);
}

#[test]
fn lxi_b_d16_program_loads_both_bytes() {
    let mut cpu = Cpu::new(MEM_SIZE);
    cpu.load(&vec![0x01, 0x01, 0x02], 0).unwrap();

    assert_eq!(cpu.step(), Ok(3));

    assert_eq!(cpu.reg(Reg::C), 0x01);
    assert_eq!(cpu.reg(Reg::B), 0x02);
    assert_eq!(cpu.pc(), 3);
}

#[test]
fn stax_b_stores_a_at_bc() {
    let mut cpu = Cpu::new(MEM_SIZE);
    cpu.set_reg(Reg::B, 0x00);
    cpu.set_reg(Reg::C, 0x02);
    cpu.set_reg(Reg::A, 0x05);
    cpu.load(&vec![0x02], 0).unwrap();

    assert_eq!(cpu.step(), Ok(2));

    assert_eq!(cpu.read_mem(0x0002).unwrap(), 0x05);
}

#[test]
fn dcr_b_to_zero_sets_zero_clears_sign_keeps_carry() {
    let mut cpu = Cpu::new(MEM_SIZE);
    cpu.set_reg(Reg::B, 0x01);
    cpu.load(&vec![0x05], 0).unwrap();
    let cy_before = cpu.flags().cy;

    assert_eq!(cpu.step(), Ok(1));

    assert_eq!(cpu.reg(Reg::B), 0x00);
    assert!(cpu.flags().z);
    assert!(!cpu.flags().s);
    assert_eq!(cpu.flags().cy, cy_before);
}

#[test]
fn dad_b_adds_bc_into_hl_and_records_carry() {
    let mut cpu = Cpu::new(MEM_SIZE);
    cpu.set_pair(RegPair::HL, 0x0000);
    cpu.set_pair(RegPair::BC, 0x0001);
    cpu.load(&vec![0x09], 0).unwrap();

    assert_eq!(cpu.step(), Ok(3));

    assert_eq!(cpu.pair(RegPair::HL), 0x0001);
    assert!(!cpu.flags().cy);

    let mut cpu = Cpu::new(MEM_SIZE);
    cpu.set_pair(RegPair::HL, 0xFFFF);
    cpu.set_pair(RegPair::BC, 0x0001);
    cpu.load(&vec![0x09], 0).unwrap();

    assert_eq!(cpu.step(), Ok(3));

    assert_eq!(cpu.pair(RegPair::HL), 0x0000);
    assert!(cpu.flags().cy);
}

#[test]
fn unbound_opcode_faults_and_refuses_further_steps() {
    let mut cpu = Cpu::new(MEM_SIZE);
    cpu.load(&vec![0xFF], 0).unwrap();
    let before = cpu.snapshot();

    assert_eq!(
        cpu.step(),
        Err(Fault::UnimplementedOpcode { opcode: 0xFF, addr: 0 })
    );
    assert_eq!(cpu.status(), Status::Faulted);
    assert_eq!(
        cpu.last_fault(),
        Some(Fault::UnimplementedOpcode { opcode: 0xFF, addr: 0 })
    );
    // nothing but the status and the recorded fault moved
    for r in [Reg::A, Reg::B, Reg::C, Reg::D, Reg::E, Reg::H, Reg::L] {
        assert_eq!(cpu.reg(r), before.reg(r));
    }
    assert_eq!(cpu.flags(), before.flags());
    assert_eq!(cpu.memory(), before.memory());
    assert_eq!(cpu.pc(), before.pc());

    // a subsequent step is rejected without side effects
    let faulted = cpu.snapshot();
    assert_eq!(cpu.step(), Err(Fault::NotRunning));
    assert_eq!(cpu.status(), Status::Faulted);
    assert_eq!(cpu.pc(), faulted.pc());
    assert_eq!(cpu.flags(), faulted.flags());
    assert_eq!(cpu.memory(), faulted.memory());
}

#[test]
fn fetch_outside_the_address_space_faults() {
    let mut cpu = Cpu::new(0);

    assert_eq!(cpu.step(), Err(Fault::AddressOutOfRange { addr: 0 }));
    assert_eq!(cpu.status(), Status::Faulted);
}

#[test]
fn hlt_moves_to_halted_and_stops_stepping() {
    let mut cpu = Cpu::new(MEM_SIZE);
    cpu.load(&vec![0x76], 0).unwrap();

    assert_eq!(cpu.step(), Ok(1));
    assert_eq!(cpu.status(), Status::Halted);
    assert_eq!(cpu.pc(), 1);
    assert_eq!(cpu.step(), Err(Fault::NotRunning));
}

#[test]
fn run_until_halt_drains_to_the_halt() {
    let mut cpu = Cpu::new(MEM_SIZE);
    cpu.load(&vec![0x00, 0x00, 0x76], 0).unwrap();

    assert_eq!(cpu.run_until_halt(10), Ok(Status::Halted));
    assert_eq!(cpu.pc(), 3);
    assert_eq!(cpu.total_cycles(), 3);
}

#[test]
fn run_until_halt_respects_the_step_budget() {
    let mut cpu = Cpu::new(MEM_SIZE);

    assert_eq!(cpu.run_until_halt(2), Ok(Status::Running));
    assert_eq!(cpu.pc(), 2);
    assert_eq!(cpu.total_cycles(), 2);
}

#[test]
fn run_until_halt_surfaces_the_fault() {
    let mut cpu = Cpu::new(MEM_SIZE);
    cpu.load(&vec![0x00, 0xFF], 0).unwrap();

    assert_eq!(
        cpu.run_until_halt(10),
        Err(Fault::UnimplementedOpcode { opcode: 0xFF, addr: 1 })
    );
    assert_eq!(cpu.status(), Status::Faulted);
    assert_eq!(cpu.pc(), 1);
}

#[test]
fn ei_enables_and_an_injected_vector_redirects() {
    let mut cpu = Cpu::new(MEM_SIZE);
    cpu.load(&vec![0xFB, 0x00], 0).unwrap();

    assert!(!cpu.interrupts_enabled());
    assert_eq!(cpu.step(), Ok(1)); // EI
    assert!(cpu.interrupts_enabled());
    assert_eq!(cpu.pc(), 1);

    cpu.inject(0x0030);
    assert_eq!(cpu.step(), Ok(1)); // redirect, not a fetch
    assert_eq!(cpu.pc(), 0x0030);
    assert!(!cpu.interrupts_enabled()); // acknowledging disables
    assert_eq!(cpu.status(), Status::Running);

    // the vector was consumed: the next step fetches normally
    assert_eq!(cpu.step(), Ok(1)); // NOP at 0x0030
    assert_eq!(cpu.pc(), 0x0031);
}

#[test]
fn injected_vector_is_ignored_while_disabled() {
    let mut cpu = Cpu::new(MEM_SIZE);
    cpu.load(&vec![0xF3, 0x00], 0).unwrap();

    assert_eq!(cpu.step(), Ok(1)); // DI: stays disabled
    assert!(!cpu.interrupts_enabled());

    cpu.inject(0x0030);
    assert_eq!(cpu.step(), Ok(1)); // normal NOP fetch, no redirect
    assert_eq!(cpu.pc(), 2);
}
