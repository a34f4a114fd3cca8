use vstd::prelude::*;
use crate::fault::{Fault, Status};
use crate::flags::{Flags, parity, spec_parity, spec_sign, spec_zero};
use crate::instr::{decode, spec_decode, OpKind};
use crate::memory::{spec_loaded, Memory};
use crate::registers::{spec_pair, Reg, RegPair, RegisterFile};

verus! {

/// Cycle cost charged when a step is redirected to an injected interrupt
/// vector instead of fetching an instruction.
pub const INT_ACK_CYCLES: u8 = 1;

/// Mathematical model of the whole processor aggregate: the register file,
/// the memory bytes, the status flags, the interrupt hook, the execution
/// status, the running cycle total, and the last recorded fault.
#[verifier::ext_equal]
pub struct CpuView {
    pub regs: RegisterFile,
    pub mem: Seq<u8>,
    pub flags: Flags,
    pub int_enable: bool,
    pub pending: Option<u16>,
    pub status: Status,
    pub cycles: u64,
    pub last_fault: Option<Fault>,
}

impl CpuView {
    /// Internal consistency: the processor is in the `Faulted` state exactly
    /// when a fault has been recorded.
    pub open spec fn wf(self) -> bool {
        (self.status == Status::Faulted) <==> (self.last_fault is Some)
    }
}

/// The processor state after construction: this emulator's reset convention
/// puts 1 in every general register and the stack pointer, sets all five
/// status bits, 3 in the reserved pad bits, 0 in the program counter, zeroes
/// the memory, and starts `Running` with interrupts disabled.
pub open spec fn spec_initial(size: nat) -> CpuView {
    CpuView {
        regs: RegisterFile { a: 1, b: 1, c: 1, d: 1, e: 1, h: 1, l: 1, sp: 1, pc: 0 },
        mem: Seq::new(size, |i: int| 0u8),
        flags: Flags { z: true, s: true, p: true, cy: true, ac: true, pad: 3 },
        int_enable: false,
        pending: None,
        status: Status::Running,
        cycles: 0,
        last_fault: None,
    }
}

/// The instruction-execution core: register file, flags, memory bus,
/// interrupt hook, execution status and cycle total, driven one instruction
/// at a time by `step`. The aggregate is an explicit owned value; a host
/// constructs it, drives the loop, and may snapshot and restore it.
pub struct Cpu {
    regs: RegisterFile,
    mem: Memory,
    flags: Flags,
    int_enable: bool,
    pending: Option<u16>,
    status: Status,
    cycles: u64,
    last_fault: Option<Fault>,
}

impl View for Cpu {
    type V = CpuView;

    closed spec fn view(&self) -> CpuView {
        CpuView {
            regs: self.regs,
            mem: self.mem@,
            flags: self.flags,
            int_enable: self.int_enable,
            pending: self.pending,
            status: self.status,
            cycles: self.cycles,
            last_fault: self.last_fault,
        }
    }
}

impl Cpu {
    /// Construct a processor with a `memory_size`-byte address space, in the
    /// documented reset state.
    pub fn new(memory_size: usize) -> (cpu: Cpu)
        ensures
            cpu@ == spec_initial(memory_size as nat),
            cpu@.wf(),
    {
        Cpu {
            regs: RegisterFile { a: 1, b: 1, c: 1, d: 1, e: 1, h: 1, l: 1, sp: 1, pc: 0 },
            mem: Memory::new(memory_size),
            flags: Flags { z: true, s: true, p: true, cy: true, ac: true, pad: 3 },
            int_enable: false,
            pending: None,
            status: Status::Running,
            cycles: 0,
            last_fault: None,
        }
    }

    /// Read the single register `r`.
    pub fn reg(&self, r: Reg) -> (v: u8)
        ensures
            v == self@.regs.spec_get(r),
    {
        self.regs.get(r)
    }

    /// Write `v` to the single register `r`; nothing else changes.
    pub fn set_reg(&mut self, r: Reg, v: u8)
        ensures
            final(self)@ == (CpuView { regs: old(self)@.regs.spec_set(r, v), ..old(self)@ }),
    {
        self.regs.set(r, v);
    }

    /// Read the register pair `p` as its composed 16-bit value.
    pub fn pair(&self, p: RegPair) -> (v: u16)
        ensures
            v == self@.regs.spec_get_pair(p),
    {
        self.regs.get_pair(p)
    }

    /// Write `v` to the register pair `p`; nothing else changes.
    pub fn set_pair(&mut self, p: RegPair, v: u16)
        ensures
            final(self)@ == (CpuView { regs: old(self)@.regs.spec_set_pair(p, v), ..old(self)@ }),
    {
        self.regs.set_pair(p, v);
    }

    /// The program counter.
    pub fn pc(&self) -> (v: u16)
        ensures
            v == self@.regs.pc,
    {
        self.regs.pc
    }

    /// Set the program counter; nothing else changes.
    pub fn set_pc(&mut self, v: u16)
        ensures
            final(self)@ == (CpuView {
                regs: RegisterFile { pc: v, ..old(self)@.regs },
                ..old(self)@
            }),
    {
        self.regs.pc = v;
    }

    /// The stack pointer.
    pub fn sp(&self) -> (v: u16)
        ensures
            v == self@.regs.sp,
    {
        self.regs.sp
    }

    /// Set the stack pointer; nothing else changes.
    pub fn set_sp(&mut self, v: u16)
        ensures
            final(self)@ == (CpuView {
                regs: RegisterFile { sp: v, ..old(self)@.regs },
                ..old(self)@
            }),
    {
        self.regs.sp = v;
    }

    /// The current flags snapshot.
    pub fn flags(&self) -> (f: Flags)
        ensures
            f == self@.flags,
    {
        self.flags
    }

    /// Replace the flags snapshot; nothing else changes.
    pub fn set_flags(&mut self, f: Flags)
        ensures
            final(self)@ == (CpuView { flags: f, ..old(self)@ }),
    {
        self.flags = f;
    }

    /// The execution status.
    pub fn status(&self) -> (st: Status)
        ensures
            st == self@.status,
    {
        self.status
    }

    /// The last fault recorded, if the processor has faulted.
    pub fn last_fault(&self) -> (f: Option<Fault>)
        ensures
            f == self@.last_fault,
    {
        self.last_fault
    }

    /// Whether the interrupt-enable flag is set.
    pub fn interrupts_enabled(&self) -> (b: bool)
        ensures
            b == self@.int_enable,
    {
        self.int_enable
    }

    /// Inject an interrupt vector from the host; it is consulted once per
    /// step, before the normal fetch, and taken only while interrupts are
    /// enabled. A later injection overwrites an unconsumed one.
    pub fn inject(&mut self, vector: u16)
        ensures
            final(self)@ == (CpuView { pending: Some(vector), ..old(self)@ }),
    {
        self.pending = Some(vector);
    }

    /// The running total of cycles consumed, saturating at `u64::MAX`.
    pub fn total_cycles(&self) -> (n: u64)
        ensures
            n == self@.cycles,
    {
        self.cycles
    }

    /// The configured size of the address space in bytes.
    pub fn memory_size(&self) -> (n: usize)
        ensures
            n == self@.mem.len(),
    {
        self.mem.size()
    }

    /// The memory bus, for host-side inspection.
    pub fn memory(&self) -> (m: &Memory)
        ensures
            m@ == self@.mem,
    {
        &self.mem
    }

    /// Host-side peek: read the byte at `addr`, faulting out of range.
    pub fn read_mem(&self, addr: usize) -> (r: Result<u8, Fault>)
        ensures
            addr < self@.mem.len() ==> r == Ok::<u8, Fault>(self@.mem[addr as int]),
            addr >= self@.mem.len() ==> r == Err::<u8, Fault>(Fault::AddressOutOfRange { addr }),
    {
        self.mem.read8(addr)
    }

    /// Host-side poke: write the byte at `addr`, faulting out of range and
    /// otherwise changing nothing but that byte.
    pub fn write_mem(&mut self, addr: usize, val: u8) -> (r: Result<(), Fault>)
        ensures
            addr < old(self)@.mem.len() ==> r == Ok::<(), Fault>(()) && final(self)@ == (CpuView {
                mem: old(self)@.mem.update(addr as int, val),
                ..old(self)@
            }),
            addr >= old(self)@.mem.len() ==> r == Err::<(), Fault>(
                Fault::AddressOutOfRange { addr },
            ) && final(self)@ == old(self)@,
    {
        self.mem.write8(addr, val)
    }

    /// Install a program image: copy `data` into memory starting at `base`.
    /// Fails, changing nothing, when the range exceeds the address space.
    pub fn load(&mut self, data: &Vec<u8>, base: usize) -> (r: Result<(), Fault>)
        ensures
            base + data@.len() <= old(self)@.mem.len() ==> r == Ok::<(), Fault>(()) && final(self)@
                == (CpuView { mem: spec_loaded(old(self)@.mem, data@, base as int), ..old(self)@ }),
            base + data@.len() > old(self)@.mem.len() ==> r == Err::<(), Fault>(
                Fault::AddressOutOfRange { addr: base },
            ) && final(self)@ == old(self)@,
    {
        self.mem.load(data, base)
    }

    /// A full copy of the processor aggregate, for save and rewind.
    pub fn snapshot(&self) -> (s: Cpu)
        ensures
            s@ == self@,
    {
        Cpu {
            regs: self.regs,
            mem: self.mem.duplicate(),
            flags: self.flags,
            int_enable: self.int_enable,
            pending: self.pending,
            status: self.status,
            cycles: self.cycles,
            last_fault: self.last_fault,
        }
    }

    /// Replace the whole aggregate with the snapshot `s`, reconstructing the
    /// processor exactly as it was captured; this is the only way out of a
    /// terminal status.
    pub fn restore(&mut self, s: &Cpu)
        ensures
            final(self)@ == s@,
    {
        self.regs = s.regs;
        self.mem = s.mem.duplicate();
        self.flags = s.flags;
        self.int_enable = s.int_enable;
        self.pending = s.pending;
        self.status = s.status;
        self.cycles = s.cycles;
        self.last_fault = s.last_fault;
    }
}

/// Effect of LXI B,D16 on the processor: C takes the byte at `pc + 1` and B
/// the byte at `pc + 2`; an operand outside the address space faults
/// instead, changing nothing.
pub open spec fn spec_lxi_b(v: CpuView) -> Result<CpuView, Fault> {
    let lo_addr = v.regs.pc + 1;
    let hi_addr = v.regs.pc + 2;
    if lo_addr >= v.mem.len() {
        Err(Fault::AddressOutOfRange { addr: lo_addr as usize })
    } else if hi_addr >= v.mem.len() {
        Err(Fault::AddressOutOfRange { addr: hi_addr as usize })
    } else {
        Ok(
            CpuView {
                regs: RegisterFile { c: v.mem[lo_addr], b: v.mem[hi_addr], ..v.regs },
                ..v
            },
        )
    }
}

/// Effect of STAX B: the byte at address BC takes the value of A; an
/// address outside the address space faults instead, changing nothing.
pub open spec fn spec_stax_b(v: CpuView) -> Result<CpuView, Fault> {
    let addr = spec_pair(v.regs.b, v.regs.c);
    if addr < v.mem.len() {
        Ok(CpuView { mem: v.mem.update(addr, v.regs.a), ..v })
    } else {
        Err(Fault::AddressOutOfRange { addr: addr as usize })
    }
}

/// Effect of INX B: BC is incremented, wrapping at 16 bits; no flags are
/// affected.
pub open spec fn spec_inx_b(v: CpuView) -> CpuView {
    let bc = spec_pair(v.regs.b, v.regs.c);
    let nv = if bc == 0xFFFF {
        0int
    } else {
        bc + 1
    };
    CpuView { regs: RegisterFile { b: (nv / 256) as u8, c: (nv % 256) as u8, ..v.regs }, ..v }
}

/// Effect of INR B: B is incremented, wrapping at 8 bits; Z, S, P and AC
/// are recomputed from the result, CY passes through unchanged.
pub open spec fn spec_inr_b(v: CpuView) -> CpuView {
    let r = if v.regs.b == 0xFF {
        0u8
    } else {
        (v.regs.b + 1) as u8
    };
    CpuView {
        regs: RegisterFile { b: r, ..v.regs },
        flags: Flags {
            z: spec_zero(r),
            s: spec_sign(r),
            p: spec_parity(r),
            ac: v.regs.b & 0x0F == 0x0F,
            cy: v.flags.cy,
            pad: v.flags.pad,
        },
        ..v
    }
}

/// Effect of DCR B: B is decremented, wrapping at 8 bits; Z, S, P and AC
/// are recomputed from the result, CY passes through unchanged.
pub open spec fn spec_dcr_b(v: CpuView) -> CpuView {
    let r = if v.regs.b == 0 {
        0xFFu8
    } else {
        (v.regs.b - 1) as u8
    };
    CpuView {
        regs: RegisterFile { b: r, ..v.regs },
        flags: Flags {
            z: spec_zero(r),
            s: spec_sign(r),
            p: spec_parity(r),
            ac: v.regs.b & 0x0F != 0x00,
            cy: v.flags.cy,
            pad: v.flags.pad,
        },
        ..v
    }
}

/// Effect of MVI B,D8: B takes the byte at `pc + 1`; an operand outside the
/// address space faults instead, changing nothing.
pub open spec fn spec_mvi_b(v: CpuView) -> Result<CpuView, Fault> {
    let addr = v.regs.pc + 1;
    if addr < v.mem.len() {
        Ok(CpuView { regs: RegisterFile { b: v.mem[addr], ..v.regs }, ..v })
    } else {
        Err(Fault::AddressOutOfRange { addr: addr as usize })
    }
}

/// Effect of RLC: A is rotated left by one bit, the previous bit 7 landing
/// in bit 0; CY takes the previous bit 7, no other flag is affected.
pub open spec fn spec_rlc(v: CpuView) -> CpuView {
    CpuView {
        regs: RegisterFile { a: (v.regs.a << 1) | (v.regs.a >> 7), ..v.regs },
        flags: Flags { cy: v.regs.a & 0x80 == 0x80, ..v.flags },
        ..v
    }
}

/// Effect of DAD B: HL takes HL + BC truncated to 16 bits; CY records the
/// 16-bit overflow, no other flag is affected.
pub open spec fn spec_dad_b(v: CpuView) -> CpuView {
    let sum = spec_pair(v.regs.h, v.regs.l) + spec_pair(v.regs.b, v.regs.c);
    let nv = sum % 0x10000;
    CpuView {
        regs: RegisterFile { h: (nv / 256) as u8, l: (nv % 256) as u8, ..v.regs },
        flags: Flags { cy: sum >= 0x10000, ..v.flags },
        ..v
    }
}

/// Effect of HLT: execution status becomes `Halted`; nothing else changes.
pub open spec fn spec_hlt(v: CpuView) -> CpuView {
    CpuView { status: Status::Halted, ..v }
}

/// Effect of one instruction handler on the processor, before the central
/// program-counter advance and cycle accounting: `op` is the fetched opcode
/// and `k` its table tag. An `Unimplemented` tag is never executed; it
/// reports the opcode and the faulting address, and an `Err` always leaves
/// the state exactly as it was.
pub open spec fn spec_exec_instr(v: CpuView, op: u8, k: OpKind) -> Result<CpuView, Fault> {
    match k {
        OpKind::Nop => Ok(v),
        OpKind::LxiB => spec_lxi_b(v),
        OpKind::StaxB => spec_stax_b(v),
        OpKind::InxB => Ok(spec_inx_b(v)),
        OpKind::InrB => Ok(spec_inr_b(v)),
        OpKind::DcrB => Ok(spec_dcr_b(v)),
        OpKind::MviB => spec_mvi_b(v),
        OpKind::Rlc => Ok(spec_rlc(v)),
        OpKind::DadB => Ok(spec_dad_b(v)),
        OpKind::Hlt => Ok(spec_hlt(v)),
        OpKind::Di => Ok(CpuView { int_enable: false, ..v }),
        OpKind::Ei => Ok(CpuView { int_enable: true, ..v }),
        OpKind::Unimplemented => Err(
            Fault::UnimplementedOpcode { opcode: op, addr: v.regs.pc as usize },
        ),
    }
}

impl Cpu {
    /// 0x00 NOP: no operation.
    fn nop(&mut self)
        ensures
            final(self)@ == old(self)@,
    {
    }

    /// 0x01 LXI B,D16: C <- byte 2, B <- byte 3.
    fn lxi_b_d16(&mut self) -> (r: Result<(), Fault>)
        ensures
            (match spec_lxi_b(old(self)@) {
                Ok(v2) => r == Ok::<(), Fault>(()) && final(self)@ == v2,
                Err(f) => r == Err::<(), Fault>(f) && final(self)@ == old(self)@,
            }),
    {
        let lo = match self.mem.read8(self.regs.pc as usize + 1) {
            Ok(b) => b,
            Err(f) => { return Err(f); },
        };
        let hi = match self.mem.read8(self.regs.pc as usize + 2) {
            Ok(b) => b,
            Err(f) => { return Err(f); },
        };
        self.regs.c = lo;
        self.regs.b = hi;
        Ok(())
    }

    /// 0x02 STAX B: memory[BC] <- A.
    fn stax_b(&mut self) -> (r: Result<(), Fault>)
        ensures
            (match spec_stax_b(old(self)@) {
                Ok(v2) => r == Ok::<(), Fault>(()) && final(self)@ == v2,
                Err(f) => r == Err::<(), Fault>(f) && final(self)@ == old(self)@,
            }),
    {
        let addr: usize = (self.regs.b as usize) * 256 + (self.regs.c as usize);
        match self.mem.write8(addr, self.regs.a) {
            Ok(()) => Ok(()),
            Err(f) => Err(f),
        }
    }

    /// 0x03 INX B: BC <- BC + 1.
    fn inx_b(&mut self)
        ensures
            final(self)@ == spec_inx_b(old(self)@),
    {
        let bc: u32 = (self.regs.b as u32) * 256 + (self.regs.c as u32);
        let nv: u32 = if bc == 0xFFFF {
            0
        } else {
            bc + 1
        };
        self.regs.b = (nv / 256) as u8;
        self.regs.c = (nv % 256) as u8;
    }

    /// 0x04 INR B: B <- B + 1; recomputes Z, S, P, AC.
    fn inr_b(&mut self)
        ensures
            final(self)@ == spec_inr_b(old(self)@),
    {
        let old_b = self.regs.b;
        let r: u8 = if old_b == 0xFF {
            0
        } else {
            old_b + 1
        };
        self.regs.b = r;
        self.flags.z = r == 0;
        self.flags.s = r & 0x80 == 0x80;
        self.flags.p = parity(r);
        self.flags.ac = old_b & 0x0F == 0x0F;
    }

    /// 0x05 DCR B: B <- B - 1; recomputes Z, S, P, AC.
    fn dcr_b(&mut self)
        ensures
            final(self)@ == spec_dcr_b(old(self)@),
    {
        let old_b = self.regs.b;
        let r: u8 = if old_b == 0 {
            0xFF
        } else {
            old_b - 1
        };
        self.regs.b = r;
        self.flags.z = r == 0;
        self.flags.s = r & 0x80 == 0x80;
        self.flags.p = parity(r);
        self.flags.ac = old_b & 0x0F != 0x00;
    }

    /// 0x06 MVI B,D8: B <- byte 2.
    fn mvi_b_d8(&mut self) -> (r: Result<(), Fault>)
        ensures
            (match spec_mvi_b(old(self)@) {
                Ok(v2) => r == Ok::<(), Fault>(()) && final(self)@ == v2,
                Err(f) => r == Err::<(), Fault>(f) && final(self)@ == old(self)@,
            }),
    {
        let b = match self.mem.read8(self.regs.pc as usize + 1) {
            Ok(b) => b,
            Err(f) => { return Err(f); },
        };
        self.regs.b = b;
        Ok(())
    }

    /// 0x07 RLC: A rotated left; CY <- previous bit 7.
    fn rlc_1(&mut self)
        ensures
            final(self)@ == spec_rlc(old(self)@),
    {
        let a = self.regs.a;
        self.flags.cy = a & 0x80 == 0x80;
        self.regs.a = (a << 1u8) | (a >> 7u8);
    }

    /// 0x09 DAD B: HL <- HL + BC; recomputes CY.
    fn dad_b(&mut self)
        ensures
            final(self)@ == spec_dad_b(old(self)@),
    {
        let hl: u32 = (self.regs.h as u32) * 256 + (self.regs.l as u32);
        let bc: u32 = (self.regs.b as u32) * 256 + (self.regs.c as u32);
        let sum: u32 = hl + bc;
        self.flags.cy = sum >= 0x10000;
        let nv: u32 = sum % 0x10000;
        self.regs.h = (nv / 256) as u8;
        self.regs.l = (nv % 256) as u8;
    }

    /// 0x76 HLT: move to the `Halted` state.
    fn hlt(&mut self)
        ensures
            final(self)@ == spec_hlt(old(self)@),
    {
        self.status = Status::Halted;
    }

    /// Dispatch the handler bound to `kind` for the fetched opcode `op`.
    /// A faulting handler leaves the state untouched; the caller records
    /// the fault and the `Faulted` status.
    fn execute(&mut self, op: u8, kind: OpKind) -> (r: Result<(), Fault>)
        requires
            kind == spec_decode(op).kind,
        ensures
            (match spec_exec_instr(old(self)@, op, kind) {
                Ok(v2) => r == Ok::<(), Fault>(()) && final(self)@ == v2,
                Err(f) => r == Err::<(), Fault>(f) && final(self)@ == old(self)@,
            }),
    {
        match kind {
            OpKind::Nop => {
                self.nop();
                Ok(())
            },
            OpKind::LxiB => self.lxi_b_d16(),
            OpKind::StaxB => self.stax_b(),
            OpKind::InxB => {
                self.inx_b();
                Ok(())
            },
            OpKind::InrB => {
                self.inr_b();
                Ok(())
            },
            OpKind::DcrB => {
                self.dcr_b();
                Ok(())
            },
            OpKind::MviB => self.mvi_b_d8(),
            OpKind::Rlc => {
                self.rlc_1();
                Ok(())
            },
            OpKind::DadB => {
                self.dad_b();
                Ok(())
            },
            OpKind::Hlt => {
                self.hlt();
                Ok(())
            },
            OpKind::Di => {
                self.int_enable = false;
                Ok(())
            },
            OpKind::Ei => {
                self.int_enable = true;
                Ok(())
            },
            OpKind::Unimplemented => Err(
                Fault::UnimplementedOpcode { opcode: op, addr: self.regs.pc as usize },
            ),
        }
    }
}

/// `a + b` saturating at `u64::MAX`, the arithmetic of the running cycle
/// total.
pub open spec fn spec_sat_add(a: u64, b: u64) -> u64 {
    if a + b > u64::MAX {
        u64::MAX
    } else {
        (a + b) as u64
    }
}

/// One step of the fetch-decode-execute loop, as a transition on the model:
/// the state after the step, paired with what the step returns.
///
/// A processor that is not `Running` refuses the step without side effects.
/// While interrupts are enabled, a pending injected vector redirects
/// execution: it is loaded into the program counter instead of the fetch,
/// consuming it and disabling interrupts, as the architecture's
/// interrupt-acknowledge does. Otherwise the opcode at the program counter
/// is fetched and looked up; an out-of-range fetch or an unimplemented
/// opcode faults without executing, and a successful handler is followed by
/// the central program-counter advance (by the table-declared byte length,
/// wrapping at 16 bits) and cycle accounting.
#[verifier::opaque]
pub open spec fn spec_step(v: CpuView) -> (CpuView, Result<u8, Fault>) {
    if v.status != Status::Running {
        (v, Err(Fault::NotRunning))
    } else if v.int_enable && v.pending is Some {
        match v.pending {
            Some(vector) => (
                CpuView {
                    regs: RegisterFile { pc: vector, ..v.regs },
                    int_enable: false,
                    pending: None,
                    cycles: spec_sat_add(v.cycles, INT_ACK_CYCLES as u64),
                    ..v
                },
                Ok(INT_ACK_CYCLES),
            ),
            None => (v, Err(Fault::NotRunning)),
        }
    } else if v.regs.pc >= v.mem.len() {
        let f = Fault::AddressOutOfRange { addr: v.regs.pc as usize };
        (CpuView { status: Status::Faulted, last_fault: Some(f), ..v }, Err(f))
    } else {
        let op = v.mem[v.regs.pc as int];
        let ins = spec_decode(op);
        match spec_exec_instr(v, op, ins.kind) {
            Ok(v2) => (
                CpuView {
                    regs: RegisterFile {
                        pc: ((v2.regs.pc + ins.length) % 0x10000) as u16,
                        ..v2.regs
                    },
                    cycles: spec_sat_add(v2.cycles, ins.cycles as u64),
                    ..v2
                },
                Ok(ins.cycles),
            ),
            Err(f) => (CpuView { status: Status::Faulted, last_fault: Some(f), ..v }, Err(f)),
        }
    }
}

/// The state after up to `fuel` steps of the loop, stopping early at a
/// terminal status.
pub open spec fn spec_run(v: CpuView, fuel: nat) -> CpuView
    decreases fuel,
{
    if fuel == 0 || v.status != Status::Running {
        v
    } else {
        spec_run(spec_step(v).0, (fuel - 1) as nat)
    }
}

/// Peeling one step off the back of `spec_run`: running `i + 1` steps is
/// running `i` steps and then stepping once more, unless the run already
/// reached a terminal status.
#[verifier::rlimit(100)]
pub proof fn lemma_run_unfold_back(v: CpuView, i: nat)
    ensures
        spec_run(v, i + 1) == (if spec_run(v, i).status == Status::Running {
            spec_step(spec_run(v, i)).0
        } else {
            spec_run(v, i)
        }),
    decreases i,
{
    if v.status != Status::Running {
        assert(spec_run(v, i + 1) == v);
        assert(spec_run(v, i) == v);
    } else if i == 0 {
        assert(spec_run(v, i + 1) == spec_run(spec_step(v).0, 0));
        assert(spec_run(spec_step(v).0, 0) == spec_step(v).0);
        assert(spec_run(v, 0) == v);
    } else {
        lemma_run_unfold_back(spec_step(v).0, (i - 1) as nat);
        assert(spec_run(v, i + 1) == spec_run(spec_step(v).0, i as nat));
        assert(spec_run(v, i) == spec_run(spec_step(v).0, (i - 1) as nat));
    }
}

/// Once a run reaches a terminal status, more fuel changes nothing.
pub proof fn lemma_run_stable(v: CpuView, i: nat, n: nat)
    requires
        i <= n,
        spec_run(v, i).status != Status::Running,
    ensures
        spec_run(v, n) == spec_run(v, i),
    decreases i,
{
    if i == 0 {
    } else if v.status != Status::Running {
        lemma_run_stable(v, 0, n);
    } else {
        lemma_run_stable(spec_step(v).0, (i - 1) as nat, (n - 1) as nat);
    }
}

impl Cpu {
    /// Execute one instruction to completion: consult the interrupt hook,
    /// fetch the opcode at the program counter, look it up, run its
    /// handler, advance the program counter by the table-declared length
    /// and add the table-declared cycle cost. Returns the cycles consumed,
    /// or the fault that moved the processor to `Faulted`; a processor not
    /// in `Running` refuses the call with `NotRunning` and no side effects.
    pub fn step(&mut self) -> (r: Result<u8, Fault>)
        requires
            old(self)@.wf(),
        ensures
            final(self)@.wf(),
            final(self)@ == spec_step(old(self)@).0,
            r == spec_step(old(self)@).1,
    {
        proof {
            reveal(spec_step);
        }
        if self.status != Status::Running {
            return Err(Fault::NotRunning);
        }
        if self.int_enable {
            if let Some(vector) = self.pending {
                self.regs.pc = vector;
                self.int_enable = false;
                self.pending = None;
                self.cycles = sat_add(self.cycles, INT_ACK_CYCLES as u64);
                return Ok(INT_ACK_CYCLES);
            }
        }
        let op = match self.mem.read8(self.regs.pc as usize) {
            Ok(b) => b,
            Err(f) => {
                self.status = Status::Faulted;
                self.last_fault = Some(f);
                return Err(f);
            },
        };
        let ins = decode(op);
        match self.execute(op, ins.kind) {
            Ok(()) => {
                let new_pc: u16 = (((self.regs.pc as u32) + (ins.length as u32)) % 0x10000) as u16;
                self.regs.pc = new_pc;
                self.cycles = sat_add(self.cycles, ins.cycles as u64);
                Ok(ins.cycles)
            },
            Err(f) => {
                self.status = Status::Faulted;
                self.last_fault = Some(f);
                Err(f)
            },
        }
    }

    /// Execute one instruction; the status and the recorded fault carry
    /// whatever the step reported.
    pub fn run(&mut self)
        requires
            old(self)@.wf(),
        ensures
            final(self)@.wf(),
            final(self)@ == spec_step(old(self)@).0,
    {
        let _ = self.step();
    }

    /// Drain execution: step repeatedly until the status leaves `Running`
    /// or `max_steps` steps have run. The step budget is the cooperative
    /// stop signal the host checks between steps; real-time pacing is the
    /// host's concern, using the cycle totals. Returns the terminal fault,
    /// or the status the run stopped in.
    pub fn run_until_halt(&mut self, max_steps: u64) -> (r: Result<Status, Fault>)
        requires
            old(self)@.wf(),
        ensures
            final(self)@.wf(),
            final(self)@ == spec_run(old(self)@, max_steps as nat),
            (match r {
                Err(f) => final(self)@.status == Status::Faulted && final(self)@.last_fault
                    == Some(f),
                Ok(st) => st == final(self)@.status && final(self)@.status != Status::Faulted,
            }),
    {
        let ghost v0 = self@;
        let mut i: u64 = 0;
        while i < max_steps && self.status == Status::Running
            invariant
                i <= max_steps,
                self@.wf(),
                self@ == spec_run(v0, i as nat),
            decreases max_steps - i,
        {
            let _ = self.step();
            proof {
                lemma_run_unfold_back(v0, i as nat);
            }
            i = i + 1;
        }
        proof {
            if self@.status != Status::Running {
                lemma_run_stable(v0, i as nat, max_steps as nat);
            }
        }
        if self.status == Status::Faulted {
            match self.last_fault {
                Some(f) => Err(f),
                // wf ties `Faulted` to a recorded fault, so this arm is
                // unreachable.
                None => Err(Fault::NotRunning),
            }
        } else {
            Ok(self.status)
        }
    }
}

/// `a + b` saturating at `u64::MAX`.
fn sat_add(a: u64, b: u64) -> (r: u64)
    ensures
        r == spec_sat_add(a, b),
{
    if a <= u64::MAX - b {
        a + b
    } else {
        u64::MAX
    }
}

/// Law: for every opcode bound in the table, a step that neither redirects
/// to an injected interrupt vector nor faults advances the program counter
/// by exactly the table-declared byte length (wrapping at 16 bits), and
/// returns the table-declared cycle cost. No instruction in the table is a
/// jump, so no other program-counter movement exists.
pub proof fn lemma_step_advances_pc_by_length(v: CpuView)
    requires
        v.status == Status::Running,
        !(v.int_enable && v.pending is Some),
        v.regs.pc < v.mem.len(),
        spec_decode(v.mem[v.regs.pc as int]).kind != OpKind::Unimplemented,
        spec_exec_instr(v, v.mem[v.regs.pc as int], spec_decode(v.mem[v.regs.pc as int]).kind)
            is Ok,
    ensures
        spec_step(v).0.regs.pc == (v.regs.pc + spec_decode(v.mem[v.regs.pc as int]).length)
            % 0x10000,
        spec_step(v).1 == Ok::<u8, Fault>(spec_decode(v.mem[v.regs.pc as int]).cycles),
{
    reveal(spec_step);
    let op = v.mem[v.regs.pc as int];
    let k = spec_decode(op).kind;
    // no handler touches the program counter; case on the tag so each
    // transition unfolds
    match k {
        OpKind::Nop => {},
        OpKind::LxiB => {},
        OpKind::StaxB => {},
        OpKind::InxB => {},
        OpKind::InrB => {},
        OpKind::DcrB => {},
        OpKind::MviB => {},
        OpKind::Rlc => {},
        OpKind::DadB => {},
        OpKind::Hlt => {},
        OpKind::Di => {},
        OpKind::Ei => {},
        OpKind::Unimplemented => {},
    }
}

/// Law: an unimplemented opcode deterministically faults, reporting the
/// opcode and the faulting address, and mutates nothing: registers, flags,
/// memory, the interrupt hook and the cycle total are exactly as before;
/// only the status moves to `Faulted` and the fault is recorded.
pub proof fn lemma_unimplemented_faults_without_mutation(v: CpuView)
    requires
        v.status == Status::Running,
        !(v.int_enable && v.pending is Some),
        v.regs.pc < v.mem.len(),
        spec_decode(v.mem[v.regs.pc as int]).kind == OpKind::Unimplemented,
    ensures
        spec_step(v).1 == Err::<u8, Fault>(
            Fault::UnimplementedOpcode { opcode: v.mem[v.regs.pc as int], addr: v.regs.pc as usize },
        ),
        spec_step(v).0.status == Status::Faulted,
        spec_step(v).0.regs == v.regs,
        spec_step(v).0.flags == v.flags,
        spec_step(v).0.mem == v.mem,
        spec_step(v).0.int_enable == v.int_enable,
        spec_step(v).0.pending == v.pending,
        spec_step(v).0.cycles == v.cycles,
{
    reveal(spec_step);
}

/// Law: INR B recomputes Zero, Sign, Parity and AuxCarry from the
/// incremented value by the reference computations, AuxCarry recording the
/// carry out of the low nibble; Carry is not declared affected and passes
/// through bit-identically. The result is the increment wrapped to 8 bits.
pub proof fn lemma_inr_b_flags(v: CpuView)
    ensures
        spec_inr_b(v).regs.b == (v.regs.b + 1) % 256,
        spec_inr_b(v).flags.z == spec_zero(spec_inr_b(v).regs.b),
        spec_inr_b(v).flags.s == spec_sign(spec_inr_b(v).regs.b),
        spec_inr_b(v).flags.p == spec_parity(spec_inr_b(v).regs.b),
        spec_inr_b(v).flags.ac == (v.regs.b & 0x0F == 0x0F),
        spec_inr_b(v).flags.cy == v.flags.cy,
        spec_inr_b(v).flags.pad == v.flags.pad,
{
}

/// Law: DCR B recomputes Zero, Sign, Parity and AuxCarry from the
/// decremented value by the reference computations, AuxCarry recording
/// whether the low nibble borrowed; Carry is not declared affected and
/// passes through bit-identically. The result is the decrement wrapped to 8
/// bits.
pub proof fn lemma_dcr_b_flags(v: CpuView)
    ensures
        spec_dcr_b(v).regs.b == (v.regs.b + 255) % 256,
        spec_dcr_b(v).flags.z == spec_zero(spec_dcr_b(v).regs.b),
        spec_dcr_b(v).flags.s == spec_sign(spec_dcr_b(v).regs.b),
        spec_dcr_b(v).flags.p == spec_parity(spec_dcr_b(v).regs.b),
        spec_dcr_b(v).flags.ac == (v.regs.b & 0x0F != 0x00),
        spec_dcr_b(v).flags.cy == v.flags.cy,
        spec_dcr_b(v).flags.pad == v.flags.pad,
{
}

/// Law: DAD B declares only Carry as affected: it records whether HL + BC
/// exceeds 16 bits, the pair takes the sum truncated to 16 bits, and Zero,
/// Sign, Parity and AuxCarry pass through bit-identically.
pub proof fn lemma_dad_b_flags(v: CpuView)
    ensures
        spec_pair(spec_dad_b(v).regs.h, spec_dad_b(v).regs.l) == (spec_pair(v.regs.h, v.regs.l)
            + spec_pair(v.regs.b, v.regs.c)) % 0x10000,
        spec_dad_b(v).flags.cy == (spec_pair(v.regs.h, v.regs.l) + spec_pair(v.regs.b, v.regs.c)
            >= 0x10000),
        spec_dad_b(v).flags.z == v.flags.z,
        spec_dad_b(v).flags.s == v.flags.s,
        spec_dad_b(v).flags.p == v.flags.p,
        spec_dad_b(v).flags.ac == v.flags.ac,
        spec_dad_b(v).flags.pad == v.flags.pad,
{
    let sum = spec_pair(v.regs.h, v.regs.l) + spec_pair(v.regs.b, v.regs.c);
    let nv = sum % 0x10000;
    assert(nv / 256 * 256 + nv % 256 == nv) by (nonlinear_arith);
}

/// Law: RLC declares only Carry as affected: it takes the previous bit 7,
/// the previous bit 7 lands in bit 0 of the rotated accumulator, and Zero,
/// Sign, Parity and AuxCarry pass through bit-identically.
pub proof fn lemma_rlc_flags(v: CpuView)
    ensures
        spec_rlc(v).flags.cy == (v.regs.a & 0x80 == 0x80),
        spec_rlc(v).regs.a & 1 == (if v.regs.a & 0x80 == 0x80 {
            1u8
        } else {
            0u8
        }),
        spec_rlc(v).flags.z == v.flags.z,
        spec_rlc(v).flags.s == v.flags.s,
        spec_rlc(v).flags.p == v.flags.p,
        spec_rlc(v).flags.ac == v.flags.ac,
        spec_rlc(v).flags.pad == v.flags.pad,
{
    let a = v.regs.a;
    assert(((a << 1) | (a >> 7)) & 1 == (if a & 0x80 == 0x80 {
        1u8
    } else {
        0u8
    })) by (bit_vector);
}

/// Law: an instruction that declares no flag as affected leaves the flags
/// snapshot bit-identical; this covers NOP, LXI B, STAX B, INX B, MVI B,
/// HLT, DI and EI.
pub proof fn lemma_undeclared_flags_pass_through(v: CpuView, op: u8, k: OpKind)
    requires
        k == OpKind::Nop || k == OpKind::LxiB || k == OpKind::StaxB || k == OpKind::InxB || k
            == OpKind::MviB || k == OpKind::Hlt || k == OpKind::Di || k == OpKind::Ei,
    ensures
        (match spec_exec_instr(v, op, k) {
            Ok(v2) => v2.flags == v.flags,
            Err(_) => true,
        }),
{
}

/// Law: restoring a snapshot is the identity on observable state. The view
/// a snapshot captures is the view of the source, and restoring reproduces
/// the captured view exactly, so the round trip changes nothing.
pub proof fn lemma_restore_snapshot_identity(source: CpuView, captured: CpuView, restored: CpuView)
    requires
        captured == source,
        restored == captured,
    ensures
        restored == source,
{
}

} // verus!
