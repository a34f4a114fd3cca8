use vstd::prelude::*;

verus! {

/// Tag of an instruction handler. Opcodes with no defined behavior carry the
/// distinguished `Unimplemented` tag rather than being absent, so dispatch
/// never falls through to undefined behavior.
#[derive(Clone, Copy, Debug, PartialEq, Eq, Structural)]
pub enum OpKind {
    /// 0x00 and 0x08: no operation.
    Nop,
    /// 0x01 LXI B,D16: C <- byte 2, B <- byte 3.
    LxiB,
    /// 0x02 STAX B: memory[BC] <- A.
    StaxB,
    /// 0x03 INX B: BC <- BC + 1.
    InxB,
    /// 0x04 INR B: B <- B + 1; affects Z, S, P, AC.
    InrB,
    /// 0x05 DCR B: B <- B - 1; affects Z, S, P, AC.
    DcrB,
    /// 0x06 MVI B,D8: B <- byte 2.
    MviB,
    /// 0x07 RLC: A rotated left by one; CY <- previous bit 7.
    Rlc,
    /// 0x09 DAD B: HL <- HL + BC; affects CY.
    DadB,
    /// 0x76 HLT: execution stops in the `Halted` state.
    Hlt,
    /// 0xF3 DI: clear the interrupt-enable flag.
    Di,
    /// 0xFB EI: set the interrupt-enable flag.
    Ei,
    /// Any opcode with no bound handler: stepping onto it faults.
    Unimplemented,
}

/// One immutable entry of the opcode table: the handler tag, the total
/// number of bytes the instruction consumes (operands included), and its
/// base cycle cost.
#[derive(Clone, Copy, Debug, PartialEq, Eq, Structural)]
pub struct Instruction {
    pub kind: OpKind,
    pub length: u16,
    pub cycles: u8,
}

/// The opcode table as a pure, total function: every opcode value, defined
/// or not, yields an entry. Byte lengths and cycle costs are properties of
/// the table, never of ad hoc per-handler arithmetic.
pub open spec fn spec_decode(op: u8) -> Instruction {
    if op == 0x00 {
        Instruction { kind: OpKind::Nop, length: 1, cycles: 1 }
    } else if op == 0x01 {
        Instruction { kind: OpKind::LxiB, length: 3, cycles: 3 }
    } else if op == 0x02 {
        Instruction { kind: OpKind::StaxB, length: 1, cycles: 2 }
    } else if op == 0x03 {
        Instruction { kind: OpKind::InxB, length: 1, cycles: 1 }
    } else if op == 0x04 {
        Instruction { kind: OpKind::InrB, length: 1, cycles: 1 }
    } else if op == 0x05 {
        Instruction { kind: OpKind::DcrB, length: 1, cycles: 1 }
    } else if op == 0x06 {
        Instruction { kind: OpKind::MviB, length: 2, cycles: 2 }
    } else if op == 0x07 {
        Instruction { kind: OpKind::Rlc, length: 1, cycles: 1 }
    } else if op == 0x08 {
        Instruction { kind: OpKind::Nop, length: 1, cycles: 1 }
    } else if op == 0x09 {
        Instruction { kind: OpKind::DadB, length: 1, cycles: 3 }
    } else if op == 0x76 {
        Instruction { kind: OpKind::Hlt, length: 1, cycles: 1 }
    } else if op == 0xF3 {
        Instruction { kind: OpKind::Di, length: 1, cycles: 1 }
    } else if op == 0xFB {
        Instruction { kind: OpKind::Ei, length: 1, cycles: 1 }
    } else {
        Instruction { kind: OpKind::Unimplemented, length: 1, cycles: 1 }
    }
}

/// Look an opcode up in the table.
pub fn decode(op: u8) -> (ins: Instruction)
    ensures
        ins == spec_decode(op),
{
    if op == 0x00 {
        Instruction { kind: OpKind::Nop, length: 1, cycles: 1 }
    } else if op == 0x01 {
        Instruction { kind: OpKind::LxiB, length: 3, cycles: 3 }
    } else if op == 0x02 {
        Instruction { kind: OpKind::StaxB, length: 1, cycles: 2 }
    } else if op == 0x03 {
        Instruction { kind: OpKind::InxB, length: 1, cycles: 1 }
    } else if op == 0x04 {
        Instruction { kind: OpKind::InrB, length: 1, cycles: 1 }
    } else if op == 0x05 {
        Instruction { kind: OpKind::DcrB, length: 1, cycles: 1 }
    } else if op == 0x06 {
        Instruction { kind: OpKind::MviB, length: 2, cycles: 2 }
    } else if op == 0x07 {
        Instruction { kind: OpKind::Rlc, length: 1, cycles: 1 }
    } else if op == 0x08 {
        Instruction { kind: OpKind::Nop, length: 1, cycles: 1 }
    } else if op == 0x09 {
        Instruction { kind: OpKind::DadB, length: 1, cycles: 3 }
    } else if op == 0x76 {
        Instruction { kind: OpKind::Hlt, length: 1, cycles: 1 }
    } else if op == 0xF3 {
        Instruction { kind: OpKind::Di, length: 1, cycles: 1 }
    } else if op == 0xFB {
        Instruction { kind: OpKind::Ei, length: 1, cycles: 1 }
    } else {
        Instruction { kind: OpKind::Unimplemented, length: 1, cycles: 1 }
    }
}

/// Human-readable instruction name, for diagnostics only.
pub fn mnemonic(kind: OpKind) -> &'static str {
    match kind {
        OpKind::Nop => "NOP",
        OpKind::LxiB => "LXI B,D16",
        OpKind::StaxB => "STAX B",
        OpKind::InxB => "INX B",
        OpKind::InrB => "INR B",
        OpKind::DcrB => "DCR B",
        OpKind::MviB => "MVI B,D8",
        OpKind::Rlc => "RLC",
        OpKind::DadB => "DAD B",
        OpKind::Hlt => "HLT",
        OpKind::Di => "DI",
        OpKind::Ei => "EI",
        OpKind::Unimplemented => "UNIMPLEMENTED",
    }
}

} // verus!
