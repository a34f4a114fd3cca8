use vstd::prelude::*;

verus! {

/// An error surfaced by the execution core. Faults are always returned as
/// explicit results, never as aborts, and the faulting opcode or address is
/// reported so the host can attribute the fault to the instruction that
/// caused it.
#[derive(Clone, Copy, Debug, PartialEq, Eq, Structural)]
pub enum Fault {
    /// The fetched opcode has no bound handler. The processor transitions to
    /// `Status::Faulted` and refuses further stepping until a restore.
    UnimplementedOpcode { opcode: u8, addr: usize },
    /// A memory access fell outside the configured address space. The
    /// processor transitions to `Status::Faulted` when this happens during an
    /// instruction.
    AddressOutOfRange { addr: usize },
    /// A step was requested while the processor was not in `Status::Running`.
    /// The request is refused without side effects.
    NotRunning,
}

/// Execution status of the processor. `Running` is the initial state; a halt
/// instruction moves it to `Halted`, and an unimplemented opcode or a memory
/// fault moves it to `Faulted`. Both `Halted` and `Faulted` are terminal:
/// only an explicit restore resumes execution from them.
#[derive(Clone, Copy, Debug, PartialEq, Eq, Structural)]
pub enum Status {
    Running,
    Halted,
    Faulted,
}

} // verus!
