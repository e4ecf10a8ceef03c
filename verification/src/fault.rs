use vstd::prelude::*;

verus! {

/// Why a run ended.
#[derive(Clone, Copy, Debug, PartialEq, Eq, Structural)]
pub enum FaultKind {
    /// The instruction word names no operation.
    DecodeFault,
    /// A call with a full call stack, or a return with an empty one.
    StackFault,
    /// An address, a key index or a program size outside its range.
    MemoryFault,
}

/// A fault together with the place where it happened.
#[derive(Clone, Copy, Debug, PartialEq, Eq, Structural)]
pub struct Fault {
    pub kind: FaultKind,
    /// The program counter of the offending instruction.
    pub pc: u16,
    /// The instruction word that was current when the fault was raised.
    pub opcode: u16,
}

/// What the machine reports after a step.
#[derive(Clone, Copy, Debug, PartialEq, Eq, Structural)]
pub enum Status {
    /// The instruction ran; the machine takes the next one.
    Running,
    /// The machine waits for a key to go down.
    Blocked,
    /// The run is over.
    Fault(Fault),
}

} // verus!
