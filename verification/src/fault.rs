//! The fatal faults an interpretation run can end with.

use vstd::prelude::*;

verus! {

/// A fatal condition raised by one of the interpreters. Every fault is
/// unrecoverable by design: the machine model is a deterministic interpreter
/// over a fixed program image, so a fault indicates either a non-conforming
/// image or a bug, and interpretation cannot continue meaningfully.
#[derive(Copy, Clone, Debug, PartialEq, Eq, Structural)]
pub enum Fault {
    /// The processor fetched an opcode that matches no documented
    /// instruction, or a documented instruction paired with an addressing
    /// mode the hardware never wired up.
    Decode { address: u16, opcode: u8 },
    /// The vector processor attempted a fifth nested subroutine call; its
    /// hardware call stack holds only four return addresses.
    VectorStackOverflow,
    /// The vector processor attempted a subroutine return with an empty
    /// call stack.
    VectorStackUnderflow,
    /// A display-list frame failed to halt within the step budget it was
    /// given; a conforming display list always ends in a halt instruction.
    /// This is the one fault the hardware itself has no name for: the real
    /// machine would simply hang, and this model reports instead of
    /// hanging.
    FrameOverrun,
    /// A program image of the wrong size was offered to the memory bus.
    AssetLoad { size: usize },
}

} // verus!
