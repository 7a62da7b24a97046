//! What the rest of the emulator needs to know of its two processors.
use vstd::prelude::*;

verus! {

/// Which of the two processors a bus, a BIOS or a register belongs to.
#[derive(PartialEq, Eq, Structural, Clone, Copy, Debug)]
pub enum ArmKind {
    ARM9,
    ARM7,
}

} // verus!
