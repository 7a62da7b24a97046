//! The state of an ARM disassembler window and its breakpoints.
use vstd::prelude::*;

use crate::nds::logger::{hex_text, push_hex};
use crate::ui::text::{decimal_i32, hex_u32, parse_decimal_i32, parse_hex_u32, strip_0x};

verus! {

#[derive(PartialEq, Eq, Structural, Clone, Copy, Debug)]
pub enum DisassemblerInstructionSet {
    Follow,
    Arm,
    Thumb,
}

/// The label of an instruction set choice.
pub open spec fn instruction_set_text(set: DisassemblerInstructionSet) -> Seq<char> {
    match set {
        DisassemblerInstructionSet::Follow => "Follow CPU"@,
        DisassemblerInstructionSet::Arm => "ARM"@,
        DisassemblerInstructionSet::Thumb => "THUMB"@,
    }
}

impl DisassemblerInstructionSet {
    /// The label of the choice, as the window shows it.
    pub fn to_string(&self) -> (r: String)
        ensures
            r@ == instruction_set_text(*self),
    {
        match self {
            DisassemblerInstructionSet::Follow => "Follow CPU".to_owned(),
            DisassemblerInstructionSet::Arm => "ARM".to_owned(),
            DisassemblerInstructionSet::Thumb => "THUMB".to_owned(),
        }
    }
}

pub struct ArmDisassemblerWindow {
    pub open: bool,
    pub instruction_set: DisassemblerInstructionSet,
    pub follow_pc: bool,
    pub jump_value: String,
    pub jump_now: Option<u32>,
    pub step_amount: String,
    pub step_until: Option<u32>,
    pub breakpoints: Vec<u32>,
    pub selected_breakpoint: Option<usize>,
}

impl Default for ArmDisassemblerWindow {
    fn default() -> (r: Self)
        ensures
            !r.open,
            r.instruction_set == DisassemblerInstructionSet::Follow,
            r.follow_pc,
            r.jump_value@ == Seq::<char>::empty(),
            r.jump_now is None,
            r.step_amount@ == "1"@,
            r.step_until is None,
            r.breakpoints@ == Seq::<u32>::empty(),
            r.selected_breakpoint is None,
    {
        ArmDisassemblerWindow {
            open: false,
            instruction_set: DisassemblerInstructionSet::Follow,
            follow_pc: true,
            jump_value: String::new(),
            jump_now: None,
            step_amount: "1".to_owned(),
            step_until: None,
            breakpoints: Vec::new(),
            selected_breakpoint: None,
        }
    }
}

impl ArmDisassemblerWindow {
    /// Decides, with the processor at `pc`, whether the emulator stops: with
    /// the window open, when stepping reaches its target (which is then
    /// cleared) or when `pc` is a breakpoint (which is then selected, the
    /// first if it is there twice).
    pub fn check_breakpoints(&mut self, pc: u32) -> (stop: bool)
        ensures
            *final(self) == (ArmDisassemblerWindow {
                step_until: final(self).step_until,
                selected_breakpoint: final(self).selected_breakpoint,
                ..*old(self)
            }),
            !old(self).open ==> !stop && *final(self) == *old(self),
            old(self).open && old(self).step_until == Some(pc) ==> {
                &&& stop
                &&& final(self).step_until is None
                &&& final(self).selected_breakpoint == old(self).selected_breakpoint
            },
            old(self).open && old(self).step_until != Some(pc) ==> {
                &&& stop == old(self).breakpoints@.contains(pc)
                &&& final(self).step_until == old(self).step_until
                &&& stop ==> (final(self).selected_breakpoint matches Some(k) && k < old(
                    self,
                ).breakpoints@.len() && old(self).breakpoints@[k as int] == pc && forall|j: int|
                    0 <= j < k ==> old(self).breakpoints@[j] != pc)
                &&& !stop ==> final(self).selected_breakpoint == old(self).selected_breakpoint
            },
    {
        if self.open {
            if let Some(target) = self.step_until {
                if target == pc {
                    self.step_until = None;
                    return true;
                }
            }
            let mut i: usize = 0;
            while i < self.breakpoints.len()
                invariant
                    i <= self.breakpoints@.len(),
                    self.open,
                    *self == *old(self),
                    old(self).step_until != Some(pc),
                    forall|j: int| 0 <= j < i ==> self.breakpoints@[j] != pc,
                decreases self.breakpoints@.len() - i,
            {
                if self.breakpoints[i] == pc {
                    assert(self.breakpoints@[i as int] == pc);
                    self.selected_breakpoint = Some(i);
                    return true;
                }
                i = i + 1;
            }
        }
        false
    }
}

/// The address that the jump field holds: read as hexadecimal after its
/// leading "0x" prefixes, with 0 where it is not a number that fits in 32
/// bits.
pub open spec fn jump_address(text: Seq<char>) -> u32 {
    match hex_u32(strip_0x(text)) {
        Some(v) => v,
        None => 0,
    }
}

/// The instruction that "Step over" stops at: the next one after `pc`, two
/// bytes on in THUMB state and four in ARM state.
pub open spec fn step_over_target(pc: u32, is_thumb: bool) -> u32 {
    (pc + if is_thumb {
        2int
    } else {
        4
    }) as u32
}

/// The instruction that "Step return" stops at: the link register, without
/// its THUMB bit in THUMB state.
pub open spec fn step_return_target(lr: u32, is_thumb: bool) -> u32 {
    if is_thumb {
        lr & 0xFFFF_FFFEu32
    } else {
        lr
    }
}

/// The memory that the disassembly lists around `pc`, as its start and size:
/// the loaded program, the BIOS at 0xFFFF0000, for the ARM7 (`!arm9`) its
/// shared or its own work RAM (8 MiB each), and nothing elsewhere.
pub open spec fn disassembly_region(
    pc: usize,
    load_address: usize,
    load_size: usize,
    bios_size: usize,
    arm9: bool,
) -> (usize, usize) {
    if load_address <= pc < load_address + load_size {
        (load_address, load_size)
    } else if 0xFFFF0000 <= pc < 0xFFFF0000 + bios_size {
        (0xFFFF0000, bios_size)
    } else if !arm9 {
        if 0x03000000 <= pc <= 0x037FFFFF {
            (0x03000000, 0x800000)
        } else if 0x03800000 <= pc <= 0x03FFFFFF {
            (0x03800000, 0x800000)
        } else {
            (0, 0)
        }
    } else {
        (0, 0)
    }
}

/// The region that the disassembly lists around `pc` (see
/// `disassembly_region`).
pub fn disassembly_memory(
    pc: usize,
    load_address: usize,
    load_size: usize,
    bios_size: usize,
    arm9: bool,
) -> (r: (usize, usize))
    requires
        load_address + load_size <= usize::MAX,
        0xFFFF0000 + bios_size <= usize::MAX,
    ensures
        r == disassembly_region(pc, load_address, load_size, bios_size, arm9),
{
    if pc >= load_address && pc < load_address + load_size {
        (load_address, load_size)
    } else if pc >= 0xFFFF0000 && pc < 0xFFFF0000 + bios_size {
        (0xFFFF0000, bios_size)
    } else if !arm9 {
        if pc >= 0x03000000 && pc <= 0x037FFFFF {
            (0x03000000, 0x800000)
        } else if pc >= 0x03800000 && pc <= 0x03FFFFFF {
            (0x03800000, 0x800000)
        } else {
            (0, 0)
        }
    } else {
        (0, 0)
    }
}

/// The row of the disassembly (one instruction of `width` bytes per row,
/// from `mem_start`) that a jump to `address` scrolls to: none when the
/// address lies outside the listed memory.
pub fn jump_row(address: usize, mem_start: usize, mem_size: usize, width: usize) -> (r: Option<usize>)
    requires
        width > 0,
        mem_start + mem_size <= usize::MAX,
    ensures
        mem_start <= address < mem_start + mem_size ==> r == Some(((address - mem_start) / width as int) as usize),
        !(mem_start <= address < mem_start + mem_size) ==> r is None,
{
    if address >= mem_start && address < mem_start + mem_size {
        Some((address - mem_start) / width)
    } else {
        None
    }
}

impl ArmDisassemblerWindow {
    /// "Add breakpoint": the address in the jump field (see `jump_address`)
    /// is added as the last breakpoint, and selected.
    pub fn add_breakpoint(&mut self)
        ensures
            *final(self) == (ArmDisassemblerWindow {
                breakpoints: final(self).breakpoints,
                selected_breakpoint: final(self).selected_breakpoint,
                ..*old(self)
            }),
            final(self).breakpoints@ == old(self).breakpoints@.push(jump_address(old(self).jump_value@)),
            final(self).selected_breakpoint == Some(old(self).breakpoints@.len() as usize),
    {
        let address = match parse_hex_u32(&self.jump_value) {
            Some(v) => v,
            None => 0,
        };
        self.breakpoints.push(address);
        self.selected_breakpoint = Some(self.breakpoints.len() - 1);
    }

    /// "Jump": the listing scrolls to the address in the jump field (see
    /// `jump_address`).
    pub fn jump(&mut self)
        ensures
            *final(self) == (ArmDisassemblerWindow { jump_now: final(self).jump_now, ..*old(self) }),
            final(self).jump_now == Some(jump_address(old(self).jump_value@)),
    {
        let address = match parse_hex_u32(&self.jump_value) {
            Some(v) => v,
            None => 0,
        };
        self.jump_now = Some(address);
    }

    /// "Step": how many instructions to step, from the step field read as a
    /// decimal `i32`, 0 when it is not one.
    pub fn step_count(&self) -> (r: i32)
        ensures
            r == match decimal_i32(self.step_amount@) {
                Some(n) => n,
                None => 0,
            },
    {
        match parse_decimal_i32(&self.step_amount) {
            Some(n) => n,
            None => 0,
        }
    }

    /// "Delete BP": the selected breakpoint, if any, is removed, and the one
    /// before it (the first, if it was the first) is selected; none is once
    /// no breakpoint is left.
    pub fn delete_breakpoint(&mut self)
        requires
            old(self).selected_breakpoint matches Some(k) ==> k < old(self).breakpoints@.len(),
        ensures
            old(self).selected_breakpoint is None ==> *final(self) == *old(self),
            old(self).selected_breakpoint matches Some(k) ==> {
                &&& *final(self) == (ArmDisassemblerWindow {
                    breakpoints: final(self).breakpoints,
                    selected_breakpoint: final(self).selected_breakpoint,
                    ..*old(self)
                })
                &&& final(self).breakpoints@ == old(self).breakpoints@.remove(k as int)
                &&& final(self).selected_breakpoint == if final(self).breakpoints@.len() == 0 {
                    None
                } else if k == 0 {
                    Some(0usize)
                } else {
                    Some((k - 1) as usize)
                }
            },
    {
        if let Some(value) = self.selected_breakpoint {
            self.breakpoints.remove(value);
            if self.breakpoints.len() == 0 {
                self.selected_breakpoint = None;
            } else {
                let keep: usize = if value > 1 {
                    value
                } else {
                    1
                };
                self.selected_breakpoint = Some(keep - 1);
            }
        }
    }

    /// A ctrl-click on the address of a row: a breakpoint there is removed
    /// (every copy of it) and none is selected; otherwise one is added there
    /// and selected.
    pub fn toggle_breakpoint(&mut self, address: u32)
        ensures
            *final(self) == (ArmDisassemblerWindow {
                breakpoints: final(self).breakpoints,
                selected_breakpoint: final(self).selected_breakpoint,
                ..*old(self)
            }),
            old(self).breakpoints@.contains(address) ==> {
                &&& final(self).breakpoints@ == old(self).breakpoints@.filter(
                    |x: u32| x != address,
                )
                &&& final(self).selected_breakpoint is None
            },
            !old(self).breakpoints@.contains(address) ==> {
                &&& final(self).breakpoints@ == old(self).breakpoints@.push(address)
                &&& final(self).selected_breakpoint == Some(old(self).breakpoints@.len() as usize)
            },
    {
        let mut found = false;
        let mut i: usize = 0;
        while i < self.breakpoints.len()
            invariant
                i <= self.breakpoints@.len(),
                found <==> exists|j: int| 0 <= j < i && self.breakpoints@[j] == address,
            decreases self.breakpoints@.len() - i,
        {
            if self.breakpoints[i] == address {
                found = true;
            }
            i = i + 1;
        }
        if found {
            let ghost pred = |x: u32| x != address;
            let mut kept: Vec<u32> = Vec::new();
            let mut i: usize = 0;
            while i < self.breakpoints.len()
                invariant
                    i <= self.breakpoints@.len(),
                    pred == (|x: u32| x != address),
                    kept@ == self.breakpoints@.take(i as int).filter(pred),
                decreases self.breakpoints@.len() - i,
            {
                let b = self.breakpoints[i];
                proof {
                    let s = self.breakpoints@;
                    assert(s.take(i + 1) == s.take(i as int).push(b));
                    reveal_with_fuel(Seq::filter, 1);
                    assert(s.take(i + 1).drop_last() == s.take(i as int));
                }
                if b != address {
                    kept.push(b);
                }
                i = i + 1;
            }
            proof {
                assert(self.breakpoints@.take(self.breakpoints@.len() as int) == self.breakpoints@);
            }
            self.breakpoints = kept;
            self.selected_breakpoint = None;
        } else {
            proof {
                assert(!old(self).breakpoints@.contains(address));
            }
            self.breakpoints.push(address);
            self.selected_breakpoint = Some(self.breakpoints.len() - 1);
        }
    }

    /// "Jump to BP": the listing scrolls to the selected breakpoint, if any.
    pub fn jump_to_breakpoint(&mut self)
        requires
            old(self).selected_breakpoint matches Some(k) ==> k < old(self).breakpoints@.len(),
        ensures
            *final(self) == (ArmDisassemblerWindow { jump_now: final(self).jump_now, ..*old(self) }),
            old(self).selected_breakpoint is None ==> final(self).jump_now == old(self).jump_now,
            old(self).selected_breakpoint matches Some(k) ==> final(self).jump_now == Some(
                old(self).breakpoints@[k as int],
            ),
    {
        if let Some(value) = self.selected_breakpoint {
            let breakpoint = self.breakpoints[value];
            self.jump_now = Some(breakpoint);
        }
    }

    /// "Jump to PC": the jump field shows `pc` in eight hexadecimal digits and
    /// the listing scrolls to it.
    pub fn jump_to_pc(&mut self, pc: u32)
        ensures
            *final(self) == (ArmDisassemblerWindow {
                jump_value: final(self).jump_value,
                jump_now: final(self).jump_now,
                ..*old(self)
            }),
            final(self).jump_value@ == hex_text(pc as int, 8),
            final(self).jump_now == Some(pc),
    {
        let mut text = String::new();
        push_hex(&mut text, pc, 8);
        proof {
            assert(text@ =~= hex_text(pc as int, 8));
        }
        self.jump_value = text;
        self.jump_now = Some(pc);
    }

    /// "Step over": the emulator is to run until the instruction after `pc`.
    pub fn step_over(&mut self, pc: u32, is_thumb: bool)
        requires
            pc + 4 <= u32::MAX,
        ensures
            *final(self) == (ArmDisassemblerWindow { step_until: final(self).step_until, ..*old(self) }),
            final(self).step_until == Some(step_over_target(pc, is_thumb)),
    {
        let next: u32 = if is_thumb {
            pc + 2
        } else {
            pc + 4
        };
        self.step_until = Some(next);
    }

    /// "Step return": the emulator is to run until the link register `lr`.
    pub fn step_return(&mut self, lr: u32, is_thumb: bool)
        ensures
            *final(self) == (ArmDisassemblerWindow { step_until: final(self).step_until, ..*old(self) }),
            final(self).step_until == Some(step_return_target(lr, is_thumb)),
    {
        let target: u32 = if is_thumb {
            lr & 0xFFFF_FFFE
        } else {
            lr
        };
        self.step_until = Some(target);
    }
}

impl ArmDisassemblerWindow {
    /// The row that the listing scrolls to as it is drawn: a pending jump to
    /// an address of the listed memory, or else, when the window follows the
    /// PC, the row of `pc`.
    pub open spec fn listing_scroll(&self, pc: usize, mem_start: usize, mem_size: usize, width: usize) -> Option<usize> {
        match self.jump_now {
            Some(j) if mem_start <= j < mem_start + mem_size => Some(
                ((j - mem_start) / width as int) as usize,
            ),
            _ => if self.follow_pc {
                Some(((pc - mem_start) / width as int) as usize)
            } else {
                None
            },
        }
    }

    /// Draws the listing of the `mem_size` bytes from `mem_start`, one
    /// instruction of `width` bytes per row, with the processor at `pc`:
    /// gives the number of rows and the row to scroll to (see
    /// `listing_scroll`), and drops the pending jump, which is used once.
    pub fn listing(&mut self, pc: usize, mem_start: usize, mem_size: usize, width: usize) -> (r: (
        usize,
        Option<usize>,
    ))
        requires
            width > 0,
            mem_start + mem_size <= usize::MAX,
            old(self).follow_pc ==> mem_start <= pc,
        ensures
            r.0 == mem_size / width,
            r.1 == old(self).listing_scroll(pc, mem_start, mem_size, width),
            *final(self) == (ArmDisassemblerWindow { jump_now: None, ..*old(self) }),
    {
        let rows = mem_size / width;
        let mut scroll: Option<usize> = None;
        if self.follow_pc {
            scroll = Some((pc - mem_start) / width);
        }
        if let Some(jump_value) = self.jump_now {
            let row = jump_row(jump_value as usize, mem_start, mem_size, width);
            if row.is_some() {
                scroll = row;
            }
        }
        self.jump_now = None;
        (rows, scroll)
    }

    /// A ctrl-click on an immediate operand of the listing: the listing jumps
    /// to its value.
    pub fn jump_to_operand(&mut self, raw: u32)
        ensures
            *final(self) == (ArmDisassemblerWindow { jump_now: Some(raw), ..*old(self) }),
    {
        self.jump_now = Some(raw);
    }
}

} // verus!
