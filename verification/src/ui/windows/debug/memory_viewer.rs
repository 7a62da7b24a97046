//! The memory viewer's editing: hexadecimal digits typed or pasted become
//! bytes written from the selected address on.
use vstd::prelude::*;

verus! {

/// What a character means to the editor.
#[derive(PartialEq, Eq, Structural, Clone, Copy, Debug)]
pub enum ValidateCharResult {
    /// A hexadecimal digit and its value.
    Valid(u8),
    Invalid,
    /// White space, which is passed over.
    Skip,
}

/// The meaning of `c`.
pub open spec fn char_meaning(c: char) -> ValidateCharResult {
    if '0' <= c <= '9' {
        ValidateCharResult::Valid((c as int - '0' as int) as u8)
    } else if 'a' <= c <= 'f' {
        ValidateCharResult::Valid((c as int - 'a' as int + 10) as u8)
    } else if 'A' <= c <= 'F' {
        ValidateCharResult::Valid((c as int - 'A' as int + 10) as u8)
    } else if c == ' ' || c == '\t' || c == '\n' || c == '\r' {
        ValidateCharResult::Skip
    } else {
        ValidateCharResult::Invalid
    }
}

pub fn validate_char(c: char) -> (r: ValidateCharResult)
    ensures
        r == char_meaning(c),
{
    if '0' <= c && c <= '9' {
        ValidateCharResult::Valid((c as u32 - '0' as u32) as u8)
    } else if 'a' <= c && c <= 'f' {
        ValidateCharResult::Valid((c as u32 - 'a' as u32 + 10) as u8)
    } else if 'A' <= c && c <= 'F' {
        ValidateCharResult::Valid((c as u32 - 'A' as u32 + 10) as u8)
    } else if c == ' ' || c == '\t' || c == '\n' || c == '\r' {
        ValidateCharResult::Skip
    } else {
        ValidateCharResult::Invalid
    }
}

/// The last address that typing moves the selection up to.
pub const LAST_EDITABLE: usize = 0x687FFFF;

/// The outcome of pasting `text` at `addr`: the bytes written (address and
/// value), and then the nibble left pending, if any. Digits go in pairs;
/// white space between pairs is passed over, white space inside a pair drops
/// its first digit, a lone digit at the end or before an invalid character
/// is left pending, and an invalid character ends the paste.
pub open spec fn paste_outcome(text: Seq<char>, addr: int) -> (Seq<(int, u8)>, Option<u8>)
    decreases text.len(),
{
    if text.len() == 0 {
        (Seq::empty(), None)
    } else {
        match char_meaning(text[0]) {
            ValidateCharResult::Invalid => (Seq::empty(), None),
            ValidateCharResult::Skip => paste_outcome(text.drop_first(), addr),
            ValidateCharResult::Valid(c1) => if text.len() == 1 {
                (Seq::empty(), Some(c1))
            } else {
                match char_meaning(text[1]) {
                    ValidateCharResult::Valid(c2) => {
                        let (rest, pending) = paste_outcome(text.subrange(2, text.len() as int), addr + 1);
                        (seq![(addr, ((c1 as int) * 16 + c2) as u8)] + rest, pending)
                    },
                    ValidateCharResult::Invalid => (Seq::empty(), Some(c1)),
                    ValidateCharResult::Skip => paste_outcome(text.subrange(2, text.len() as int), addr),
                }
            },
        }
    }
}

pub struct MemoryViewerWindow {
    pub open: bool,
    pub memory_viewer_selected: Option<usize>,
    pub memory_viewer_selected_pending_value: Option<u8>,
}

impl Default for MemoryViewerWindow {
    fn default() -> (r: Self)
        ensures
            !r.open,
            r.memory_viewer_selected is None,
            r.memory_viewer_selected_pending_value is None,
    {
        MemoryViewerWindow {
            open: false,
            memory_viewer_selected: None,
            memory_viewer_selected_pending_value: None,
        }
    }
}

proof fn lemma_nibbles(c1: u8, c2: u8)
    requires
        c1 < 16,
        c2 < 16,
    ensures
        (c1 << 4u8) | c2 == c1 * 16 + c2,
{
    assert((c1 << 4u8) | c2 == c1 * 16 + c2) by (bit_vector)
        requires
            c1 < 16,
            c2 < 16,
    ;
}

proof fn lemma_meaning_digit(c: char)
    ensures
        char_meaning(c) matches ValidateCharResult::Valid(v) ==> v < 16,
{
}

impl MemoryViewerWindow {
    /// Pastes `text` at the selected address `selected`: returns the bytes to
    /// write, leaves any lone digit pending and selects the address after the
    /// last byte written.
    pub fn paste(&mut self, text: &Vec<char>, selected: usize) -> (writes: Vec<(usize, u8)>)
        requires
            selected + text@.len() <= usize::MAX,
        ensures
            writes@.len() == paste_outcome(text@, selected as int).0.len(),
            forall|k: int|
                0 <= k < writes@.len() ==> (#[trigger] writes@[k]).0 as int == paste_outcome(
                    text@,
                    selected as int,
                ).0[k].0 && writes@[k].1 == paste_outcome(text@, selected as int).0[k].1,
            final(self).memory_viewer_selected == Some((selected + writes@.len()) as usize),
            final(self).memory_viewer_selected_pending_value == match paste_outcome(text@, selected as int).1 {
                Some(p) => Some(p),
                None => old(self).memory_viewer_selected_pending_value,
            },
            final(self).open == old(self).open,
    {
        let mut writes: Vec<(usize, u8)> = Vec::new();
        let mut i = selected;
        let mut pos: usize = 0;
        let mut pending: Option<u8> = None;
        let ghost spec_writes = paste_outcome(text@, selected as int);
        assert(text@.subrange(0, text@.len() as int) =~= text@);
        assert(writes@.map_values(|w: (usize, u8)| (w.0 as int, w.1)) =~= Seq::empty());
        while pos < text.len()
            invariant_except_break
                ({
                    let (rest, p) = paste_outcome(text@.subrange(pos as int, text@.len() as int), i as int);
                    &&& spec_writes.0 == writes@.map_values(|w: (usize, u8)| (w.0 as int, w.1)) + rest
                    &&& spec_writes.1 == p
                }),
                pending is None,
            invariant
                pos <= text@.len(),
                selected <= i,
                i - selected == writes@.len(),
                i + (text@.len() - pos) <= usize::MAX,
                self.open == old(self).open,
                self.memory_viewer_selected_pending_value == old(self).memory_viewer_selected_pending_value,
            ensures
                spec_writes.0 == writes@.map_values(|w: (usize, u8)| (w.0 as int, w.1)),
                spec_writes.1 == pending,
            decreases text@.len() - pos,
        {
            let ghost t = text@.subrange(pos as int, text@.len() as int);
            assert(t[0] == text@[pos as int]);
            let c = validate_char(text[pos]);
            match c {
                ValidateCharResult::Valid(c1) => {
                    proof { lemma_meaning_digit(text@[pos as int]); }
                    if pos + 1 < text.len() {
                        assert(t[1] == text@[pos + 1]);
                        let c2 = validate_char(text[pos + 1]);
                        match c2 {
                            ValidateCharResult::Valid(c2) => {
                                proof {
                                    lemma_meaning_digit(text@[pos + 1]);
                                    lemma_nibbles(c1, c2);
                                    assert(t.subrange(2, t.len() as int) =~= text@.subrange(pos + 2, text@.len() as int));
                                }
                                let b = (c1 << 4u8) | c2;
                                let ghost before = writes@.map_values(|w: (usize, u8)| (w.0 as int, w.1));
                                writes.push((i, b));
                                proof {
                                    assert(writes@.map_values(|w: (usize, u8)| (w.0 as int, w.1)) =~= before.push((i as int, b)));
                                    let (rest, pending) = paste_outcome(t.subrange(2, t.len() as int), i + 1);
                                    assert(before + (seq![(i as int, ((c1 as int) * 16 + c2) as u8)] + rest) =~= before.push((i as int, b)) + rest);
                                }
                                i = i + 1;
                                pos = pos + 2;
                                continue;
                            },
                            ValidateCharResult::Invalid => {},
                            ValidateCharResult::Skip => {
                                proof {
                                    assert(t.subrange(2, t.len() as int) =~= text@.subrange(pos + 2, text@.len() as int));
                                }
                                pos = pos + 2;
                                continue;
                            },
                        }
                    }
                    proof {
                        assert(spec_writes.0 =~= writes@.map_values(|w: (usize, u8)| (w.0 as int, w.1)));
                    }
                    pending = Some(c1);
                    break;
                },
                ValidateCharResult::Invalid => {
                    proof {
                        assert(spec_writes.0 =~= writes@.map_values(|w: (usize, u8)| (w.0 as int, w.1)));
                    }
                    break;
                },
                ValidateCharResult::Skip => {
                    proof {
                        assert(t.drop_first() =~= text@.subrange(pos + 1, text@.len() as int));
                    }
                    pos = pos + 1;
                    continue;
                },
            }
        }
        proof {
            assert forall|k: int| 0 <= k < writes@.len() implies (#[trigger] writes@[k]).0 as int == spec_writes.0[k].0 && writes@[k].1 == spec_writes.0[k].1 by {
                assert(spec_writes.0[k] == writes@.map_values(|w: (usize, u8)| (w.0 as int, w.1))[k]);
            }
        }
        if let Some(p) = pending {
            self.memory_viewer_selected_pending_value = Some(p);
        }
        self.memory_viewer_selected = Some(i);
        writes
    }

    /// One typed character with `selected` selected: a digit after a pending
    /// digit completes a byte, which is returned for writing, and the
    /// selection moves on (up to the last editable address); a first digit is
    /// left pending. Other characters change nothing.
    pub fn type_char(&mut self, c: char, selected: usize) -> (write: Option<(usize, u8)>)
        ensures
            final(self).open == old(self).open,
            match char_meaning(c) {
                ValidateCharResult::Valid(d) => match old(self).memory_viewer_selected_pending_value {
                    Some(p) => {
                        &&& write == Some((selected, ((p as int) * 16 + d) as u8))
                        &&& final(self).memory_viewer_selected_pending_value is None
                        &&& final(self).memory_viewer_selected == if selected < LAST_EDITABLE {
                            Some((selected + 1) as usize)
                        } else {
                            old(self).memory_viewer_selected
                        }
                    },
                    None => {
                        &&& write is None
                        &&& final(self).memory_viewer_selected_pending_value == Some(d)
                        &&& final(self).memory_viewer_selected == old(self).memory_viewer_selected
                    },
                },
                _ => write is None && *final(self) == *old(self),
            },
    {
        let c = validate_char(c);
        if let ValidateCharResult::Valid(c) = c {
            if let Some(value) = self.memory_viewer_selected_pending_value {
                let b = value.wrapping_shl(4) | c;
                proof {
                    assert(value.wrapping_shl(4) | c == ((value as int) * 16 + c) as u8) by (bit_vector)
                        requires c < 16;
                }
                self.memory_viewer_selected_pending_value = None;
                if selected < LAST_EDITABLE {
                    self.memory_viewer_selected = Some(selected + 1);
                }
                return Some((selected, b));
            } else {
                self.memory_viewer_selected_pending_value = Some(c);
            }
        }
        None
    }
}

/// A key that the memory viewer acts on.
#[derive(PartialEq, Eq, Structural, Clone, Copy, Debug)]
pub enum MemoryViewerKey {
    ArrowUp,
    ArrowDown,
    ArrowLeft,
    ArrowRight,
    Backspace,
    Delete,
    Escape,
}

/// The selection after `key` with `selected` selected: the arrows move a row
/// (16 bytes) or a byte, not below address 0 and, down or right, only from
/// below the last editable address; the other keys keep it.
pub open spec fn moved_selection(selected: usize, key: MemoryViewerKey) -> usize {
    match key {
        MemoryViewerKey::ArrowUp => if selected >= 16 {
            (selected - 16) as usize
        } else {
            selected
        },
        MemoryViewerKey::ArrowDown => if selected < LAST_EDITABLE {
            (selected + 16) as usize
        } else {
            selected
        },
        MemoryViewerKey::ArrowLeft => if selected > 0 {
            (selected - 1) as usize
        } else {
            selected
        },
        MemoryViewerKey::ArrowRight => if selected < LAST_EDITABLE {
            (selected + 1) as usize
        } else {
            selected
        },
        _ => selected,
    }
}

impl MemoryViewerWindow {
    /// A key pressed while the window is shown: with nothing selected it does
    /// nothing; the arrows move the selection (see `moved_selection`), and
    /// Backspace, Delete and Escape drop a pending digit.
    pub fn press_key(&mut self, key: MemoryViewerKey)
        ensures
            final(self).open == old(self).open,
            old(self).memory_viewer_selected is None ==> *final(self) == *old(self),
            old(self).memory_viewer_selected matches Some(sel) ==> {
                &&& final(self).memory_viewer_selected == Some(moved_selection(sel, key))
                &&& final(self).memory_viewer_selected_pending_value == match key {
                    MemoryViewerKey::Backspace | MemoryViewerKey::Delete | MemoryViewerKey::Escape => None,
                    _ => old(self).memory_viewer_selected_pending_value,
                }
            },
    {
        let selected = match self.memory_viewer_selected {
            Some(selected) => selected,
            None => return,
        };
        match key {
            MemoryViewerKey::ArrowUp => {
                if selected >= 16 {
                    self.memory_viewer_selected = Some(selected - 16);
                }
            },
            MemoryViewerKey::ArrowDown => {
                if selected < LAST_EDITABLE {
                    self.memory_viewer_selected = Some(selected + 16);
                }
            },
            MemoryViewerKey::ArrowLeft => {
                if selected > 0 {
                    self.memory_viewer_selected = Some(selected - 1);
                }
            },
            MemoryViewerKey::ArrowRight => {
                if selected < LAST_EDITABLE {
                    self.memory_viewer_selected = Some(selected + 1);
                }
            },
            _ => {
                self.memory_viewer_selected_pending_value = None;
            },
        }
    }

    /// A click on byte `i` (in hexadecimal or as text): it is selected, or
    /// unselected if it was; a pending digit is dropped.
    pub fn click_byte(&mut self, i: usize)
        ensures
            final(self).open == old(self).open,
            final(self).memory_viewer_selected == if old(self).memory_viewer_selected == Some(i) {
                None
            } else {
                Some(i)
            },
            final(self).memory_viewer_selected_pending_value is None,
    {
        if self.memory_viewer_selected == Some(i) {
            self.memory_viewer_selected = None;
        } else {
            self.memory_viewer_selected = Some(i);
        }
        self.memory_viewer_selected_pending_value = None;
    }

    /// A click outside the window: nothing stays selected or pending.
    pub fn click_elsewhere(&mut self)
        ensures
            final(self).open == old(self).open,
            final(self).memory_viewer_selected is None,
            final(self).memory_viewer_selected_pending_value is None,
    {
        self.memory_viewer_selected = None;
        self.memory_viewer_selected_pending_value = None;
    }
}

/// The selection after `key` with `selected` selected, in a viewer over a
/// memory of `mem_len` bytes: the arrows move a row (16 bytes) or a byte,
/// not below address 0 and, down or right, only while a whole row or byte
/// follows within the memory; the other keys keep it.
pub open spec fn moved_selection_in(selected: usize, key: MemoryViewerKey, mem_len: usize) -> usize {
    match key {
        MemoryViewerKey::ArrowUp => if selected >= 16 {
            (selected - 16) as usize
        } else {
            selected
        },
        MemoryViewerKey::ArrowDown => if selected < mem_len - 16 {
            (selected + 16) as usize
        } else {
            selected
        },
        MemoryViewerKey::ArrowLeft => if selected > 0 {
            (selected - 1) as usize
        } else {
            selected
        },
        MemoryViewerKey::ArrowRight => if selected < mem_len - 1 {
            (selected + 1) as usize
        } else {
            selected
        },
        _ => selected,
    }
}

impl MemoryViewerWindow {
    /// A key pressed in the viewer over a memory of `mem_len` bytes (the
    /// emulator's own memory): with nothing selected it does nothing; the
    /// arrows move the selection (see `moved_selection_in`); this viewer
    /// gives no other key a meaning.
    pub fn press_key_in(&mut self, key: MemoryViewerKey, mem_len: usize)
        requires
            old(self).memory_viewer_selected is Some && key == MemoryViewerKey::ArrowDown ==> mem_len
                >= 16,
            old(self).memory_viewer_selected is Some && key == MemoryViewerKey::ArrowRight ==> mem_len
                >= 1,
        ensures
            old(self).memory_viewer_selected is None ==> *final(self) == *old(self),
            old(self).memory_viewer_selected matches Some(sel) ==> *final(self) == (
            MemoryViewerWindow {
                memory_viewer_selected: Some(moved_selection_in(sel, key, mem_len)),
                ..*old(self)
            }),
    {
        let selected = match self.memory_viewer_selected {
            Some(selected) => selected,
            None => return,
        };
        match key {
            MemoryViewerKey::ArrowUp => {
                if selected >= 16 {
                    self.memory_viewer_selected = Some(selected - 16);
                }
            },
            MemoryViewerKey::ArrowDown => {
                if selected < mem_len - 16 {
                    self.memory_viewer_selected = Some(selected + 16);
                }
            },
            MemoryViewerKey::ArrowLeft => {
                if selected > 0 {
                    self.memory_viewer_selected = Some(selected - 1);
                }
            },
            MemoryViewerKey::ArrowRight => {
                if selected < mem_len - 1 {
                    self.memory_viewer_selected = Some(selected + 1);
                }
            },
            _ => {},
        }
    }

    /// A character typed in the viewer over the memory `mem`: with a byte
    /// selected, a hexadecimal digit after a pending one writes the byte
    /// they make there and selects the next byte (if the memory goes on); a
    /// first digit is left pending. Anything else changes nothing.
    pub fn type_into_memory(&mut self, c: char, mem: &mut Vec<u8>)
        requires
            old(self).memory_viewer_selected matches Some(s) ==> s < old(mem)@.len(),
        ensures
            final(self).open == old(self).open,
            final(mem)@.len() == old(mem)@.len(),
            old(self).memory_viewer_selected is None ==> *final(self) == *old(self) && final(mem)@
                == old(mem)@,
            old(self).memory_viewer_selected matches Some(s) ==> match char_meaning(c) {
                ValidateCharResult::Valid(d) => match old(self).memory_viewer_selected_pending_value {
                    Some(p) => {
                        &&& final(mem)@ == old(mem)@.update(s as int, ((p as int) * 16 + d) as u8)
                        &&& final(self).memory_viewer_selected_pending_value is None
                        &&& final(self).memory_viewer_selected == if s < old(mem)@.len() - 1 {
                            Some((s + 1) as usize)
                        } else {
                            Some(s)
                        }
                    },
                    None => {
                        &&& final(mem)@ == old(mem)@
                        &&& final(self).memory_viewer_selected_pending_value == Some(d)
                        &&& final(self).memory_viewer_selected == old(self).memory_viewer_selected
                    },
                },
                _ => *final(self) == *old(self) && final(mem)@ == old(mem)@,
            },
    {
        let selected = match self.memory_viewer_selected {
            Some(selected) => selected,
            None => return,
        };
        let c = validate_char(c);
        if let ValidateCharResult::Valid(c) = c {
            if let Some(value) = self.memory_viewer_selected_pending_value {
                let b = value.wrapping_shl(4) | c;
                proof {
                    assert(value.wrapping_shl(4) | c == ((value as int) * 16 + c) as u8) by (bit_vector)
                        requires c < 16;
                }
                self.memory_viewer_selected_pending_value = None;
                mem.set(selected, b);
                if selected < mem.len() - 1 {
                    self.memory_viewer_selected = Some(selected + 1);
                }
            } else {
                self.memory_viewer_selected_pending_value = Some(c);
            }
        }
    }
}

} // verus!
