//! The preferences window: where the BIOS files of the two processors are.
use vstd::prelude::*;

use crate::nds::arm::ArmKind;

verus! {

#[derive(PartialEq, Eq, Structural, Clone, Copy, Debug)]
pub enum PreferencesPanel {
    Emulation,
}

pub struct PreferencesWindow {
    pub open: bool,
    pub selected: PreferencesPanel,
    pub arm9_bios_path: String,
    pub arm7_bios_path: String,
}

impl Default for PreferencesWindow {
    /// Closed, on the emulation panel, with no BIOS path set.
    fn default() -> (r: Self)
        ensures
            !r.open,
            r.selected == PreferencesPanel::Emulation,
            r.arm9_bios_path@ == Seq::<char>::empty(),
            r.arm7_bios_path@ == Seq::<char>::empty(),
    {
        PreferencesWindow {
            open: false,
            selected: PreferencesPanel::Emulation,
            arm9_bios_path: String::new(),
            arm7_bios_path: String::new(),
        }
    }
}

impl PreferencesWindow {
    /// The BIOS path set for the processor `kind`.
    pub open spec fn bios_path(&self, kind: ArmKind) -> Seq<char> {
        match kind {
            ArmKind::ARM9 => self.arm9_bios_path@,
            ArmKind::ARM7 => self.arm7_bios_path@,
        }
    }

    /// The BIOS file to load into the bus of the processor `kind`: its path,
    /// unless none is set.
    pub fn try_load_bios(&self, kind: ArmKind) -> (r: Option<String>)
        ensures
            self.bios_path(kind).len() == 0 ==> r is None,
            self.bios_path(kind).len() > 0 ==> (r matches Some(p) && p@ == self.bios_path(kind)),
    {
        let bios_path = match kind {
            ArmKind::ARM9 => &self.arm9_bios_path,
            ArmKind::ARM7 => &self.arm7_bios_path,
        };
        if bios_path.as_str().is_empty() {
            None
        } else {
            Some(bios_path.clone())
        }
    }

    /// A path chosen in the file dialog for the processor `kind`, or none
    /// yet: a chosen path becomes that processor's BIOS path and is the file
    /// to load; the other processor's path stays.
    pub fn load_bios_from_channel(&mut self, kind: ArmKind, received: Option<String>) -> (r: Option<
        String,
    >)
        ensures
            received is None ==> r is None && *final(self) == *old(self),
            received matches Some(content) ==> {
                &&& r == Some(content)
                &&& final(self).bios_path(kind) == content@
                &&& final(self).open == old(self).open
                &&& final(self).selected == old(self).selected
                &&& kind == ArmKind::ARM9 ==> final(self).arm7_bios_path == old(self).arm7_bios_path
                &&& kind == ArmKind::ARM7 ==> final(self).arm9_bios_path == old(self).arm9_bios_path
            },
    {
        match received {
            Some(content) => {
                match kind {
                    ArmKind::ARM9 => self.arm9_bios_path = content.clone(),
                    ArmKind::ARM7 => self.arm7_bios_path = content.clone(),
                }
                Some(content)
            },
            None => None,
        }
    }
}

} // verus!
