//! The state that both processors share: graphics, main memory, shared
//! WRAM, input and the inter-processor registers.
use vstd::prelude::*;

pub mod models;

use models::extkeyin::ExtKeyIn;
use models::ipc::ipcfifo::IpcFifo;
use models::ipc::ipcsync::IpcSync;
use models::keyinput::KeyInput;
use models::powcnt::PowCnt1;

use crate::nds::gpus::Gpus;

verus! {

/// The size of main memory (4 MiB).
pub const PSRAM_SIZE: usize = 1024 * 1024 * 4;

/// The size of shared WRAM (32 KiB).
pub const WRAM_SIZE: usize = 1024 * 32;

pub struct Shared {
    pub gpus: Gpus,
    pub psram: Vec<u8>,
    pub wram: Vec<u8>,  // 32kb
    pub keyinput: KeyInput,  // 0x04000130
    pub extkeyin: ExtKeyIn,  // 0x04000136
    pub ipcsync: IpcSync,  // 0x04000180
    pub ipcfifo: IpcFifo,  // 0x04000184, 0x04000188, 0x04100000
    pub powcnt1: PowCnt1,  // 0x04000304
    /// Where the pen touches the screen, (x, y).
    pub touchscreen_point: (u8, u8),
}

/// `n` zero bytes.
pub open spec fn zeros(n: nat) -> Seq<u8> {
    Seq::new(n, |i: int| 0u8)
}

impl Default for Shared {
    fn default() -> (r: Self)
        ensures
            r.gpus.initial(),
            r.psram@ == zeros(PSRAM_SIZE as nat),
            r.wram@ == zeros(WRAM_SIZE as nat),
            r.keyinput@ == 0b11_1111_1111,
            r.extkeyin@ == 0b111_1111,
            r.ipcsync.initial(),
            r.ipcfifo.initial(),
            r.powcnt1@ == 0,
            r.touchscreen_point == (0u8, 0u8),
    {
        let r = Shared {
            gpus: Gpus::default(),
            psram: vec![0u8; PSRAM_SIZE],
            wram: vec![0u8; WRAM_SIZE],
            keyinput: KeyInput::default(),
            extkeyin: ExtKeyIn::default(),
            ipcsync: IpcSync::default(),
            ipcfifo: IpcFifo::default(),
            powcnt1: PowCnt1::default(),
            touchscreen_point: (0, 0),
        };
        assert(r.psram@ =~= zeros(PSRAM_SIZE as nat));
        assert(r.wram@ =~= zeros(WRAM_SIZE as nat));
        r
    }
}

impl Shared {
    /// Shared state without memory behind it, for tests.
    pub fn new_fake() -> (r: Self)
        ensures
            r.gpus.wf(),
            r.gpus.dispstat@ == 0,
            r.gpus.vcount == 0,
            r.gpus.x == 0,
            r.gpus.a.initial(),
            r.gpus.b.initial(),
            r.gpus.vram_banks.all_fake(),
            r.psram@.len() == 0,
            r.wram@.len() == 0,
            r.keyinput@ == 0b11_1111_1111,
            r.extkeyin@ == 0b111_1111,
            r.ipcsync.initial(),
            r.ipcfifo.initial(),
            r.powcnt1@ == 0,
            r.touchscreen_point == (0u8, 0u8),
    {
        Shared {
            gpus: Gpus::new_fake(),
            psram: Vec::new(),
            wram: Vec::new(),
            keyinput: KeyInput::default(),
            extkeyin: ExtKeyIn::default(),
            ipcsync: IpcSync::default(),
            ipcfifo: IpcFifo::default(),
            powcnt1: PowCnt1::default(),
            touchscreen_point: (0, 0),
        }
    }

    /// Takes the saved state of `shared`; the input registers and the pen
    /// position, which a save does not hold, stay as they are.
    pub fn load_state(&mut self, shared: Self)
        ensures
            final(self).gpus == shared.gpus,
            final(self).psram == shared.psram,
            final(self).wram == shared.wram,
            final(self).ipcsync == shared.ipcsync,
            final(self).ipcfifo == shared.ipcfifo,
            final(self).powcnt1 == shared.powcnt1,
            final(self).keyinput == old(self).keyinput,
            final(self).extkeyin == old(self).extkeyin,
            final(self).touchscreen_point == old(self).touchscreen_point,
    {
        self.gpus = shared.gpus;
        self.psram = shared.psram;
        self.wram = shared.wram;

        self.ipcsync = shared.ipcsync;
        self.ipcfifo = shared.ipcfifo;
        self.powcnt1 = shared.powcnt1;
    }

    /// Puts graphics, memory and the inter-processor registers back to their
    /// state at power on; the input registers and the pen position stay.
    pub fn reset(&mut self)
        ensures
            final(self).gpus.initial(),
            final(self).psram@ == zeros(PSRAM_SIZE as nat),
            final(self).wram@ == zeros(WRAM_SIZE as nat),
            final(self).ipcsync.initial(),
            final(self).ipcfifo.initial(),
            final(self).powcnt1@ == 0,
            final(self).keyinput == old(self).keyinput,
            final(self).extkeyin == old(self).extkeyin,
            final(self).touchscreen_point == old(self).touchscreen_point,
    {
        self.gpus = Gpus::default();
        self.psram = vec![0u8; PSRAM_SIZE];
        self.wram = vec![0u8; WRAM_SIZE];

        self.ipcsync = IpcSync::default();
        self.ipcfifo = IpcFifo::default();
        self.powcnt1 = PowCnt1::default();
        assert(self.psram@ =~= zeros(PSRAM_SIZE as nat));
        assert(self.wram@ =~= zeros(WRAM_SIZE as nat));
    }
}

} // verus!
