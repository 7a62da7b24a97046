//! The settings that the simple debugging windows keep.
use vstd::prelude::*;

use std::time::Duration;

verus! {

/// The benchmark window: how many ARM9 cycles to run, and how long the last
/// run took.
pub struct BenchmarkWindow {
    pub open: bool,
    pub cycles_to_run: u64,
    pub last_result: Option<Duration>,
}

impl Default for BenchmarkWindow {
    /// Closed, set to run 66 million cycles, with no result yet.
    fn default() -> (r: Self)
        ensures
            !r.open,
            r.cycles_to_run == 66_000_000,
            r.last_result is None,
    {
        BenchmarkWindow { open: false, cycles_to_run: 66_000_000, last_result: None }
    }
}

pub struct EmulationLogWindow {
    pub open: bool,
    pub pause_on_warn: bool,
    pub pause_on_error: bool,
    pub show_on_error: bool,
}

impl Default for EmulationLogWindow {
    /// Closed, pausing and showing the log on errors but not on warnings.
    fn default() -> (r: Self)
        ensures
            !r.open,
            !r.pause_on_warn,
            r.pause_on_error,
            r.show_on_error,
    {
        EmulationLogWindow {
            open: false,
            pause_on_warn: false,
            pause_on_error: true,
            show_on_error: true,
        }
    }
}

pub struct MapViewerWindow {
    pub open: bool,
}

impl Default for MapViewerWindow {
    fn default() -> (r: Self)
        ensures
            !r.open,
    {
        MapViewerWindow { open: false }
    }
}

pub struct PaletteViewerWindow {
    pub open: bool,
}

impl Default for PaletteViewerWindow {
    fn default() -> (r: Self)
        ensures
            !r.open,
    {
        PaletteViewerWindow { open: false }
    }
}

pub struct IpcsyncLogWindow {
    pub open: bool,
}

impl Default for IpcsyncLogWindow {
    fn default() -> (r: Self)
        ensures
            !r.open,
    {
        IpcsyncLogWindow { open: false }
    }
}

pub struct RegisterViewerWindow {
    pub open: bool,
}

impl Default for RegisterViewerWindow {
    fn default() -> (r: Self)
        ensures
            !r.open,
    {
        RegisterViewerWindow { open: false }
    }
}

/// The registers that the register viewer lists, in its order.
pub open spec fn register_names() -> Seq<&'static str> {
    seq![
        "DISPSTAT",
        "VCOUNT",
        "[A]DISPCNT",
        "[A]BG0CNT",
        "[A]BG1CNT",
        "[A]BG2CNT",
        "[A]BG3CNT",
        "[A]BLDCNT",
        "[B]DISPCNT",
        "[B]BG0CNT",
        "[B]BG1CNT",
        "[B]BG2CNT",
        "[B]BG3CNT",
        "[B]BLDCNT",
        "KEYINPUT",
        "RCNT",
        "EXTKEYIN",
        "VRAMCNT_A",
        "VRAMCNT_B",
        "VRAMCNT_C",
        "VRAMCNT_D",
        "VRAMCNT_E",
        "VRAMCNT_F",
        "VRAMCNT_G",
        "WRAMCNT",
        "VRAMCNT_H",
        "VRAMCNT_I",
        "IPCSYNC9",
        "IPCSYNC7",
        "IPCFIFO_CNT9",
        "IPCFIFO_CNT7",
        "IME9",
        "IE9",
        "IF9",
        "IME7",
        "IE7",
        "IF7",
        "POWCNT1",
        "CP15_CNT",
        "CP15_DTCM",
        "CP15_ITCM",
        "AUXSPICNT",
        "COMMAND",
        "EXMEMCNT",
        "EXMEMSTAT",
        "ROMCTRL",
    ]
}

impl RegisterViewerWindow {
    /// The names of the registers that the viewer lists, one per row.
    pub fn names(&self) -> (r: Vec<&'static str>)
        ensures
            r@ == register_names(),
    {
        let mut names: Vec<&'static str> = Vec::new();
        names.push("DISPSTAT");
        names.push("VCOUNT");
        names.push("[A]DISPCNT");
        names.push("[A]BG0CNT");
        names.push("[A]BG1CNT");
        names.push("[A]BG2CNT");
        names.push("[A]BG3CNT");
        names.push("[A]BLDCNT");
        names.push("[B]DISPCNT");
        names.push("[B]BG0CNT");
        names.push("[B]BG1CNT");
        names.push("[B]BG2CNT");
        names.push("[B]BG3CNT");
        names.push("[B]BLDCNT");
        names.push("KEYINPUT");
        names.push("RCNT");
        names.push("EXTKEYIN");
        names.push("VRAMCNT_A");
        names.push("VRAMCNT_B");
        names.push("VRAMCNT_C");
        names.push("VRAMCNT_D");
        names.push("VRAMCNT_E");
        names.push("VRAMCNT_F");
        names.push("VRAMCNT_G");
        names.push("WRAMCNT");
        names.push("VRAMCNT_H");
        names.push("VRAMCNT_I");
        names.push("IPCSYNC9");
        names.push("IPCSYNC7");
        names.push("IPCFIFO_CNT9");
        names.push("IPCFIFO_CNT7");
        names.push("IME9");
        names.push("IE9");
        names.push("IF9");
        names.push("IME7");
        names.push("IE7");
        names.push("IF7");
        names.push("POWCNT1");
        names.push("CP15_CNT");
        names.push("CP15_DTCM");
        names.push("CP15_ITCM");
        names.push("AUXSPICNT");
        names.push("COMMAND");
        names.push("EXMEMCNT");
        names.push("EXMEMSTAT");
        names.push("ROMCTRL");
        names
    }
}

pub struct TestWindow {
    pub open: bool,
}

impl Default for TestWindow {
    fn default() -> (r: Self)
        ensures
            !r.open,
    {
        TestWindow { open: false }
    }
}

} // verus!
