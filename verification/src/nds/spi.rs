//! The SPI bus of the ARM7 and the devices behind it: power management,
//! firmware flash and touchscreen controller.
use vstd::prelude::*;

use super::bits::{bit16, field16, get_bit_u16, get_bits_u16, set_bit_u16, with_bit16};
use super::logger::{decimal_text, push_decimal, LogKind, LogRequest, LogSource};
use super::shared::Shared;

verus! {

/// The mask of a firmware address: the flash holds 256 KiB.
pub const FIRMWARE_MASK: u32 = 1024 * 256 - 1;

#[derive(PartialEq, Eq, Structural, Clone, Copy, Debug)]
pub enum FirmwareCommand {
    Idle,
    ReadStatusReg,
    ReadStream,
}

pub struct Spi {
    pub cnt: SpiControl,
    pub data: u16,
    pub fw_command_id: FirmwareCommand,
    pub fw_address: u32,
    pub fw_total_args: u8,
    pub fw_status_reg: u8,
    pub tsc_control_byte: u8,
    pub tsc_data_pos: u8,
    pub tsc_output_coords: u16,
}

impl Default for Spi {
    fn default() -> (r: Self)
        ensures
            r.cnt@ == 0,
            r.data == 0,
            r.fw_command_id == FirmwareCommand::Idle,
            r.fw_address == 0,
            r.fw_total_args == 0,
            r.fw_status_reg == 0,
            r.tsc_control_byte == 0,
            r.tsc_data_pos == 0,
            r.tsc_output_coords == 0,
    {
        Spi {
            cnt: SpiControl(0),
            data: 0,
            fw_command_id: FirmwareCommand::Idle,
            fw_address: 0,
            fw_total_args: 0,
            fw_status_reg: 0,
            tsc_control_byte: 0,
            tsc_data_pos: 0,
            tsc_output_coords: 0,
        }
    }
}

/// The state of the firmware flash interface.
pub struct FirmwareState {
    pub command: FirmwareCommand,
    pub address: u32,
    pub total_args: u8,
    pub status: u8,
}

/// The state of the touchscreen controller.
pub struct TouchState {
    pub control_byte: u8,
    pub data_pos: u8,
    pub output_coords: u16,
}

/// The firmware byte index that the next streamed read uses.
pub open spec fn stream_index(address: u32) -> int {
    (address & FIRMWARE_MASK) as int
}

/// A byte sent to the firmware flash, while the chip select is `hold`:
/// the new state and the byte sent back.
pub open spec fn firmware_step(s: FirmwareState, firmware: Seq<u8>, hold: bool, input: u16) -> (
    FirmwareState,
    u16,
) {
    let total = ((s.total_args + 1) % 256) as u8;
    let (s1, data) = match s.command {
        FirmwareCommand::ReadStream => if total < 5 {
            (
                FirmwareState {
                    address: (s.address << 8u32) | (input as u32),
                    total_args: total,
                    ..s
                },
                input,
            )
        } else {
            (
                FirmwareState { address: (s.address + 1) as u32, total_args: total, ..s },
                firmware[stream_index(s.address)] as u16,
            )
        },
        FirmwareCommand::ReadStatusReg => (
            FirmwareState { total_args: total, ..s },
            s.status as u16,
        ),
        FirmwareCommand::Idle => (
            FirmwareState {
                command: if input == 0x03 {
                    FirmwareCommand::ReadStream
                } else if input == 0x05 {
                    FirmwareCommand::ReadStatusReg
                } else {
                    FirmwareCommand::Idle
                },
                status: if input == 0x04 {
                    s.status & !1u8
                } else if input == 0x06 {
                    s.status | 1u8
                } else {
                    s.status
                },
                total_args: total,
                ..s
            },
            input,
        ),
    };
    if hold {
        (s1, data)
    } else {
        (FirmwareState { command: FirmwareCommand::Idle, address: 0, total_args: 0, ..s1 }, data)
    }
}

/// Whether a byte sent to the firmware flash reads a byte of the flash.
pub open spec fn firmware_reads(s: FirmwareState) -> bool {
    s.command == FirmwareCommand::ReadStream && ((s.total_args + 1) % 256) >= 5
}

/// A byte sent to the touchscreen controller, with the pen at `point`:
/// the new state and the byte sent back.
pub open spec fn touch_step(s: TouchState, point: (u8, u8), input: u16) -> (TouchState, u16) {
    let data: u16 = if s.data_pos == 0 {
        (s.output_coords >> 5u16) & 0xFFu16
    } else if s.data_pos == 1 {
        (s.output_coords << 3u16) & 0xFFu16
    } else {
        0
    };
    if bit16(input, 7) {
        let channel = field16(input, 4, 6);
        let coords: u16 = if channel == 1 {
            ((point.1 as u32) << 4u32) as u16
        } else if channel == 5 {
            ((point.0 as u32) << 4u32) as u16
        } else {
            0
        };
        let coords = if bit16(input, 3) {
            coords & 0x0FF0u16
        } else {
            coords
        };
        (TouchState { control_byte: input as u8, data_pos: 0, output_coords: coords }, data)
    } else {
        (TouchState { data_pos: (s.data_pos + 1) as u8, ..s }, data)
    }
}

impl Spi {
    pub open spec fn firmware_state(&self) -> FirmwareState {
        FirmwareState {
            command: self.fw_command_id,
            address: self.fw_address,
            total_args: self.fw_total_args,
            status: self.fw_status_reg,
        }
    }

    pub open spec fn touch_state(&self) -> TouchState {
        TouchState {
            control_byte: self.tsc_control_byte,
            data_pos: self.tsc_data_pos,
            output_coords: self.tsc_output_coords,
        }
    }

    /// The device that SPICNT selects.
    pub open spec fn device(&self) -> u16 {
        field16(self.cnt@, 8, 9)
    }

    /// A write of a byte to SPIDATA: with the bus enabled, the byte goes to
    /// the selected device (0 power management, 1 firmware, 2 touchscreen,
    /// 3 reserved), whose answer lands in `data`. Power management and the
    /// reserved device answer 0.
    pub fn write(&mut self, firmware: &[u8], shared: &Shared, input: u16)
        requires
            bit16(old(self).cnt@, 15) && old(self).device() == 1 ==> {
                &&& firmware_reads(old(self).firmware_state()) ==> {
                    &&& old(self).fw_address < u32::MAX
                    &&& stream_index(old(self).fw_address) < firmware@.len()
                }
            },
            bit16(old(self).cnt@, 15) && old(self).device() == 2 && !bit16(input, 7)
                ==> old(self).tsc_data_pos < 255,
        ensures
            !bit16(old(self).cnt@, 15) ==> *final(self) == *old(self),
            bit16(old(self).cnt@, 15) ==> {
                let device = old(self).device();
                &&& final(self).cnt == old(self).cnt
                &&& device == 0 || device == 3 ==> {
                    &&& final(self).data == 0
                    &&& final(self).firmware_state() == old(self).firmware_state()
                    &&& final(self).touch_state() == old(self).touch_state()
                }
                &&& device == 1 ==> {
                    let (s, data) = firmware_step(
                        old(self).firmware_state(),
                        firmware@,
                        bit16(old(self).cnt@, 11),
                        input,
                    );
                    &&& final(self).data == data
                    &&& final(self).firmware_state() == s
                    &&& final(self).touch_state() == old(self).touch_state()
                }
                &&& device == 2 ==> {
                    let (s, data) = touch_step(old(self).touch_state(), shared.touchscreen_point, input);
                    &&& final(self).data == data
                    &&& final(self).touch_state() == s
                    &&& final(self).firmware_state() == old(self).firmware_state()
                }
            },
    {
        if !self.cnt.get_enabled() {
            return;
        }
        let device = self.cnt.get_device();
        if device == 0 {
            self.data = 0;
        } else if device == 1 {
            self.fw_total_args = self.fw_total_args.wrapping_add(1);

            let data = match self.fw_command_id {
                FirmwareCommand::ReadStream => {
                    if self.fw_total_args < 5 {
                        self.fw_address = self.fw_address << 8u32;
                        self.fw_address = self.fw_address | input as u32;
                        input
                    } else {
                        self.fw_address = self.fw_address + 1;
                        firmware[((self.fw_address - 1) & FIRMWARE_MASK) as usize] as u16
                    }
                },
                FirmwareCommand::ReadStatusReg => self.fw_status_reg as u16,
                FirmwareCommand::Idle => {
                    if input == 0x03 {
                        self.fw_command_id = FirmwareCommand::ReadStream;
                    } else if input == 0x04 {
                        self.fw_status_reg = self.fw_status_reg & !1u8;
                    } else if input == 0x05 {
                        self.fw_command_id = FirmwareCommand::ReadStatusReg;
                    } else if input == 0x06 {
                        self.fw_status_reg = self.fw_status_reg | 1u8;
                    }
                    input
                },
            };

            if !self.cnt.get_chipset_hold() {
                self.fw_command_id = FirmwareCommand::Idle;
                self.fw_address = 0;
                self.fw_total_args = 0;
            }
            self.data = data;
        } else if device == 2 {
            let data = if self.tsc_data_pos == 0 {
                (self.tsc_output_coords >> 5u16) & 0xFF
            } else if self.tsc_data_pos == 1 {
                (self.tsc_output_coords << 3u16) & 0xFF
            } else {
                0
            };

            if get_bit_u16(input, 7) {
                self.tsc_control_byte = input as u8;
                self.tsc_data_pos = 0;

                let channel = get_bits_u16(input, 4, 6);
                self.tsc_output_coords = if channel == 1 {
                    ((shared.touchscreen_point.1 as u32) << 4u32) as u16  // touchscreen Y
                } else if channel == 5 {
                    ((shared.touchscreen_point.0 as u32) << 4u32) as u16  // touchscreen X
                } else {
                    0
                };

                let conversion_mode = get_bit_u16(input, 3);
                if conversion_mode {
                    self.tsc_output_coords = self.tsc_output_coords & 0x0FF0;
                }
            } else {
                self.tsc_data_pos = self.tsc_data_pos + 1;
            }
            self.data = data;
        } else {
            self.data = 0;
        }
    }
}

/// The log entry that a byte written to SPIDATA makes, from the state
/// before the write: a warning, once, that power management is not
/// implemented; an error for a command byte that the idle flash does not know
/// (other than 0x03 to 0x06), with the byte in decimal; an error, once, that
/// the reserved device is not implemented; nothing otherwise.
pub open spec fn spi_write_log(s: &Spi, input: u16) -> Option<(LogKind, Seq<char>, bool)> {
    if !bit16(s.cnt@, 15) {
        None
    } else if s.device() == 0 {
        Some((LogKind::Warn, "powerman not implemented"@, true))
    } else if s.device() == 1 {
        if s.fw_command_id == FirmwareCommand::Idle && !(3 <= input <= 6) {
            Some((LogKind::Error, "unknown firmware command "@ + decimal_text(input as nat), false))
        } else {
            None
        }
    } else if s.device() == 3 {
        Some((LogKind::Error, "reserved device not implemented"@, true))
    } else {
        None
    }
}

impl Spi {
    /// The log entry that `write(.., input)` makes from the present state, for
    /// the caller to log (from the SPI source) before it writes.
    pub fn write_log(&self, input: u16) -> (r: Option<LogRequest>)
        ensures
            spi_write_log(self, input) is None ==> r is None,
            spi_write_log(self, input) matches Some((kind, content, once)) ==> (r matches Some(
                l,
            ) && l.kind == kind && l.source == LogSource::Spi && l.content@ == content && l.once
                == once),
    {
        if !self.cnt.get_enabled() {
            return None;
        }
        let device = self.cnt.get_device();
        if device == 0 {
            Some(
                LogRequest {
                    kind: LogKind::Warn,
                    source: LogSource::Spi,
                    content: "powerman not implemented".to_owned(),
                    once: true,
                },
            )
        } else if device == 1 {
            if self.fw_command_id == FirmwareCommand::Idle && !(3 <= input && input <= 6) {
                let mut content = "unknown firmware command ".to_owned();
                push_decimal(&mut content, input as u32);
                Some(LogRequest { kind: LogKind::Error, source: LogSource::Spi, content, once: false })
            } else {
                None
            }
        } else if device == 3 {
            Some(
                LogRequest {
                    kind: LogKind::Error,
                    source: LogSource::Spi,
                    content: "reserved device not implemented".to_owned(),
                    once: true,
                },
            )
        } else {
            None
        }
    }
}

/// SPICNT. Bit 7 is the busy flag, bits 8-9 select the device, bit 11 holds
/// the chip select, bit 15 enables the bus.
pub struct SpiControl(u16);

impl View for SpiControl {
    type V = u16;

    closed spec fn view(&self) -> u16 {
        self.0
    }
}

pub const BUSY_OFFSET: u16 = 7;

impl SpiControl {
    pub fn value(&self) -> (r: u16)
        ensures
            r == self@,
    {
        self.0
    }

    /// A write of SPICNT: everything but the busy flag is taken from `value`.
    pub fn set(&mut self, value: u16)
        ensures
            final(self)@ == with_bit16(value, BUSY_OFFSET, bit16(old(self)@, BUSY_OFFSET)),
    {
        let busy = get_bit_u16(self.0, BUSY_OFFSET);
        self.0 = set_bit_u16(value, BUSY_OFFSET, busy);
    }

    pub fn get_device(&self) -> (r: u16)
        ensures
            r == field16(self@, 8, 9),
            r <= 3,
    {
        proof {
            let v = self.0;
            assert(field16(v, 8, 9) <= 3) by (bit_vector);
        }
        get_bits_u16(self.0, 8, 9)
    }

    pub fn get_chipset_hold(&self) -> (r: bool)
        ensures
            r == bit16(self@, 11),
    {
        get_bit_u16(self.0, 11)
    }

    pub fn get_enabled(&self) -> (r: bool)
        ensures
            r == bit16(self@, 15),
    {
        get_bit_u16(self.0, 15)
    }
}

/// The bytes that the firmware flash sends back for `inputs`, one after the
/// other, from state `s`.
pub open spec fn firmware_run(s: FirmwareState, firmware: Seq<u8>, hold: bool, inputs: Seq<u16>) -> (
    FirmwareState,
    Seq<u16>,
)
    decreases inputs.len(),
{
    if inputs.len() == 0 {
        (s, Seq::empty())
    } else {
        let (s0, out0) = firmware_run(s, firmware, hold, inputs.drop_last());
        let (s1, d) = firmware_step(s0, firmware, hold, inputs.last());
        (s1, out0.push(d))
    }
}

/// A read command (0x03) followed by a three-byte address, sent with the chip
/// select held to an idle flash at address 0, leaves the flash streaming from
/// that address.
pub proof fn lemma_read_command_sets_address(
    s: FirmwareState,
    firmware: Seq<u8>,
    a2: u16,
    a1: u16,
    a0: u16,
)
    requires
        s.command == FirmwareCommand::Idle,
        s.address == 0,
        s.total_args == 0,
        a2 < 256,
        a1 < 256,
        a0 < 256,
    ensures
        ({
            let (t, out) = firmware_run(s, firmware, true, seq![0x03u16, a2, a1, a0]);
            &&& t.command == FirmwareCommand::ReadStream
            &&& t.total_args == 4
            &&& t.address == a2 * 0x1_0000 + a1 * 0x100 + a0
            &&& out == seq![0x03u16, a2, a1, a0]
        }),
{
    let inputs = seq![0x03u16, a2, a1, a0];
    reveal_with_fuel(firmware_run, 5);
    assert(inputs.drop_last() == seq![0x03u16, a2, a1]);
    assert(inputs.drop_last().drop_last() == seq![0x03u16, a2]);
    assert(inputs.drop_last().drop_last().drop_last() == seq![0x03u16]);
    assert(inputs.drop_last().drop_last().drop_last().drop_last() == Seq::<u16>::empty());
    let x2 = a2 as u32;
    let x1 = a1 as u32;
    let x0 = a0 as u32;
    assert((((((0u32 << 8u32) | x2) << 8u32) | x1) << 8u32) | x0 == x2 * 0x1_0000 + x1 * 0x100 + x0)
        by (bit_vector)
        requires
            x2 < 256,
            x1 < 256,
            x0 < 256,
    ;
}

/// Once the flash streams (after the command and address bytes) with the chip
/// select held, each further byte sent is answered with the next firmware
/// byte, starting at the address.
pub proof fn lemma_stream_reads_in_order(
    s: FirmwareState,
    firmware: Seq<u8>,
    inputs: Seq<u16>,
)
    requires
        s.command == FirmwareCommand::ReadStream,
        4 <= s.total_args,
        s.total_args + inputs.len() < 256,
        s.address + inputs.len() <= u32::MAX,
        firmware.len() == FIRMWARE_MASK + 1,
    ensures
        ({
            let (t, out) = firmware_run(s, firmware, true, inputs);
            &&& t.command == FirmwareCommand::ReadStream
            &&& t.total_args == s.total_args + inputs.len()
            &&& t.address == s.address + inputs.len()
            &&& out.len() == inputs.len()
            &&& forall|k: int|
                0 <= k < inputs.len() ==> #[trigger] out[k] == firmware[stream_index(
                    (s.address + k) as u32,
                )] as u16
        }),
    decreases inputs.len(),
{
    if inputs.len() > 0 {
        lemma_stream_reads_in_order(s, firmware, inputs.drop_last());
        let (t0, out0) = firmware_run(s, firmware, true, inputs.drop_last());
        let a = t0.address;
        assert(a & FIRMWARE_MASK <= FIRMWARE_MASK) by (bit_vector);
    }
}

} // verus!
