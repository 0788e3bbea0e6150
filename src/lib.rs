//! Driver core for the iC-MD quadrature counter.
//!
//! The library holds everything the driver decides: the configuration byte that selects
//! the counting mode, the layout of the counter and status registers, the instruction
//! byte, and the cached device state. Bus transfers are left to the caller: each operation
//! of [`IcMd`] names the register access to perform, and the outcome of that access is
//! handed back to the session, which then updates its state.
use vstd::prelude::*;

pub mod configs;
pub mod dd;
pub mod field;

pub use configs::{
    ActuatorStatus, CntCfg, CntCount, CntDirection, CntSetup, CntZSignal, CommunicationStatus,
    DecodificationStatus, DeviceStatus, ErrorStatus, FullDeviceStatus, InterfaceStatus,
    OverflowStatus, PinStatus, RegisterStatus, TouchProbeStatus, UndervoltageStatus,
    WarningStatus, ZeroStatus,
};

use configs::{bit_set, config_byte};
use dd::{
    block_nerr, block_nwarn, counter_block_len, counter_block_size, counter_block_values,
    decode_counter_block, decode_full_status, encode_instruction, instruction_byte,
    is_full_status, lemma_instruction_byte_layout, DeviceError, RegisterRead, RegisterWrite,
    COUNTER_BLOCK, COUNTER_CONFIGURATION, INSTRUCTION_BYTE, STATUS_0, STATUS_1, STATUS_2,
};

verus! {

/// Device status after a counter read with the given NWARN and NERR bits. Both lines are
/// active low: a clear bit reports a warning or an error.
pub open spec fn status_from_flags(nwarn: bool, nerr: bool) -> DeviceStatus {
    DeviceStatus {
        warning: if nwarn {
            WarningStatus::NoWarning
        } else {
            WarningStatus::Warning
        },
        error: if nerr {
            ErrorStatus::NoError
        } else {
            ErrorStatus::Error
        },
    }
}

/// A session with one iC-MD counter: the selected counting mode, the device status seen
/// with the last counter read, and the levels last commanded to the actuator pins.
#[derive(Debug)]
pub struct IcMd {
    counter_config: CntCfg,
    device_status: DeviceStatus,
    actuator_status: ActuatorStatus,
}

impl IcMd {
    /// The selected counting mode.
    pub closed spec fn config(&self) -> CntCfg {
        self.counter_config
    }

    /// The cached device status.
    pub closed spec fn status(&self) -> DeviceStatus {
        self.device_status
    }

    /// The levels last commanded to the actuator pins.
    pub closed spec fn actuators(&self) -> ActuatorStatus {
        self.actuator_status
    }

    /// A new session: one 48-bit counter, counting clockwise with a normal Z signal, no
    /// warning or error seen, and both actuator pins low.
    pub fn new() -> (r: Self)
        ensures
            r.config() == CntCfg::Cnt1Bit48(
                CntSetup { count_direction: CntDirection::CW, z_signal: CntZSignal::Normal },
            ),
            r.status() == (DeviceStatus {
                warning: WarningStatus::NoWarning,
                error: ErrorStatus::NoError,
            }),
            r.actuators() == (ActuatorStatus { act0: PinStatus::Low, act1: PinStatus::Low }),
    {
        Self {
            counter_config: CntCfg::Cnt1Bit48(CntSetup::default()),
            device_status: DeviceStatus {
                warning: WarningStatus::NoWarning,
                error: ErrorStatus::NoError,
            },
            actuator_status: ActuatorStatus { act0: PinStatus::Low, act1: PinStatus::Low },
        }
    }

    /// Selects the counting mode. It takes effect on the device with the write that `init`
    /// names.
    pub fn set_counter_config(&mut self, config: CntCfg)
        ensures
            final(self).config() == config,
            final(self).status() == old(self).status(),
            final(self).actuators() == old(self).actuators(),
    {
        self.counter_config = config;
    }

    /// The device status cached with the last counter read (or full status read); no bus
    /// access is needed.
    pub fn get_device_status(&self) -> (r: DeviceStatus)
        ensures
            r == self.status(),
    {
        self.device_status
    }

    /// The write that programs the configuration register with the selected mode.
    pub fn init(&self) -> (w: RegisterWrite)
        ensures
            w.address == COUNTER_CONFIGURATION,
            w.data@ == seq![config_byte(self.config())],
    {
        RegisterWrite { address: COUNTER_CONFIGURATION, data: vec![u8::from(self.counter_config)] }
    }

    /// The instruction write that drives the actuator pins to `act0` and `act1`. Its
    /// outcome goes to `configure_actuator_pins`.
    pub fn actuator_pins_write(act0: &PinStatus, act1: &PinStatus) -> (w: RegisterWrite)
        ensures
            w.address == INSTRUCTION_BYTE,
            w.data@ == seq![
                instruction_byte(false, false, false, false, ActuatorStatus { act0: *act0, act1: *act1 }),
            ],
    {
        let act = ActuatorStatus { act0: *act0, act1: *act1 };
        RegisterWrite {
            address: INSTRUCTION_BYTE,
            data: vec![encode_instruction(false, false, false, false, &act)],
        }
    }

    /// Records the outcome of the write named by `actuator_pins_write`: the pin levels are
    /// recorded only when the write went through; a bus error is passed on.
    pub fn configure_actuator_pins<E>(
        &mut self,
        act0: &PinStatus,
        act1: &PinStatus,
        written: Result<(), E>,
    ) -> (r: Result<(), DeviceError<E>>)
        ensures
            final(self).config() == old(self).config(),
            final(self).status() == old(self).status(),
            match written {
                Ok(_) => {
                    &&& r is Ok
                    &&& final(self).actuators() == (ActuatorStatus { act0: *act0, act1: *act1 })
                },
                Err(e) => {
                    &&& r == Err::<(), DeviceError<E>>(DeviceError(e))
                    &&& final(self).actuators() == old(self).actuators()
                },
            },
    {
        match written {
            Ok(()) => {
                self.actuator_status.act0 = *act0;
                self.actuator_status.act1 = *act1;
                Ok(())
            },
            Err(e) => Err(DeviceError(e)),
        }
    }

    /// The read of the counter block of the selected mode.
    pub fn counter_read(&self) -> (r: RegisterRead)
        ensures
            r.address == COUNTER_BLOCK,
            r.len == counter_block_len(self.config()),
    {
        RegisterRead { address: COUNTER_BLOCK, len: counter_block_size(&self.counter_config) }
    }

    /// Takes the outcome of the read named by `counter_read` and returns the counter values.
    /// The NWARN and NERR bits of the block replace the cached device status; on a bus
    /// error the error is passed on and the session is left as it was.
    pub fn read_counter<E>(&mut self, block: Result<Vec<u8>, E>) -> (r: Result<
        CntCount,
        DeviceError<E>,
    >)
        requires
            block matches Ok(p) ==> p@.len() == counter_block_len(old(self).config()),
        ensures
            final(self).config() == old(self).config(),
            final(self).actuators() == old(self).actuators(),
            match block {
                Ok(p) => {
                    &&& r matches Ok(c)
                    &&& c.tag() == old(self).config().tag()
                    &&& c.channels() == counter_block_values(old(self).config(), p@)
                    &&& final(self).status() == status_from_flags(block_nwarn(p@), block_nerr(p@))
                },
                Err(e) => {
                    &&& r == Err::<CntCount, DeviceError<E>>(DeviceError(e))
                    &&& final(self).status() == old(self).status()
                },
            },
    {
        match block {
            Ok(p) => {
                let (count, nwarn, nerr) = decode_counter_block(&self.counter_config, p.as_slice());
                self.set_device_status(nwarn, nerr);
                Ok(count)
            },
            Err(e) => Err(DeviceError(e)),
        }
    }

    /// The reads of status registers 0, 1 and 2, in that order. Reading them clears most
    /// status bits on the device, so a second read may report less.
    pub fn full_status_reads() -> (r: Vec<RegisterRead>)
        ensures
            r@ == seq![
                RegisterRead { address: STATUS_0, len: 1 },
                RegisterRead { address: STATUS_1, len: 1 },
                RegisterRead { address: STATUS_2, len: 1 },
            ],
    {
        vec![
            RegisterRead { address: STATUS_0, len: 1 },
            RegisterRead { address: STATUS_1, len: 1 },
            RegisterRead { address: STATUS_2, len: 1 },
        ]
    }

    /// Takes the outcome of the reads named by `full_status_reads` and returns the full
    /// device status. Its external warning and error flags replace the cached device status;
    /// on a bus error the error is passed on and the session is left as it was.
    pub fn get_full_device_status<E>(&mut self, status: Result<(u8, u8, u8), E>) -> (r: Result<
        FullDeviceStatus,
        DeviceError<E>,
    >)
        ensures
            final(self).config() == old(self).config(),
            final(self).actuators() == old(self).actuators(),
            match status {
                Ok((s0, s1, s2)) => {
                    &&& r matches Ok(st)
                    &&& is_full_status(st, s0, s1, s2)
                    &&& final(self).status() == (DeviceStatus {
                        warning: st.ext_warn_status,
                        error: st.ext_err_status,
                    })
                },
                Err(e) => {
                    &&& r == Err::<FullDeviceStatus, DeviceError<E>>(DeviceError(e))
                    &&& final(self).status() == old(self).status()
                },
            },
    {
        match status {
            Ok((s0, s1, s2)) => {
                let full = decode_full_status(s0, s1, s2);
                self.device_status = DeviceStatus {
                    warning: full.ext_warn_status,
                    error: full.ext_err_status,
                };
                Ok(full)
            },
            Err(e) => Err(DeviceError(e)),
        }
    }

    /// The instruction write that resets the chosen counters. It carries the recorded
    /// actuator pin levels, since every write of the instruction register sets the pins.
    /// A reset of a counter that the mode does not use is ignored by the device.
    pub fn reset_counters(&self, cnt0: bool, cnt1: bool, cnt2: bool) -> (w: RegisterWrite)
        ensures
            w.address == INSTRUCTION_BYTE,
            w.data@ == seq![instruction_byte(cnt0, cnt1, cnt2, false, self.actuators())],
    {
        RegisterWrite {
            address: INSTRUCTION_BYTE,
            data: vec![encode_instruction(cnt0, cnt1, cnt2, false, &self.actuator_status)],
        }
    }

    /// The instruction write that resets all three counters.
    pub fn reset_all_counters(&self) -> (w: RegisterWrite)
        ensures
            w.address == INSTRUCTION_BYTE,
            w.data@ == seq![instruction_byte(true, true, true, false, self.actuators())],
    {
        self.reset_counters(true, true, true)
    }

    /// The instruction write that loads touch probe 2 with the value of touch probe 1 and
    /// touch probe 1 with the counter value. It carries the recorded actuator pin levels.
    pub fn touch_probe_instruction(&self) -> (w: RegisterWrite)
        ensures
            w.address == INSTRUCTION_BYTE,
            w.data@ == seq![instruction_byte(false, false, false, true, self.actuators())],
    {
        RegisterWrite {
            address: INSTRUCTION_BYTE,
            data: vec![encode_instruction(false, false, false, true, &self.actuator_status)],
        }
    }

    /// Sets the cached device status from the active-low NWARN and NERR bits.
    fn set_device_status(&mut self, nwarn: bool, nerr: bool)
        ensures
            final(self).status() == status_from_flags(nwarn, nerr),
            final(self).config() == old(self).config(),
            final(self).actuators() == old(self).actuators(),
    {
        self.device_status.warning = match nwarn {
            true => WarningStatus::NoWarning,
            false => WarningStatus::Warning,
        };
        self.device_status.error = match nerr {
            true => ErrorStatus::NoError,
            false => ErrorStatus::Error,
        };
    }
}

/// A counter reset keeps the actuator pins where they were last commanded: the instruction
/// byte that `reset_counters` writes holds the requested resets in bits 0-2 and the recorded
/// levels of ACT0 and ACT1 in bits 5 and 6. A new session records both pins low, and
/// `configure_actuator_pins` records the levels of each write that went through.
pub proof fn lemma_reset_keeps_actuator_pins(session: IcMd, cnt0: bool, cnt1: bool, cnt2: bool)
    ensures
        bit_set(instruction_byte(cnt0, cnt1, cnt2, false, session.actuators()), 0) == cnt0,
        bit_set(instruction_byte(cnt0, cnt1, cnt2, false, session.actuators()), 1) == cnt1,
        bit_set(instruction_byte(cnt0, cnt1, cnt2, false, session.actuators()), 2) == cnt2,
        !bit_set(instruction_byte(cnt0, cnt1, cnt2, false, session.actuators()), 4),
        bit_set(instruction_byte(cnt0, cnt1, cnt2, false, session.actuators()), 5) == (
        session.actuators().act0 == PinStatus::High),
        bit_set(instruction_byte(cnt0, cnt1, cnt2, false, session.actuators()), 6) == (
        session.actuators().act1 == PinStatus::High),
{
    lemma_instruction_byte_layout(cnt0, cnt1, cnt2, false, session.actuators());
}

} // verus!
