//! The device driver: it owns the bus and a settings value, writes the
//! configuration registers, starts and stops sampling, and reads samples.
use vstd::prelude::*;
use vstd::std_specs::convert::FromSpecImpl;
use crate::bus::{made_since, transfer_since, RegisterBus, Request, Transfer};
use crate::conversion::{axis_word, raw_axes, raw_axis, raw_axis_value};
use crate::registers::accel_configs::POWER_CTL;
use crate::registers::{
    ADXL343_ADDR, BW_RATE_ADDR, DATAX0_ADDR, DATA_FORMAT_ADDR, DEVID_ADDR, DEVID_REG_VALUE,
    POWER_CTL_ADDR,
};
use crate::utils::settings::{ADXL343Settings, SettingsView};

verus! {

/// Why an operation of the driver failed.
#[derive(Debug, PartialEq, Eq)]
pub enum ADXL343Error<E> {
    /// The bus reported an error; it is handed on as it came.
    Interface(E),
    /// The device-ID register did not hold the identifier of an ADXL343.
    DeviceIdMismatch,
    /// The settings offered to the driver claim that the device measures.
    MeasurementModeBeforeConfig,
}

impl<E> From<E> for ADXL343Error<E> {
    fn from(value: E) -> (error: Self) {
        ADXL343Error::Interface(value)
    }
}

impl<E> FromSpecImpl<E> for ADXL343Error<E> {
    open spec fn obeys_from_spec() -> bool {
        true
    }

    open spec fn from_spec(value: E) -> Self {
        ADXL343Error::Interface(value)
    }
}

impl<E> ADXL343Error<E> {
    /// The error in words; `None` for an error of the bus, which only the
    /// bus can describe.
    pub fn description(&self) -> (text: Option<&'static str>)
        ensures
            match self {
                ADXL343Error::Interface(_) => text is None,
                ADXL343Error::DeviceIdMismatch => text is Some && text.unwrap()@
                    == "Wrong device ID returned"@,
                ADXL343Error::MeasurementModeBeforeConfig => text is Some && text.unwrap()@
                    == "Attempted to turn on measurement mode prior to configuration"@,
            },
    {
        match self {
            ADXL343Error::Interface(_) => None,
            ADXL343Error::DeviceIdMismatch => Some("Wrong device ID returned"),
            ADXL343Error::MeasurementModeBeforeConfig => Some(
                "Attempted to turn on measurement mode prior to configuration",
            ),
        }
    }
}

/// The request that writes `value` to the register at `register`.
pub open spec fn register_write(register: u8, value: u8) -> Request {
    Request::Write { address: ADXL343_ADDR, bytes: seq![register, value] }
}

/// The request that reads `count` registers in one burst, starting at
/// `register`.
pub open spec fn register_read(register: u8, count: nat) -> Request {
    Request::WriteRead { address: ADXL343_ADDR, bytes: seq![register], count }
}

/// What a register write returns for a reply of the bus.
pub open spec fn write_result<E>(reply: Result<Seq<u8>, E>) -> Result<(), ADXL343Error<E>> {
    match reply {
        Ok(_) => Ok(()),
        Err(e) => Err(ADXL343Error::Interface(e)),
    }
}

/// Device driver.
pub struct ADXL343Interface<I: RegisterBus> {
    i2c: I,
    settings: ADXL343Settings,
}

impl<I: RegisterBus> ADXL343Interface<I> {
    /// The bus that the driver owns.
    pub closed spec fn bus(self) -> I {
        self.i2c
    }

    /// The settings that the driver holds.
    pub closed spec fn spec_settings(&self) -> ADXL343Settings {
        self.settings
    }

    /// The transfers made on the bus of the driver, oldest first, failed
    /// ones included.
    pub open spec fn transfers(self) -> Seq<Transfer<I::Error>> {
        self.bus().transfers()
    }

    /// Whether the bus of the driver has made exactly the transfers of
    /// `before` and then `count` more.
    pub open spec fn made(self, before: Self, count: nat) -> bool {
        made_since(self.bus(), before.bus(), count)
    }

    /// The transfer number `k` of those that the bus of the driver has made
    /// after the transfers of `before`.
    pub open spec fn transfer_since(self, before: Self, k: int) -> Transfer<I::Error> {
        transfer_since(self.bus(), before.bus(), k)
    }

    /// Returns a driver on `i2c` with the default settings. No transfer is
    /// made.
    pub fn new(i2c: I) -> (driver: Self)
        ensures
            driver.bus() == i2c,
            driver.settings()@ == SettingsView::initial(),
    {
        Self { i2c, settings: ADXL343Settings::default() }
    }

    /// The settings that the driver holds.
    #[verifier::when_used_as_spec(spec_settings)]
    pub fn settings(&self) -> (settings: ADXL343Settings)
        ensures
            settings == self.spec_settings(),
    {
        self.settings
    }

    /// Replaces the settings of the driver, without a transfer. Settings that
    /// claim that the device measures are refused, and the driver stays as it
    /// was.
    pub fn with_settings(&mut self, settings: ADXL343Settings) -> (res: Result<
        (),
        ADXL343Error<I::Error>,
    >)
        ensures
            final(self).bus() == old(self).bus(),
            final(self).transfers() == old(self).transfers(),
            if settings@.measurement_mode {
                &&& res == Err::<(), ADXL343Error<I::Error>>(
                    ADXL343Error::MeasurementModeBeforeConfig,
                )
                &&& final(self).settings() == old(self).settings()
            } else {
                &&& res is Ok
                &&& final(self).settings() == settings
            },
    {
        if settings.in_measurement_mode() {
            return Err(ADXL343Error::MeasurementModeBeforeConfig);
        }
        self.settings = settings;
        Ok(())
    }

    fn write_to_register(&mut self, reg_address: u8, value: u8) -> (res: Result<
        (),
        ADXL343Error<I::Error>,
    >)
        ensures
            final(self).settings() == old(self).settings(),
            final(self).made(*old(self), 1),
            final(self).transfer_since(*old(self), 0).request == register_write(reg_address, value),
            res == write_result(final(self).transfer_since(*old(self), 0).reply),
    {
        let bytes: [u8; 2] = [reg_address, value];
        assert(bytes@ =~= seq![reg_address, value]);
        match self.i2c.write(ADXL343_ADDR, &bytes) {
            Ok(()) => Ok(()),
            Err(e) => Err(ADXL343Error::from(e)),
        }
    }

    /// Writes the BW_RATE byte of the settings, then their DATA_FORMAT byte.
    /// The second write is made only if the first succeeded. The device is
    /// not told to measure.
    pub fn init(&mut self) -> (res: Result<(), ADXL343Error<I::Error>>)
        ensures
            final(self).settings() == old(self).settings(),
            final(self).transfer_since(*old(self), 0).request == register_write(
                BW_RATE_ADDR,
                old(self).settings()@.bw_rate_byte(),
            ),
            match final(self).transfer_since(*old(self), 0).reply {
                Err(e) => final(self).made(*old(self), 1) && res == Err::<
                    (),
                    ADXL343Error<I::Error>,
                >(ADXL343Error::Interface(e)),
                Ok(_) => {
                    &&& final(self).made(*old(self), 2)
                    &&& final(self).transfer_since(*old(self), 1).request == register_write(
                        DATA_FORMAT_ADDR,
                        old(self).settings()@.data_format_byte(),
                    )
                    &&& res == write_result(final(self).transfer_since(*old(self), 1).reply)
                },
            },
    {
        let bw_rate = self.settings.BW_RATE_reg_value();
        match self.write_to_register(BW_RATE_ADDR, bw_rate) {
            Ok(()) => {},
            Err(e) => {
                return Err(e);
            },
        }
        let data_format = self.settings.DATA_FORMAT_reg_value();
        self.write_to_register(DATA_FORMAT_ADDR, data_format)
    }

    /// Reads the device-ID register and succeeds if and only if the read
    /// succeeds and brings the identifier of an ADXL343.
    pub fn confirm_device(&mut self) -> (res: Result<(), ADXL343Error<I::Error>>)
        ensures
            final(self).settings() == old(self).settings(),
            final(self).made(*old(self), 1),
            final(self).transfer_since(*old(self), 0).request == register_read(DEVID_ADDR, 1),
            match final(self).transfer_since(*old(self), 0).reply {
                Ok(bytes) => bytes.len() == 1 && res == if bytes[0] == DEVID_REG_VALUE {
                    Ok::<(), ADXL343Error<I::Error>>(())
                } else {
                    Err::<(), ADXL343Error<I::Error>>(ADXL343Error::DeviceIdMismatch)
                },
                Err(e) => res == Err::<(), ADXL343Error<I::Error>>(ADXL343Error::Interface(e)),
            },
    {
        match self.read_register(DEVID_ADDR) {
            Ok(returned_value) => {
                if returned_value == DEVID_REG_VALUE {
                    Ok(())
                } else {
                    Err(ADXL343Error::DeviceIdMismatch)
                }
            },
            Err(e) => Err(e),
        }
    }

    /// What `begin_measurements` makes of a driver: nothing if the settings
    /// say that the device measures; else the flag is set and one write to
    /// POWER_CTL is made, of the byte whose only set bit is the measure bit.
    pub open spec fn begun(self, before: Self, res: Result<(), ADXL343Error<I::Error>>) -> bool {
        if before.settings()@.measurement_mode {
            self == before && res is Ok
        } else {
            &&& self.settings()@ == (SettingsView {
                measurement_mode: true,
                ..before.settings()@
            })
            &&& self.made(before, 1)
            &&& self.transfer_since(before, 0).request == register_write(POWER_CTL_ADDR, 0x08)
            &&& res == write_result(self.transfer_since(before, 0).reply)
        }
    }

    /// What `turn_off_measurements` makes of a driver: nothing if the
    /// settings say that the device does not measure; else the flag is
    /// cleared and one write to POWER_CTL is made, of the zero byte.
    pub open spec fn turned_off(self, before: Self, res: Result<(), ADXL343Error<I::Error>>) -> bool {
        if !before.settings()@.measurement_mode {
            self == before && res is Ok
        } else {
            &&& self.settings()@ == (SettingsView {
                measurement_mode: false,
                ..before.settings()@
            })
            &&& self.made(before, 1)
            &&& self.transfer_since(before, 0).request == register_write(POWER_CTL_ADDR, 0x00)
            &&& res == write_result(self.transfer_since(before, 0).reply)
        }
    }

    /// Tells the device to measure, unless the settings say that it does
    /// already. The flag of the settings is set before the write, and stays
    /// set if the write fails.
    pub fn begin_measurements(&mut self) -> (res: Result<(), ADXL343Error<I::Error>>)
        ensures
            final(self).begun(*old(self), res),
    {
        if !self.settings.in_measurement_mode() {
            self.settings.toggle_measurement_mode();
            let measure_on = POWER_CTL::default().with_measure(0x1).into_bytes()[0];
            return self.write_to_register(POWER_CTL_ADDR, measure_on);
        }
        Ok(())
    }

    /// Tells the device to stop measuring, unless the settings say that it
    /// does not measure. The flag of the settings is cleared before the
    /// write, and stays cleared if the write fails.
    pub fn turn_off_measurements(&mut self) -> (res: Result<(), ADXL343Error<I::Error>>)
        ensures
            final(self).turned_off(*old(self), res),
    {
        if self.settings.in_measurement_mode() {
            self.settings.toggle_measurement_mode();
            let measure_off = POWER_CTL::default().with_measure(0x0).into_bytes()[0];
            return self.write_to_register(POWER_CTL_ADDR, measure_off);
        }
        Ok(())
    }

    /// Reads the six data registers in one burst that starts at the low byte
    /// of the x axis, and returns them as they came:
    /// `[x_low, x_high, y_low, y_high, z_low, z_high]`.
    pub fn read_full_sample(&mut self) -> (res: Result<[u8; 6], ADXL343Error<I::Error>>)
        ensures
            final(self).settings() == old(self).settings(),
            final(self).made(*old(self), 1),
            final(self).transfer_since(*old(self), 0).request == register_read(DATAX0_ADDR, 6),
            match (final(self).transfer_since(*old(self), 0).reply, res) {
                (Ok(bytes), Ok(sample)) => sample@ == bytes,
                (Err(e), Err(error)) => error == ADXL343Error::Interface(e),
                _ => false,
            },
    {
        let mut read_buff = [0u8; 6];
        let register: [u8; 1] = [DATAX0_ADDR];
        assert(register@ =~= seq![DATAX0_ADDR]);
        match self.i2c.write_read(ADXL343_ADDR, &register, &mut read_buff) {
            Ok(()) => Ok(read_buff),
            Err(e) => Err(ADXL343Error::from(e)),
        }
    }

    /// Decodes the two data bytes of one axis, low byte first, into the
    /// signed count of the reading, by the justification and the resolution
    /// of the settings. The driver is left as it was, and no transfer is
    /// made.
    pub fn axis_value_raw(&mut self, accel_data: [u8; 2]) -> (raw: i16)
        ensures
            *final(self) == *old(self),
            raw == raw_axis_value(
                old(self).settings()@,
                axis_word(accel_data[0], accel_data[1]),
            ),
    {
        raw_axis(&self.settings, accel_data)
    }

    /// Reads one sample and decodes it into the signed counts of the x, y and
    /// z axes. A count divided by the counts per g of the settings is the
    /// acceleration in g's.
    pub fn read_accel_raw(&mut self) -> (res: Result<[i16; 3], ADXL343Error<I::Error>>)
        ensures
            final(self).settings() == old(self).settings(),
            final(self).made(*old(self), 1),
            final(self).transfer_since(*old(self), 0).request == register_read(DATAX0_ADDR, 6),
            match (final(self).transfer_since(*old(self), 0).reply, res) {
                (Ok(bytes), Ok(raw)) => {
                    &&& bytes.len() == 6
                    &&& raw[0] == raw_axis_value(
                        old(self).settings()@,
                        axis_word(bytes[0], bytes[1]),
                    )
                    &&& raw[1] == raw_axis_value(
                        old(self).settings()@,
                        axis_word(bytes[2], bytes[3]),
                    )
                    &&& raw[2] == raw_axis_value(
                        old(self).settings()@,
                        axis_word(bytes[4], bytes[5]),
                    )
                },
                (Err(e), Err(error)) => error == ADXL343Error::Interface(e),
                _ => false,
            },
    {
        match self.read_full_sample() {
            Ok(sample) => Ok(raw_axes(&self.settings, sample)),
            Err(e) => Err(e),
        }
    }

    /// Reads the register at `reg_address`.
    pub fn read_register(&mut self, reg_address: u8) -> (res: Result<u8, ADXL343Error<I::Error>>)
        ensures
            final(self).settings() == old(self).settings(),
            final(self).made(*old(self), 1),
            final(self).transfer_since(*old(self), 0).request == register_read(reg_address, 1),
            match (final(self).transfer_since(*old(self), 0).reply, res) {
                (Ok(bytes), Ok(value)) => bytes == seq![value],
                (Err(e), Err(error)) => error == ADXL343Error::Interface(e),
                _ => false,
            },
    {
        let mut read_buff = [0u8];
        let register: [u8; 1] = [reg_address];
        assert(register@ =~= seq![reg_address]);
        match self.i2c.write_read(ADXL343_ADDR, &register, &mut read_buff) {
            Ok(()) => {
                assert(read_buff@ =~= seq![read_buff[0]]);
                Ok(read_buff[0])
            },
            Err(e) => Err(ADXL343Error::from(e)),
        }
    }

    /// Stops the measurements if the settings say that the device measures,
    /// then gives up the bus and the settings. A driver that measures makes
    /// one write to POWER_CTL, of the zero byte; a failure of that write is
    /// dropped: the driver is gone either way. A driver that does not
    /// measure hands back its bus untouched.
    pub fn destroy(self) -> (parts: (I, ADXL343Settings))
        ensures
            parts.1@ == (SettingsView { measurement_mode: false, ..self.settings()@ }),
            if self.settings()@.measurement_mode {
                &&& made_since(parts.0, self.bus(), 1)
                &&& transfer_since(parts.0, self.bus(), 0).request == register_write(
                    POWER_CTL_ADDR,
                    0x00,
                )
            } else {
                parts.0 == self.bus()
            },
    {
        let mut driver = self;
        let _ = driver.turn_off_measurements();
        (driver.i2c, driver.settings)
    }

    /// Beginning measurements twice in a row writes to the device at most
    /// once: the second call succeeds, makes no transfer and leaves the
    /// driver as the first call left it.
    pub proof fn lemma_begin_twice(
        start: Self,
        once: Self,
        twice: Self,
        first: Result<(), ADXL343Error<I::Error>>,
        second: Result<(), ADXL343Error<I::Error>>,
    )
        requires
            once.begun(start, first),
            twice.begun(once, second),
        ensures
            twice == once,
            second is Ok,
            twice.made(start, if start.settings()@.measurement_mode { 0nat } else { 1nat }),
    {
    }

    /// Turning measurements off twice in a row writes to the device at most
    /// once: the second call succeeds, makes no transfer and leaves the
    /// driver as the first call left it.
    pub proof fn lemma_turn_off_twice(
        start: Self,
        once: Self,
        twice: Self,
        first: Result<(), ADXL343Error<I::Error>>,
        second: Result<(), ADXL343Error<I::Error>>,
    )
        requires
            once.turned_off(start, first),
            twice.turned_off(once, second),
        ensures
            twice == once,
            second is Ok,
            twice.made(start, if start.settings()@.measurement_mode { 1nat } else { 0nat }),
    {
    }
}

} // verus!
