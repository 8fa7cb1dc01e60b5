//! Register map of the ADXL343: addresses, protocol constants and the
//! bit layouts of the configuration registers.
use vstd::prelude::*;

pub mod accel_configs;

verus! {

pub const DEVID_ADDR: u8 = 0x00;
pub const THRESH_TAP_ADDR: u8 = 0x1D;
pub const OFSX_ADDR: u8 = 0x1E;
pub const OFSY_ADDR: u8 = 0x1F;
pub const OFSZ_ADDR: u8 = 0x20;
pub const DUR_ADDR: u8 = 0x21;
pub const LATENT_ADDR: u8 = 0x22;
pub const WINDOW_ADDR: u8 = 0x23;
pub const THRESH_ACT_ADDR: u8 = 0x24;
pub const THRESH_INACT_ADDR: u8 = 0x25;
pub const TIME_INACT_ADDR: u8 = 0x26;
pub const ACT_INACT_CTL_ADDR: u8 = 0x27;
pub const THRESH_FF_ADDR: u8 = 0x28;
pub const TIME_FF_ADDR: u8 = 0x29;
pub const TAP_AXES_ADDR: u8 = 0x2A;
pub const ACT_TAP_STATUS_ADDR: u8 = 0x2B;
pub const BW_RATE_ADDR: u8 = 0x2C;
pub const POWER_CTL_ADDR: u8 = 0x2D;
pub const INT_ENABLE_ADDR: u8 = 0x2E;
pub const INT_MAP_ADDR: u8 = 0x2F;
pub const INT_SOURCE_ADDR: u8 = 0x30;
pub const DATA_FORMAT_ADDR: u8 = 0x31;
pub const DATAX0_ADDR: u8 = 0x32;
pub const DATAX1_ADDR: u8 = 0x33;
pub const DATAY0_ADDR: u8 = 0x34;
pub const DATAY1_ADDR: u8 = 0x35;
pub const DATAZ0_ADDR: u8 = 0x36;
pub const DATAZ1_ADDR: u8 = 0x37;
pub const FIFO_CTL_ADDR: u8 = 0x38;
pub const FIFO_STATUS_ADDR: u8 = 0x39;

/// Width of one device register, in bits.
pub const REGISTER_SIZE: u8 = 8;

/// Value that the device-ID register of an ADXL343 holds.
pub const DEVICE_ID: u8 = 0xE5;

/// Value expected when the device-ID register is read back.
pub const DEVID_REG_VALUE: u8 = DEVICE_ID;

/// Seven-bit bus address on which the device answers.
pub const ADXL343_ADDR: u8 = 0x53;

/// DEVID: the eight-bit identifier of the device.
#[derive(Clone, Copy)]
pub struct DEVID {
    bytes: [u8; 1],
}

impl DEVID {
    /// The register byte, which is the identifier.
    pub closed spec fn byte(self) -> u8 {
        self.bytes[0]
    }

    /// The register with every bit zero.
    pub fn new() -> (reg: Self)
        ensures
            reg.byte() == 0,
    {
        DEVID { bytes: [0u8] }
    }

    /// The register that holds the byte `bytes[0]`.
    pub fn from_bytes(bytes: [u8; 1]) -> (reg: Self)
        ensures
            reg.byte() == bytes[0],
    {
        DEVID { bytes }
    }

    /// The register byte, as the one-byte array that goes on the bus.
    pub fn into_bytes(self) -> (bytes: [u8; 1])
        ensures
            bytes[0] == self.byte(),
    {
        self.bytes
    }

    /// Address of the register in the device.
    pub fn address() -> (addr: u8)
        ensures
            addr == DEVID_ADDR,
    {
        DEVID_ADDR
    }

    /// The identifier that the register holds.
    pub fn device_id(&self) -> (id: u8)
        ensures
            id == self.byte(),
    {
        self.bytes[0]
    }

    /// The register with the identifier replaced by `id`.
    pub fn with_device_id(self, id: u8) -> (reg: Self)
        ensures
            reg.byte() == id,
    {
        DEVID { bytes: [id] }
    }
}

impl Default for DEVID {
    fn default() -> (reg: Self)
        ensures
            reg.byte() == DEVICE_ID,
    {
        DEVID::new().with_device_id(DEVICE_ID)
    }
}

} // verus!
