//! Digital lines, SPI port and delay: the handles the rest of the node works with.
use vstd::prelude::*;

verus! {

/// What can go wrong at the hardware and configuration boundary.
#[derive(Clone, Copy, Debug, PartialEq, Eq, Structural)]
pub enum DeviceError {
    /// A line or interrupt could not be configured, or a readback disagreed
    /// with the write just performed.
    FatalConfiguration,
    /// A digital line read returned something other than 0 or 1.
    HardwareFault,
    /// A sensor listener was handed a measurement kind it does not decode.
    UnknownMeasurementKind,
}

/// One write of a digital output line: drive `pin` to `value` (0 or 1).
#[derive(Clone, Copy, Debug, PartialEq, Eq, Structural)]
pub struct PinWrite {
    pub pin: i32,
    pub value: i32,
}

/// Maps a platform return code to the configuration outcome: 0 is success.
pub fn check_rc(rc: i32) -> (r: Result<(), DeviceError>)
    ensures
        r == check_rc_spec(rc),
{
    if rc == 0 {
        Ok(())
    } else {
        Err(DeviceError::FatalConfiguration)
    }
}

/// Pull resistor configuration of an input line.
#[derive(Clone, Copy, Debug, PartialEq, Eq, Structural)]
pub enum GpioPullType {
    DOWN,
    UP,
    NONE,
}

/// The platform's code for each pull configuration.
pub open spec fn pull_code(p: GpioPullType) -> u32 {
    match p {
        GpioPullType::NONE => 0,
        GpioPullType::UP => 1,
        GpioPullType::DOWN => 2,
    }
}

impl GpioPullType {
    /// The code the platform's line service takes for this pull configuration.
    pub fn code(&self) -> (r: u32)
        ensures
            r == pull_code(*self),
    {
        match self {
            GpioPullType::NONE => 0,
            GpioPullType::UP => 1,
            GpioPullType::DOWN => 2,
        }
    }
}

/// A handle on one digital line, named by its pin number.
#[derive(Clone, Copy, Debug)]
pub struct GPIO {
    pin: i32,
}

impl GPIO {
    /// The pin number this handle names.
    pub closed spec fn spec_pin(&self) -> i32 {
        self.pin
    }

    /// A handle on no particular line (pin 0).
    pub fn new() -> (r: GPIO)
        ensures
            r.spec_pin() == 0,
    {
        GPIO { pin: 0 }
    }

    pub fn pin(&self) -> (r: i32)
        ensures
            r == self.spec_pin(),
    {
        self.pin
    }

    pub fn set_pin(self, pin: i32) -> (r: GPIO)
        ensures
            r.spec_pin() == pin,
    {
        let mut g = self;
        g.pin = pin;
        g
    }

    /// Completes the configuration of `pin` as an input, given the return code
    /// of the platform's input configuration call.
    pub fn init_in(self, pin: i32, rc: i32) -> (r: Result<GPIO, DeviceError>)
        ensures
            rc == 0 <==> r.is_ok(),
            rc == 0 ==> r.unwrap().spec_pin() == pin,
            rc != 0 ==> r == Err::<GPIO, DeviceError>(DeviceError::FatalConfiguration),
    {
        match check_rc(rc) {
            Ok(()) => Ok(self.set_pin(pin)),
            Err(e) => Err(e),
        }
    }

    /// Completes the configuration of `pin` as an output, given the return code
    /// of the platform's output configuration call.
    pub fn init_out(self, pin: i32, rc: i32) -> (r: Result<GPIO, DeviceError>)
        ensures
            rc == 0 <==> r.is_ok(),
            rc == 0 ==> r.unwrap().spec_pin() == pin,
            rc != 0 ==> r == Err::<GPIO, DeviceError>(DeviceError::FatalConfiguration),
    {
        match check_rc(rc) {
            Ok(()) => Ok(self.set_pin(pin)),
            Err(e) => Err(e),
        }
    }

    /// In-place form of `init_out`: the handle names `pin` only on success.
    pub fn init(&mut self, pin: i32, rc: i32) -> (r: Result<(), DeviceError>)
        ensures
            r == check_rc_spec(rc),
            rc == 0 ==> final(self).spec_pin() == pin,
            rc != 0 ==> *final(self) == *old(self),
    {
        let r = check_rc(rc);
        if r.is_ok() {
            self.pin = pin;
        }
        r
    }

    /// Checks a raw level read from this line: only 0 and 1 are levels.
    pub fn read_state(self, raw: i32) -> (r: Result<i32, DeviceError>)
        ensures
            r == read_state_spec(raw),
    {
        if raw == 0 || raw == 1 {
            Ok(raw)
        } else {
            Err(DeviceError::HardwareFault)
        }
    }

    /// The write that drives this line low.
    pub fn set_low(&self) -> (r: PinWrite)
        ensures
            r == (PinWrite { pin: self.spec_pin(), value: 0 }),
    {
        PinWrite { pin: self.pin, value: 0 }
    }

    /// The write that drives this line high.
    pub fn set_high(&self) -> (r: PinWrite)
        ensures
            r == (PinWrite { pin: self.spec_pin(), value: 1 }),
    {
        PinWrite { pin: self.pin, value: 1 }
    }
}

/// Outcome of a platform call that returned `rc`.
pub open spec fn check_rc_spec(rc: i32) -> Result<(), DeviceError> {
    if rc == 0 {
        Ok(())
    } else {
        Err(DeviceError::FatalConfiguration)
    }
}

/// Outcome of reading `raw` from a digital line.
pub open spec fn read_state_spec(raw: i32) -> Result<i32, DeviceError> {
    if raw == 0 || raw == 1 {
        Ok(raw)
    } else {
        Err(DeviceError::HardwareFault)
    }
}

/// An SPI port with its chip-select line.
#[derive(Debug)]
pub struct SPI {
    spi_num: i32,
    cs_pin: i32,
}

impl SPI {
    pub closed spec fn spec_spi_num(&self) -> i32 {
        self.spi_num
    }

    pub closed spec fn spec_cs_pin(&self) -> i32 {
        self.cs_pin
    }

    /// A port that names SPI 0 with chip select on pin 0.
    pub fn new() -> (r: SPI)
        ensures
            r.spec_spi_num() == 0,
            r.spec_cs_pin() == 0,
    {
        SPI { spi_num: 0, cs_pin: 0 }
    }

    /// Records the port and chip-select line once the platform has configured
    /// and enabled the port and configured the chip-select output.
    pub fn init(&mut self, spi_num: i32, cs_pin: i32)
        ensures
            final(self).spec_spi_num() == spi_num,
            final(self).spec_cs_pin() == cs_pin,
    {
        self.spi_num = spi_num;
        self.cs_pin = cs_pin;
    }

    pub fn spi_num(&self) -> (r: i32)
        ensures
            r == self.spec_spi_num(),
    {
        self.spi_num
    }

    /// The write that selects the device before a transfer (chip select low).
    pub fn select(&self) -> (r: PinWrite)
        ensures
            r == (PinWrite { pin: self.spec_cs_pin(), value: 0 }),
    {
        PinWrite { pin: self.cs_pin, value: 0 }
    }

    /// The write that releases the device after a transfer (chip select high).
    pub fn deselect(&self) -> (r: PinWrite)
        ensures
            r == (PinWrite { pin: self.spec_cs_pin(), value: 1 }),
    {
        PinWrite { pin: self.cs_pin, value: 1 }
    }
}

/// Scheduler ticks in one second.
pub const OS_TICKS_PER_SEC: u32 = 1000;

/// A blocking delay.
#[derive(Debug)]
pub struct Delay {}

impl Delay {
    pub fn new() -> (r: Delay) {
        Delay {  }
    }

    /// The number of scheduler ticks to sleep for a delay of `ms` milliseconds.
    pub fn delay_ticks(&self, ms: u8) -> (r: u32)
        ensures
            r == ms as int * OS_TICKS_PER_SEC as int / 1000,
    {
        (ms as u32) * OS_TICKS_PER_SEC / 1000
    }
}

} // verus!
