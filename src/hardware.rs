//! Hardware access stand-ins: GPIO pins, an I2C bus and camera devices. They
//! keep the bookkeeping and the mode checks; no device is touched.

use vstd::prelude::*;
use crate::error::AgentError;
use crate::text::owned;

verus! {

/// GPIO pin mode.
#[derive(Debug, Clone, Copy, PartialEq, Eq, Structural)]
pub enum PinMode {
    Input,
    Output,
}

/// GPIO pin level.
#[derive(Debug, Clone, Copy, PartialEq, Eq, Structural)]
pub enum PinState {
    Low,
    High,
}

impl From<bool> for PinState {
    /// `true` is `High`, `false` is `Low`.
    fn from(value: bool) -> (r: PinState) {
        if value {
            PinState::High
        } else {
            PinState::Low
        }
    }
}

impl vstd::std_specs::convert::FromSpecImpl<bool> for PinState {
    open spec fn obeys_from_spec() -> bool {
        true
    }

    open spec fn from_spec(v: bool) -> PinState {
        if v {
            PinState::High
        } else {
            PinState::Low
        }
    }
}

fn hardware_error(msg: &str) -> (r: AgentError)
    ensures
        r is HardwareError,
{
    AgentError::HardwareError(owned(msg))
}

/// One GPIO pin.
#[derive(Debug)]
pub struct GpioPin {
    pin: u8,
    mode: PinMode,
}

impl View for GpioPin {
    type V = (u8, PinMode);

    closed spec fn view(&self) -> (u8, PinMode) {
        (self.pin, self.mode)
    }
}

impl GpioPin {
    /// Sets up pin `pin` in `mode`; always succeeds.
    pub fn new(pin: u8, mode: PinMode) -> (r: Result<Self, AgentError>)
        ensures
            r is Ok && r->Ok_0@ == (pin, mode),
    {
        Ok(GpioPin { pin, mode })
    }

    /// Pin number.
    pub fn pin(&self) -> (r: u8)
        ensures
            r == self@.0,
    {
        self.pin
    }

    /// Pin mode.
    pub fn mode(&self) -> (r: PinMode)
        ensures
            r == self@.1,
    {
        self.mode
    }

    /// Reads the level of an input pin (`Low` on this stand-in); an output pin
    /// cannot be read.
    pub fn read(&self) -> (r: Result<PinState, AgentError>)
        ensures
            self@.1 == PinMode::Input ==> r == Ok::<PinState, AgentError>(PinState::Low),
            self@.1 == PinMode::Output ==> r is Err && r->Err_0 is HardwareError,
    {
        if self.mode != PinMode::Input {
            return Err(hardware_error("Cannot read from output pin"));
        }
        Ok(PinState::Low)
    }

    /// Drives an output pin; an input pin cannot be written.
    pub fn write(&mut self, state: PinState) -> (r: Result<(), AgentError>)
        ensures
            final(self)@ == old(self)@,
            r is Ok <==> old(self)@.1 == PinMode::Output,
            r is Err ==> r->Err_0 is HardwareError,
    {
        if self.mode != PinMode::Output {
            return Err(hardware_error("Cannot write to input pin"));
        }
        Ok(())
    }

    /// Drives the pin high.
    pub fn set_high(&mut self) -> (r: Result<(), AgentError>)
        ensures
            final(self)@ == old(self)@,
            r is Ok <==> old(self)@.1 == PinMode::Output,
    {
        self.write(PinState::High)
    }

    /// Drives the pin low.
    pub fn set_low(&mut self) -> (r: Result<(), AgentError>)
        ensures
            final(self)@ == old(self)@,
            r is Ok <==> old(self)@.1 == PinMode::Output,
    {
        self.write(PinState::Low)
    }

    /// Reads the pin and drives the opposite level. Reading needs an input pin
    /// and driving an output pin, so on this stand-in it always fails.
    pub fn toggle(&mut self) -> (r: Result<(), AgentError>)
        ensures
            final(self)@ == old(self)@,
            r is Err,
    {
        let current = self.read()?;
        match current {
            PinState::Low => self.set_high(),
            PinState::High => self.set_low(),
        }
    }
}

/// Number of addressable pins: one slot per `u8`.
pub const PIN_SLOTS: usize = 256;

/// Controller for a set of GPIO pins, at most one per pin number.
pub struct GpioController {
    slots: Vec<Option<GpioPin>>,
}

impl View for GpioController {
    type V = Map<u8, PinMode>;

    closed spec fn view(&self) -> Map<u8, PinMode> {
        Map::new(
            |k: u8| self.slots@[k as int] is Some,
            |k: u8| self.slots@[k as int]->Some_0@.1,
        )
    }
}

impl GpioController {
    /// Each slot holds, if anything, the pin with its own number.
    pub closed spec fn wf(&self) -> bool {
        &&& self.slots@.len() == PIN_SLOTS
        &&& forall|k: int|
            0 <= k < PIN_SLOTS && (#[trigger] self.slots@[k]) is Some ==> self.slots@[k]->Some_0@.0
                == k
    }

    /// A controller with no pins set up.
    pub fn new() -> (r: Self)
        ensures
            r.wf(),
            r@ == Map::<u8, PinMode>::empty(),
    {
        let mut slots: Vec<Option<GpioPin>> = Vec::new();
        let mut i: usize = 0;
        while i < PIN_SLOTS
            invariant
                i <= PIN_SLOTS,
                slots@.len() == i,
                forall|k: int| 0 <= k < i ==> (#[trigger] slots@[k]) is None,
            decreases PIN_SLOTS - i,
        {
            slots.push(None);
            i = i + 1;
        }
        let r = GpioController { slots };
        assert(r@ =~= Map::<u8, PinMode>::empty());
        r
    }

    /// Sets up `pin` in `mode`, replacing any earlier setup of it.
    pub fn setup_pin(&mut self, pin: u8, mode: PinMode) -> (r: Result<(), AgentError>)
        requires
            old(self).wf(),
        ensures
            final(self).wf(),
            r is Ok,
            final(self)@ == old(self)@.insert(pin, mode),
    {
        let gpio_pin = GpioPin::new(pin, mode)?;
        self.slots.set(pin as usize, Some(gpio_pin));
        assert(self@ =~= old(self)@.insert(pin, mode));
        Ok(())
    }

    /// The pin set up under `pin`, if any.
    pub fn get_pin(&self, pin: u8) -> (r: Option<&GpioPin>)
        requires
            self.wf(),
        ensures
            match r {
                Some(p) => self@.contains_key(pin) && p@ == (pin, self@[pin]),
                None => !self@.contains_key(pin),
            },
    {
        self.slots[pin as usize].as_ref()
    }

    /// Mutable access to the pin set up under `pin`, if any.
    pub fn get_pin_mut(&mut self, pin: u8) -> (r: Option<&mut GpioPin>)
        requires
            old(self).wf(),
        ensures
            match r {
                Some(p) => old(self)@.contains_key(pin) && p@ == (pin, old(self)@[pin]) && (
                final(p)@.0 == pin ==> final(self).wf() && final(self)@ == old(self)@.insert(
                    pin,
                    final(p)@.1,
                )),
                None => !old(self)@.contains_key(pin) && final(self)@ == old(self)@
                    && final(self).wf(),
            },
    {
        self.slots[pin as usize].as_mut()
    }

    /// Releases `pin`.
    pub fn release_pin(&mut self, pin: u8)
        requires
            old(self).wf(),
        ensures
            final(self).wf(),
            final(self)@ == old(self)@.remove(pin),
    {
        self.slots.set(pin as usize, None);
        assert(self@ =~= old(self)@.remove(pin));
    }

    /// Releases every pin.
    pub fn release_all(&mut self)
        requires
            old(self).wf(),
        ensures
            final(self).wf(),
            final(self)@ == Map::<u8, PinMode>::empty(),
    {
        let mut i: usize = 0;
        while i < PIN_SLOTS
            invariant
                i <= PIN_SLOTS,
                self.slots@.len() == PIN_SLOTS,
                forall|k: int| 0 <= k < i ==> (#[trigger] self.slots@[k]) is None,
                forall|k: int|
                    0 <= k < PIN_SLOTS && (#[trigger] self.slots@[k]) is Some
                        ==> self.slots@[k]->Some_0@.0 == k,
            decreases PIN_SLOTS - i,
        {
            self.slots.set(i, None);
            i = i + 1;
        }
        assert(self@ =~= Map::<u8, PinMode>::empty());
    }
}

impl Default for GpioController {
    fn default() -> (r: Self)
        ensures
            r.wf(),
            r@ == Map::<u8, PinMode>::empty(),
    {
        Self::new()
    }
}

/// I2C bus stand-in: reads give zeros, writes are accepted.
#[derive(Debug)]
pub struct I2cBus {
    bus_number: u8,
}

impl View for I2cBus {
    type V = u8;

    closed spec fn view(&self) -> u8 {
        self.bus_number
    }
}

impl I2cBus {
    /// Opens bus `bus_number`; always succeeds.
    pub fn new(bus_number: u8) -> (r: Result<Self, AgentError>)
        ensures
            r is Ok && r->Ok_0@ == bus_number,
    {
        Ok(I2cBus { bus_number })
    }

    /// Bus number.
    pub fn bus_number(&self) -> (r: u8)
        ensures
            r == self@,
    {
        self.bus_number
    }

    /// Addresses of the devices found on the bus: none on this stand-in.
    pub fn scan(&self) -> (r: Result<Vec<u8>, AgentError>)
        ensures
            r is Ok && r->Ok_0@.len() == 0,
    {
        Ok(Vec::new())
    }

    /// Reads `length` bytes from a register: zeros on this stand-in.
    pub fn read(&self, address: u8, register: u8, length: usize) -> (r: Result<Vec<u8>, AgentError>)
        ensures
            r is Ok && r->Ok_0@ == Seq::new(length as nat, |i: int| 0u8),
    {
        let mut data: Vec<u8> = Vec::new();
        let mut i: usize = 0;
        while i < length
            invariant
                i <= length,
                data@ == Seq::new(i as nat, |j: int| 0u8),
            decreases length - i,
        {
            data.push(0u8);
            i = i + 1;
            assert(data@ =~= Seq::new(i as nat, |j: int| 0u8));
        }
        Ok(data)
    }

    /// Writes bytes to a register; always accepted.
    pub fn write(&self, address: u8, register: u8, data: &[u8]) -> (r: Result<(), AgentError>)
        ensures
            r is Ok,
    {
        Ok(())
    }

    /// Reads one byte from a register.
    pub fn read_byte(&self, address: u8, register: u8) -> (r: Result<u8, AgentError>)
        ensures
            r == Ok::<u8, AgentError>(0u8),
    {
        let data = self.read(address, register, 1)?;
        Ok(data[0])
    }

    /// Writes one byte to a register.
    pub fn write_byte(&self, address: u8, register: u8, value: u8) -> (r: Result<(), AgentError>)
        ensures
            r is Ok,
    {
        let data: [u8; 1] = [value];
        self.write(address, register, &data)
    }
}

/// Camera device stand-in.
#[derive(Debug)]
pub struct CameraDevice {
    device_path: String,
    width: u32,
    height: u32,
    is_open: bool,
}

pub struct CameraView {
    pub device_path: Seq<char>,
    pub width: u32,
    pub height: u32,
    pub is_open: bool,
}

impl View for CameraDevice {
    type V = CameraView;

    closed spec fn view(&self) -> CameraView {
        CameraView {
            device_path: self.device_path@,
            width: self.width,
            height: self.height,
            is_open: self.is_open,
        }
    }
}

impl CameraDevice {
    /// A closed camera at `device_path` with the given resolution.
    pub fn new(device_path: &str, width: u32, height: u32) -> (r: Self)
        ensures
            r@ == (CameraView { device_path: device_path@, width, height, is_open: false }),
    {
        CameraDevice { device_path: owned(device_path), width, height, is_open: false }
    }

    /// Marks the camera open.
    pub fn open(&mut self) -> (r: Result<(), AgentError>)
        ensures
            r is Ok,
            final(self)@ == (CameraView { is_open: true, ..old(self)@ }),
    {
        self.is_open = true;
        Ok(())
    }

    /// Marks the camera closed.
    pub fn close(&mut self) -> (r: Result<(), AgentError>)
        ensures
            r is Ok,
            final(self)@ == (CameraView { is_open: false, ..old(self)@ }),
    {
        self.is_open = false;
        Ok(())
    }

    /// True while open.
    pub fn is_open(&self) -> (r: bool)
        ensures
            r == self@.is_open,
    {
        self.is_open
    }

    /// `(width, height)`.
    pub fn resolution(&self) -> (r: (u32, u32))
        ensures
            r == (self@.width, self@.height),
    {
        (self.width, self.height)
    }

    /// Device path.
    pub fn device_path(&self) -> (r: &str)
        ensures
            r@ == self@.device_path,
    {
        self.device_path.as_str()
    }
}

/// The camera paths that are probed, `/dev/video0` to `/dev/video9`, in order.
pub fn camera_candidates() -> (r: Vec<String>)
    ensures
        r@.len() == 10,
        forall|i: int| 0 <= i < 10 ==> (#[trigger] r@[i])@ == "/dev/video"@ + seq![digit_char(i)],
{
    let digits = "0123456789";
    proof {
        reveal_strlit("0123456789");
    }
    let mut r: Vec<String> = Vec::new();
    let mut i: usize = 0;
    while i < 10
        invariant
            i <= 10,
            digits@ == "0123456789"@,
            digits@.len() == 10,
            forall|j: int| 0 <= j < 10 ==> digits@[j] == digit_char(j),
            r@.len() == i,
            forall|j: int| 0 <= j < i ==> (#[trigger] r@[j])@ == "/dev/video"@ + seq![digit_char(j)],
        decreases 10 - i,
    {
        let d = digits.substring_char(i, i + 1);
        assert(d@ =~= seq![digit_char(i as int)]);
        r.push(owned("/dev/video").concat(d));
        i = i + 1;
    }
    r
}

/// Decimal digit `i` (for `0 <= i < 10`).
pub open spec fn digit_char(i: int) -> char {
    seq!['0', '1', '2', '3', '4', '5', '6', '7', '8', '9'][i]
}

} // verus!
