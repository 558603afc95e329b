//! HX711 load-cell front-end driver over GPIO.
//!
//! Each device is one clock line (output, defaulting low) and one data line
//! (input with a pull-up). A conversion is read by pulsing the clock 24
//! times while sampling the data line, plus one gain-select pulse fixing
//! gain 128 on channel A. `read_multiple` toggles every channel's clock in
//! lock-step so all channels are sampled on the same physical edges. The
//! GPIO calls themselves go through trusted wrappers around rppal; every
//! decision made on the sampled levels is verified.

use vstd::prelude::*;

use crate::acquisition::{
    assemble_result, bit_span, lemma_bit_span_24, lemma_bit_span_mono, shift_in,
};
use crate::reading::{ChannelError, Reading};

verus! {

/// Iteration budget for one channel's ready gate: the data line must
/// deassert busy within this many polls.
pub const POLL_BUDGET: u32 = 1000000;

/// A channel could not be set up on the GPIO peripheral.
#[derive(Clone, Copy, Debug, PartialEq, Eq, Structural)]
pub enum SetupError {
    /// The GPIO peripheral itself could not be opened.
    GpioUnavailable,
    /// A requested pin does not exist or is already taken.
    PinUnavailable,
}

#[verifier::external_type_specification]
#[verifier::external_body]
pub struct ExGpio(rppal::gpio::Gpio);

#[verifier::external_type_specification]
#[verifier::external_body]
pub struct ExPin(rppal::gpio::Pin);

#[verifier::external_type_specification]
#[verifier::external_body]
pub struct ExInputPin(rppal::gpio::InputPin);

#[verifier::external_type_specification]
#[verifier::external_body]
pub struct ExOutputPin(rppal::gpio::OutputPin);

#[verifier::external_type_specification]
#[verifier::external_body]
pub struct ExGpioError(rppal::gpio::Error);

/// Relies on rppal::gpio::Gpio::new: opens the GPIO peripheral; whether it
/// succeeds depends on the machine alone.
#[verifier::external_body]
fn gpio_new() -> Result<rppal::gpio::Gpio, rppal::gpio::Error> {
    rppal::gpio::Gpio::new()
}

/// Relies on rppal::gpio::Gpio::get: claims the pin with the given BCM
/// number; fails if it does not exist or is already taken.
#[verifier::external_body]
fn gpio_get(gpio: &rppal::gpio::Gpio, pin: u8) -> Result<rppal::gpio::Pin, rppal::gpio::Error> {
    gpio.get(pin)
}

/// Relies on rppal::gpio::Pin::into_output: configures the pin as an
/// output.
#[verifier::external_body]
fn pin_into_output(pin: rppal::gpio::Pin) -> rppal::gpio::OutputPin {
    pin.into_output()
}

/// Relies on rppal::gpio::Pin::into_input_pullup: configures the pin as an
/// input with the built-in pull-up enabled.
#[verifier::external_body]
fn pin_into_input_pullup(pin: rppal::gpio::Pin) -> rppal::gpio::InputPin {
    pin.into_input_pullup()
}

/// Relies on rppal::gpio::OutputPin::set_high: drives the line high.
#[verifier::external_body]
fn output_set_high(pin: &mut rppal::gpio::OutputPin) {
    pin.set_high()
}

/// Relies on rppal::gpio::OutputPin::set_low: drives the line low.
#[verifier::external_body]
fn output_set_low(pin: &mut rppal::gpio::OutputPin) {
    pin.set_low()
}

/// Relies on rppal::gpio::InputPin::is_high: samples the line's level at
/// this instant; the result depends on the device, so nothing is promised
/// of it.
#[verifier::external_body]
fn input_is_high(pin: &rppal::gpio::InputPin) -> bool {
    pin.is_high()
}

/// One HX711 front-end: its clock line and its data line.
pub struct Hx711 {
    /// GPIO pin connected to the clock pin of the device, BCM numbering.
    clock_pin: rppal::gpio::OutputPin,
    /// GPIO pin connected to the data pin of the device, BCM numbering.
    data_pin: rppal::gpio::InputPin,
}

impl Hx711 {
    /// Claim the two pins of one device and leave its clock low.
    pub fn new(clock_pin_id: u8, data_pin_id: u8) -> (r: Result<Hx711, SetupError>) {
        let gpio = match gpio_new() {
            Ok(g) => g,
            Err(_) => {
                return Err(SetupError::GpioUnavailable);
            },
        };
        let clock = match gpio_get(&gpio, clock_pin_id) {
            Ok(p) => p,
            Err(_) => {
                return Err(SetupError::PinUnavailable);
            },
        };
        let data = match gpio_get(&gpio, data_pin_id) {
            Ok(p) => p,
            Err(_) => {
                return Err(SetupError::PinUnavailable);
            },
        };
        let mut clock_pin = pin_into_output(clock);
        let data_pin = pin_into_input_pullup(data);
        output_set_low(&mut clock_pin);
        Ok(Hx711 { clock_pin, data_pin })
    }

    /// Poll this device's data line until it deasserts busy, within the
    /// budget; reports whether it became ready.
    fn wait_ready(&self) -> bool {
        let mut polls: u32 = 0;
        loop
            invariant
                polls <= POLL_BUDGET,
            decreases POLL_BUDGET - polls,
        {
            if !input_is_high(&self.data_pin) {
                return true;
            }
            if polls >= POLL_BUDGET {
                return false;
            }
            polls = polls + 1;
        }
    }

    /// Read one conversion from this device alone.
    ///
    /// Pulses the clock 24 times, sampling one bit per pulse, then issues
    /// the gain-select pulse. `NotReady` if the device never deasserts busy
    /// within the budget; `FramingError` if the data line is asserted busy
    /// right after the gain-select pulse.
    pub fn read(&mut self) -> (r: Result<Reading, ChannelError>)
        ensures
            r matches Ok(v) ==> v.wf(),
    {
        output_set_low(&mut self.clock_pin);
        if !self.wait_ready() {
            return Err(ChannelError::NotReady);
        }
        let mut acc: u32 = 0;
        let mut i: usize = 0;
        while i < 24
            invariant
                i <= 24,
                acc < bit_span(i as nat),
            decreases 24 - i,
        {
            proof {
                lemma_bit_span_mono(i as nat, 23);
                lemma_bit_span_24();
            }
            output_set_high(&mut self.clock_pin);
            output_set_low(&mut self.clock_pin);
            let bit = input_is_high(&self.data_pin);
            acc = shift_in(acc, bit);
            i = i + 1;
        }
        output_set_high(&mut self.clock_pin);
        output_set_low(&mut self.clock_pin);
        let busy_after = input_is_high(&self.data_pin);
        proof {
            lemma_bit_span_24();
        }
        assemble_result(true, acc, busy_after)
    }

    /// Read one synchronized frame across every given device.
    ///
    /// All clocks are toggled in lock-step — every channel high together,
    /// then every channel low together — so the channels are sampled on the
    /// same physical edges. Each bit is the OR of a double sample of the
    /// data line, guarding against single-sample glitches. Every channel
    /// gets its own result, in request order; one channel's failure never
    /// aborts another's read.
    pub fn read_multiple(devices: &mut Vec<Hx711>) -> (out: Vec<
        Result<Reading, ChannelError>,
    >)
        ensures
            out@.len() == old(devices)@.len(),
            final(devices)@.len() == old(devices)@.len(),
            forall|i: int| 0 <= i < out@.len() ==> (#[trigger] out@[i] matches Ok(v) ==> v.wf()),
    {
        let n = devices.len();
        // Ready gate: devices drive their data line high while a
        // conversion is still in progress. A channel that exceeds the
        // budget is marked failed for this frame but does not block the
        // others.
        let mut ready: Vec<bool> = Vec::new();
        let mut i: usize = 0;
        while i < n
            invariant
                devices@.len() == n,
                i <= n,
                ready@.len() == i,
            decreases n - i,
        {
            let ok = devices[i].wait_ready();
            ready.push(ok);
            i = i + 1;
        }
        // Shift phase: 24 lock-step pulses, one sampled bit per pulse.
        let mut data: Vec<u32> = Vec::new();
        let mut i: usize = 0;
        while i < n
            invariant
                devices@.len() == n,
                i <= n,
                data@.len() == i,
                forall|c: int| 0 <= c < i ==> #[trigger] data@[c] == 0,
            decreases n - i,
        {
            data.push(0);
            i = i + 1;
        }
        let mut round: usize = 0;
        while round < 24
            invariant
                devices@.len() == n,
                data@.len() == n,
                round <= 24,
                forall|c: int| 0 <= c < n ==> #[trigger] data@[c] < bit_span(round as nat),
            decreases 24 - round,
        {
            pulse_all(devices);
            let mut c: usize = 0;
            while c < n
                invariant
                    devices@.len() == n,
                    data@.len() == n,
                    c <= n,
                    forall|j: int|
                        0 <= j < c ==> #[trigger] data@[j] < bit_span((round + 1) as nat),
                    forall|j: int| c <= j < n ==> #[trigger] data@[j] < bit_span(round as nat),
                    round < 24,
                decreases n - c,
            {
                proof {
                    lemma_bit_span_mono(round as nat, 23);
                    lemma_bit_span_24();
                }
                let first = input_is_high(&devices[c].data_pin);
                let second = input_is_high(&devices[c].data_pin);
                let v = shift_in(data[c], first || second);
                data.set(c, v);
                c = c + 1;
            }
            round = round + 1;
        }
        // Gain-select pulse: fixes gain 128, channel A for the next
        // conversion.
        pulse_all(devices);
        // Post-read validation and decode: a line still asserted busy right
        // after the gain-select pulse is a protocol violation.
        let mut out: Vec<Result<Reading, ChannelError>> = Vec::new();
        let mut c: usize = 0;
        while c < n
            invariant
                devices@.len() == n,
                data@.len() == n,
                ready@.len() == n,
                c <= n,
                out@.len() == c,
                forall|j: int| 0 <= j < n ==> #[trigger] data@[j] < bit_span(24),
                forall|j: int| 0 <= j < c ==> (#[trigger] out@[j] matches Ok(v) ==> v.wf()),
            decreases n - c,
        {
            let busy_after = input_is_high(&devices[c].data_pin);
            proof {
                lemma_bit_span_24();
            }
            let r = assemble_result(ready[c], data[c], busy_after);
            out.push(r);
            c = c + 1;
        }
        out
    }
}

/// Drive every device's clock high together, then low together: one
/// lock-step pulse.
fn pulse_all(devices: &mut Vec<Hx711>)
    ensures
        final(devices)@.len() == old(devices)@.len(),
{
    let n = devices.len();
    let mut c: usize = 0;
    while c < n
        invariant
            devices@.len() == n,
            c <= n,
        decreases n - c,
    {
        output_set_high(&mut devices[c].clock_pin);
        c = c + 1;
    }
    let mut c: usize = 0;
    while c < n
        invariant
            devices@.len() == n,
            c <= n,
        decreases n - c,
    {
        output_set_low(&mut devices[c].clock_pin);
        c = c + 1;
    }
}

} // verus!
