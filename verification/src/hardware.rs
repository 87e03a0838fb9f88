//! The boundary to the physical board. Everything `rppal` computes is reached
//! through the trusted declarations here; the simulated board beside them is
//! plain data, so the registry can be exercised on hosts without a GPIO chip.

use crate::protocol::GPIOValueLevel;
use vstd::prelude::*;

verus! {

#[verifier::external_type_specification]
#[verifier::external_body]
pub struct ExGpio(rppal::gpio::Gpio);

#[verifier::external_type_specification]
#[verifier::external_body]
pub struct ExPin(rppal::gpio::Pin);

#[verifier::external_type_specification]
#[verifier::external_body]
pub struct ExInputPin(rppal::gpio::InputPin);

#[verifier::external_type_specification]
#[verifier::external_body]
pub struct ExOutputPin(rppal::gpio::OutputPin);

/// Relies on `rppal::gpio::Gpio::get`: hands out the pin when the board
/// exposes it and no other handle holds it, and an error otherwise. Which
/// pins exist depends on the board, so nothing more is promised.
#[verifier::external_body]
pub(crate) fn chip_get(chip: &rppal::gpio::Gpio, pin: u8) -> (r: Option<rppal::gpio::Pin>) {
    match chip.get(pin) {
        Ok(p) => Some(p),
        Err(_) => None,
    }
}

/// Relies on `rppal::gpio::Pin::into_input_pulldown`: claims the pin as an
/// input with the pull-down resistor enabled. The handle is opaque here.
#[verifier::external_body]
pub(crate) fn pin_into_input_pulldown(pin: rppal::gpio::Pin) -> (r: rppal::gpio::InputPin) {
    pin.into_input_pulldown()
}

/// Relies on `rppal::gpio::Pin::into_output`: claims the pin as an output,
/// leaving the logic level unchanged. The handle is opaque here.
#[verifier::external_body]
pub(crate) fn pin_into_output(pin: rppal::gpio::Pin) -> (r: rppal::gpio::OutputPin) {
    pin.into_output()
}

/// Relies on `rppal::gpio::OutputPin::set_low`: drives the physical line low.
#[verifier::external_body]
pub(crate) fn output_set_low(pin: &mut rppal::gpio::OutputPin) {
    pin.set_low()
}

/// Relies on `rppal::gpio::OutputPin::set_high`: drives the physical line
/// high.
#[verifier::external_body]
pub(crate) fn output_set_high(pin: &mut rppal::gpio::OutputPin) {
    pin.set_high()
}

/// Relies on `rppal::gpio::InputPin::read`: samples the physical line. The
/// level depends on the outside world, so nothing is promised of it beyond
/// being a digital level, which the result type already says.
#[verifier::external_body]
pub(crate) fn input_read(pin: &rppal::gpio::InputPin) -> (r: GPIOValueLevel) {
    match pin.read() {
        rppal::gpio::Level::Low => GPIOValueLevel::LOW,
        rppal::gpio::Level::High => GPIOValueLevel::HIGH,
    }
}

/// A board whose lines are plain values: pin `p` exists when `p` indexes
/// `lines`, and an input claimed on it reads `lines[p]` back.
pub struct SimBoard {
    pub lines: Vec<GPIOValueLevel>,
}

/// The chip the registry resolves pins against: a physical board reached
/// through `rppal`, or a simulated one.
pub enum Chip {
    Board(rppal::gpio::Gpio),
    Sim(SimBoard),
}

impl Chip {
    /// The line levels of a simulated chip; empty for a physical board, whose
    /// lines only the hardware knows.
    pub open spec fn lines_spec(self) -> Seq<GPIOValueLevel> {
        match self {
            Chip::Board(_) => Seq::empty(),
            Chip::Sim(board) => board.lines@,
        }
    }

    pub open spec fn is_sim(self) -> bool {
        self matches Chip::Sim(_)
    }
}

} // verus!
