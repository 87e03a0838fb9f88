//! Vocabulary of pin modes and pin values, the request shape that callers hand
//! to the pin registry, and the response envelope returned to them.

use crate::text::{dec_rep, u8_dec, u8_to_dec, u128_to_dec};
use vstd::prelude::*;
use vstd::string::StringExecFns;

verus! {

/// The mode a caller claims for a pin. `UNKNOWN` never names a valid claimed
/// state in the registry; it only appears in malformed requests. `ANALOG` and
/// `PWM` are reserved for hardware support that does not exist yet.
#[derive(Debug, Clone, Copy, PartialEq, Eq, Structural)]
pub enum GPIOMode {
    UNKNOWN,
    OUTPUT,
    INPUT,
    ANALOG,
    PWM,
}

impl GPIOMode {
    /// The integer discriminator that stands for this mode on the wire.
    pub open spec fn wire_spec(self) -> u32 {
        match self {
            GPIOMode::UNKNOWN => 0,
            GPIOMode::OUTPUT => 1,
            GPIOMode::INPUT => 2,
            GPIOMode::ANALOG => 3,
            GPIOMode::PWM => 4,
        }
    }

    pub fn to_wire(self) -> (r: u32)
        ensures
            r == self.wire_spec(),
    {
        match self {
            GPIOMode::UNKNOWN => 0,
            GPIOMode::OUTPUT => 1,
            GPIOMode::INPUT => 2,
            GPIOMode::ANALOG => 3,
            GPIOMode::PWM => 4,
        }
    }

    /// Decodes a wire discriminator; codes outside the table are rejected.
    pub fn from_wire(code: u32) -> (r: Option<GPIOMode>)
        ensures
            match r {
                Some(m) => m.wire_spec() == code,
                None => code > 4,
            },
    {
        match code {
            0 => Some(GPIOMode::UNKNOWN),
            1 => Some(GPIOMode::OUTPUT),
            2 => Some(GPIOMode::INPUT),
            3 => Some(GPIOMode::ANALOG),
            4 => Some(GPIOMode::PWM),
            _ => None,
        }
    }

    pub open spec fn name_spec(self) -> Seq<char> {
        match self {
            GPIOMode::UNKNOWN => "Unknown"@,
            GPIOMode::OUTPUT => "Output"@,
            GPIOMode::INPUT => "Input"@,
            GPIOMode::ANALOG => "Analog"@,
            GPIOMode::PWM => "PWM"@,
        }
    }

    /// The human-readable name of the mode, as it appears in diagnostics.
    pub fn name(&self) -> (r: &'static str)
        ensures
            r@ == self.name_spec(),
    {
        match self {
            GPIOMode::UNKNOWN => "Unknown",
            GPIOMode::OUTPUT => "Output",
            GPIOMode::INPUT => "Input",
            GPIOMode::ANALOG => "Analog",
            GPIOMode::PWM => "PWM",
        }
    }
}

/// A digital logic level.
#[derive(Debug, Clone, Copy, PartialEq, Eq, Structural)]
pub enum GPIOValueLevel {
    LOW,
    HIGH,
}

impl GPIOValueLevel {
    pub open spec fn name_spec(self) -> Seq<char> {
        match self {
            GPIOValueLevel::LOW => "LOW"@,
            GPIOValueLevel::HIGH => "HIGH"@,
        }
    }

    pub fn name(&self) -> (r: &'static str)
        ensures
            r@ == self.name_spec(),
    {
        match self {
            GPIOValueLevel::LOW => "LOW",
            GPIOValueLevel::HIGH => "HIGH",
        }
    }
}

/// A pin value: nothing, a digital level, an analog reading, or a PWM
/// frequency/duty pair. Only `LEVEL` is actionable today; `ANALOG` and `PWM`
/// keep the wire shape stable for future hardware support.
#[derive(Debug, Clone, Copy, PartialEq, Eq, Structural)]
pub enum GPIOValue {
    NONE,
    LEVEL(GPIOValueLevel),
    ANALOG(u8),
    /// Frequency in hertz and a duty cycle from 0 to 255 standing for 0-100%.
    PWM(u128, u8),
}

impl GPIOValue {
    /// Whether this value is a digital level, the only variant a write accepts.
    pub open spec fn is_level(self) -> bool {
        self matches GPIOValue::LEVEL(_)
    }

    /// The human-readable rendering of the value: the level's name, an analog
    /// reading in decimal, or a PWM pair as frequency and duty percentage.
    pub open spec fn describe_spec(self) -> Seq<char> {
        match self {
            GPIOValue::NONE => "None"@,
            GPIOValue::LEVEL(level) => level.name_spec(),
            GPIOValue::ANALOG(reading) => u8_dec(reading),
            GPIOValue::PWM(freq, duty) => "("@ + dec_rep(freq as int) + "Hz, "@ + u8_dec(
                (duty * 100 / 255) as u8,
            ) + "%)"@,
        }
    }

    /// Renders the value for diagnostics.
    pub fn describe(&self) -> (r: String)
        ensures
            r@ == self.describe_spec(),
    {
        match self {
            GPIOValue::NONE => "None".to_owned(),
            GPIOValue::LEVEL(level) => level.name().to_owned(),
            GPIOValue::ANALOG(reading) => u8_to_dec(*reading),
            GPIOValue::PWM(freq, duty) => {
                let mut s = "(".to_owned();
                s.append(u128_to_dec(*freq).as_str());
                s.append("Hz, ");
                let percent: u8 = ((*duty as u32) * 100 / 255) as u8;
                s.append(u8_to_dec(percent).as_str());
                s.append("%)");
                proof {
                    assert(s@ =~= self.describe_spec());
                }
                s
            },
        }
    }
}

/// A decoded pin-operation request: which pin, under which claimed mode, and,
/// for writes, what to set.
#[derive(Debug, Clone, Copy, PartialEq, Eq, Structural)]
pub struct RemoteGPIO {
    pub pin: u8,
    pub mode: GPIOMode,
    pub value: GPIOValue,
}

impl RemoteGPIO {
    /// A request with no value payload, as reads and configures send.
    pub fn new(pin: u8, mode: GPIOMode) -> (r: Self)
        ensures
            r.pin == pin,
            r.mode == mode,
            r.value == GPIOValue::NONE,
    {
        Self { pin, mode, value: GPIOValue::NONE }
    }
}

/// The response envelope handed back to external callers: a success flag, an
/// error message when the operation failed, and a data payload when it
/// produced one. Absent fields are omitted on the wire.
#[derive(Debug, Clone)]
pub struct RemoteResponse<T> {
    pub ok: Option<bool>,
    pub error: Option<String>,
    pub data: Option<T>,
}

} // verus!
