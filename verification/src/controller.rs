//! The pin registry: process state mapping each pin number to its claimed
//! handle, split into an input side and an output side, with configure, set,
//! read and reset operations that enforce mode consistency.
//!
//! Every operation is specified against a functional model: `RegState` is
//! what a registry looks like from outside (which pins are claimed, and the
//! last level driven on each output), and `spec_config`, `spec_set` and
//! `spec_read_err` say exactly how each operation moves that state.

use crate::hardware;
use crate::hardware::Chip;
use crate::protocol::{GPIOMode, GPIOValue, GPIOValueLevel, RemoteGPIO, RemoteResponse};
use crate::text::{u8_dec, u8_to_dec};
use std::collections::HashMap;
use vstd::prelude::*;
use vstd::string::StringExecFns;

verus! {

/// Everything that can go wrong with a pin operation. Each variant carries
/// the offending pin number (and, for `PinUnmatch`, the conflicting mode).
#[derive(Debug, Clone, Copy, PartialEq, Eq, Structural)]
pub enum GPIOError {
    /// The request is malformed or contradictory.
    ArgError,
    /// The registry and the request disagree in a way that should not happen.
    InternalError,
    /// The platform reports no such physical pin, or the path is unbuilt.
    PinNotFound(u8),
    /// The pin is already claimed; a reset is needed before a new claim.
    PinExists(u8),
    /// The claimed mode disagrees with the registry; reserved for stricter
    /// validation.
    PinUnmatch(u8, GPIOMode),
    /// The operation needs an input claim that the request does not assert.
    PinUnreadable(u8),
    /// The operation needs an output claim that the request does not assert.
    PinUnwriteable(u8),
}

impl GPIOError {
    /// The diagnostic text surfaced verbatim to external callers.
    pub open spec fn message_spec(self) -> Seq<char> {
        match self {
            GPIOError::ArgError => "Argument Error."@,
            GPIOError::InternalError => "Internal Error."@,
            GPIOError::PinNotFound(pin) => "PinNotFound: No pin "@ + u8_dec(pin) + "."@,
            GPIOError::PinExists(pin) => "PinExists: Already exists pin "@ + u8_dec(pin)
                + "."@,
            GPIOError::PinUnmatch(pin, mode) => "PinUnmatch: Pin "@ + u8_dec(pin)
                + " not matched to mode "@ + mode.name_spec() + "."@,
            GPIOError::PinUnreadable(pin) => "PinUnreadable: Pin "@ + u8_dec(pin)
                + " is not readable."@,
            GPIOError::PinUnwriteable(pin) => "PinUnwriteable: Pin "@ + u8_dec(pin)
                + " is not writeable."@,
        }
    }

    /// Renders the diagnostic message for this error.
    pub fn message(&self) -> (r: String)
        ensures
            r@ == self.message_spec(),
    {
        match self {
            GPIOError::ArgError => "Argument Error.".to_owned(),
            GPIOError::InternalError => "Internal Error.".to_owned(),
            GPIOError::PinNotFound(pin) => {
                let mut s = "PinNotFound: No pin ".to_owned();
                s.append(u8_to_dec(*pin).as_str());
                s.append(".");
                proof {
                    assert(s@ =~= self.message_spec());
                }
                s
            },
            GPIOError::PinExists(pin) => {
                let mut s = "PinExists: Already exists pin ".to_owned();
                s.append(u8_to_dec(*pin).as_str());
                s.append(".");
                proof {
                    assert(s@ =~= self.message_spec());
                }
                s
            },
            GPIOError::PinUnmatch(pin, mode) => {
                let mut s = "PinUnmatch: Pin ".to_owned();
                s.append(u8_to_dec(*pin).as_str());
                s.append(" not matched to mode ");
                s.append(mode.name());
                s.append(".");
                proof {
                    assert(s@ =~= self.message_spec());
                }
                s
            },
            GPIOError::PinUnreadable(pin) => {
                let mut s = "PinUnreadable: Pin ".to_owned();
                s.append(u8_to_dec(*pin).as_str());
                s.append(" is not readable.");
                proof {
                    assert(s@ =~= self.message_spec());
                }
                s
            },
            GPIOError::PinUnwriteable(pin) => {
                let mut s = "PinUnwriteable: Pin ".to_owned();
                s.append(u8_to_dec(*pin).as_str());
                s.append(" is not writeable.");
                proof {
                    assert(s@ =~= self.message_spec());
                }
                s
            },
        }
    }
}

/// An input claim: a handle on the physical board, or the captured line level
/// of a simulated one.
enum InputSlot {
    Board(rppal::gpio::InputPin),
    Sim(GPIOValueLevel),
}

/// The handle side of an output claim.
enum OutputHandle {
    Board(rppal::gpio::OutputPin),
    Sim,
}

/// An output claim, together with the last level driven through it, if any.
struct OutputSlot {
    handle: OutputHandle,
    level: Option<GPIOValueLevel>,
}

/// The registry as callers observe it: the set of pins claimed as inputs,
/// and, for each pin claimed as an output, the last level driven on it
/// (`None` until the first write).
#[verifier::ext_equal]
pub ghost struct RegState {
    pub inputs: Set<u8>,
    pub outputs: Map<u8, Option<GPIOValueLevel>>,
}

/// A pin number may be claimed on at most one side at a time.
pub open spec fn state_wf(s: RegState) -> bool {
    s.inputs.disjoint(s.outputs.dom())
}

/// How `config` moves the registry once the pin has resolved against the
/// chip: `UNKNOWN` is rejected, a second claim of an already-claimed pin is
/// rejected, a fresh claim lands on exactly one side, and the reserved
/// `ANALOG`/`PWM` modes are accepted without claiming anything.
pub open spec fn spec_config(s: RegState, req: RemoteGPIO) -> (RegState, Result<(), GPIOError>) {
    match req.mode {
        GPIOMode::UNKNOWN => (s, Err(GPIOError::ArgError)),
        GPIOMode::INPUT => if s.inputs.contains(req.pin) || s.outputs.dom().contains(req.pin) {
            (s, Err(GPIOError::PinExists(req.pin)))
        } else {
            (RegState { inputs: s.inputs.insert(req.pin), ..s }, Ok(()))
        },
        GPIOMode::OUTPUT => if s.inputs.contains(req.pin) || s.outputs.dom().contains(req.pin) {
            (s, Err(GPIOError::PinExists(req.pin)))
        } else {
            (RegState { outputs: s.outputs.insert(req.pin, None), ..s }, Ok(()))
        },
        GPIOMode::ANALOG => (s, Ok(())),
        GPIOMode::PWM => (s, Ok(())),
    }
}

/// How `set` moves the registry: writing needs an output-mode request; a
/// write to a pin never claimed as an output is accepted without effect,
/// matching the permissive reply callers rely on; a write to a claimed output
/// must carry a digital level and records it; the reserved modes are accepted
/// without effect.
pub open spec fn spec_set(s: RegState, req: RemoteGPIO) -> (RegState, Result<(), GPIOError>) {
    match req.mode {
        GPIOMode::UNKNOWN | GPIOMode::INPUT => (s, Err(GPIOError::PinUnwriteable(req.pin))),
        GPIOMode::OUTPUT => if !s.outputs.dom().contains(req.pin) {
            (s, Ok(()))
        } else {
            match req.value {
                GPIOValue::LEVEL(level) => (
                    RegState { outputs: s.outputs.insert(req.pin, Some(level)), ..s },
                    Ok(()),
                ),
                _ => (s, Err(GPIOError::ArgError)),
            }
        },
        GPIOMode::ANALOG | GPIOMode::PWM => (s, Ok(())),
    }
}

/// Why `read` fails, if it does: reading needs an input-mode request, the pin
/// must actually be claimed as an input, and the reserved modes have no read
/// path yet. `None` means the read succeeds with a digital level.
pub open spec fn spec_read_err(s: RegState, req: RemoteGPIO) -> Option<GPIOError> {
    match req.mode {
        GPIOMode::UNKNOWN | GPIOMode::OUTPUT => Some(GPIOError::PinUnreadable(req.pin)),
        GPIOMode::INPUT => if s.inputs.contains(req.pin) {
            None
        } else {
            Some(GPIOError::InternalError)
        },
        GPIOMode::ANALOG | GPIOMode::PWM => Some(GPIOError::PinNotFound(req.pin)),
    }
}

/// The pin registry. It exclusively owns every hardware handle it holds;
/// dropping a claim (on reset) releases the pin.
pub struct Registry {
    chip: Chip,
    inputs: HashMap<u8, InputSlot>,
    outputs: HashMap<u8, OutputSlot>,
}

impl View for Registry {
    type V = RegState;

    closed spec fn view(&self) -> RegState {
        RegState {
            inputs: self.inputs@.dom(),
            outputs: Map::new(
                |p: u8| self.outputs@.dom().contains(p),
                |p: u8| self.outputs@[p].level,
            ),
        }
    }
}

impl Registry {
    /// On a simulated chip every claim is simulated, so no operation ever
    /// touches hardware.
    pub closed spec fn inv(self) -> bool {
        self.chip is Sim ==> (forall|p: u8|
            #[trigger] self.inputs@.dom().contains(p) ==> self.inputs@[p] is Sim) && (forall|
            p: u8,
        |
            #[trigger] self.outputs@.dom().contains(p) ==> self.outputs@[p].handle is Sim)
    }

    pub open spec fn wf(self) -> bool {
        self.inv() && state_wf(self@)
    }

    pub closed spec fn is_sim(self) -> bool {
        self.chip is Sim
    }

    /// The line levels of the simulated chip underneath; empty on hardware.
    pub closed spec fn sim_lines(self) -> Seq<GPIOValueLevel> {
        self.chip.lines_spec()
    }

    /// The line level a simulated input claim on `p` reads back.
    pub closed spec fn sim_input_level(self, p: u8) -> GPIOValueLevel {
        if self.inputs@.dom().contains(p) {
            match self.inputs@[p] {
                InputSlot::Sim(level) => level,
                InputSlot::Board(_) => GPIOValueLevel::LOW,
            }
        } else {
            GPIOValueLevel::LOW
        }
    }
}

/// A pin resolved against the chip, ready to be claimed.
enum ResolvedPin {
    Board(rppal::gpio::Pin),
    Sim(GPIOValueLevel),
}

/// Builds an empty registry over the given chip.
pub fn init_gpio_controller(chip: Chip) -> (r: Registry)
    ensures
        r.wf(),
        r@.inputs == Set::<u8>::empty(),
        r@.outputs == Map::<u8, Option<GPIOValueLevel>>::empty(),
        r.is_sim() == chip.is_sim(),
        r.sim_lines() == chip.lines_spec(),
{
    let r = Registry { chip, inputs: HashMap::new(), outputs: HashMap::new() };
    proof {
        assert(r@.inputs =~= Set::<u8>::empty());
        assert(r@.outputs =~= Map::<u8, Option<GPIOValueLevel>>::empty());
    }
    r
}

/// Claims `gpio.pin` under `gpio.mode`. A pin already claimed on either side
/// is rejected with `PinExists` before the chip is consulted; a pin the chip
/// does not expose is rejected with `PinNotFound`; an `UNKNOWN` mode is
/// rejected with `ArgError`; input claims take the pull-down bias of the
/// reference hardware. The reserved `ANALOG`/`PWM` modes are accepted without
/// claiming anything.
pub fn config(reg: &mut Registry, gpio: RemoteGPIO) -> (r: Result<(), GPIOError>)
    requires
        old(reg).wf(),
    ensures
        final(reg).wf(),
        final(reg).is_sim() == old(reg).is_sim(),
        final(reg).sim_lines() == old(reg).sim_lines(),
        r == Err::<(), GPIOError>(GPIOError::PinNotFound(gpio.pin)) ==> final(reg)@ == old(
            reg,
        )@,
        r != Err::<(), GPIOError>(GPIOError::PinNotFound(gpio.pin)) ==> (final(reg)@, r)
            == spec_config(old(reg)@, gpio),
        old(reg).is_sim() && r == Err::<(), GPIOError>(GPIOError::PinNotFound(gpio.pin))
            ==> gpio.pin as int >= old(reg).sim_lines().len(),
        (gpio.mode == GPIOMode::INPUT || gpio.mode == GPIOMode::OUTPUT) && (old(
            reg,
        )@.inputs.contains(gpio.pin) || old(reg)@.outputs.dom().contains(gpio.pin)) ==> r
            == Err::<(), GPIOError>(GPIOError::PinExists(gpio.pin)),
        old(reg).is_sim() && gpio.pin as int >= old(reg).sim_lines().len() && !(old(
            reg,
        )@.inputs.contains(gpio.pin) || old(reg)@.outputs.dom().contains(gpio.pin)) ==> r
            == Err::<(), GPIOError>(GPIOError::PinNotFound(gpio.pin)),
        old(reg).is_sim() && r == Ok::<(), GPIOError>(()) && gpio.mode == GPIOMode::INPUT
            ==> final(reg).sim_input_level(gpio.pin) == old(reg).sim_lines()[gpio.pin as int],
        forall|q: u8|
            q != gpio.pin ==> final(reg).sim_input_level(q) == old(reg).sim_input_level(q),
        !(r == Ok::<(), GPIOError>(()) && gpio.mode == GPIOMode::INPUT)
            ==> final(reg).sim_input_level(gpio.pin) == old(reg).sim_input_level(gpio.pin),
{
    match gpio.mode {
        GPIOMode::INPUT | GPIOMode::OUTPUT => {
            if reg.inputs.contains_key(&gpio.pin) || reg.outputs.contains_key(&gpio.pin) {
                return Err(GPIOError::PinExists(gpio.pin));
            }
        },
        _ => {},
    }
    let resolved: Option<ResolvedPin> = match &reg.chip {
        Chip::Board(g) => match hardware::chip_get(g, gpio.pin) {
            Some(p) => Some(ResolvedPin::Board(p)),
            None => None,
        },
        Chip::Sim(board) => if (gpio.pin as usize) < board.lines.len() {
            Some(ResolvedPin::Sim(board.lines[gpio.pin as usize]))
        } else {
            None
        },
    };
    let resolved = match resolved {
        Some(p) => p,
        None => {
            return Err(GPIOError::PinNotFound(gpio.pin));
        },
    };
    match gpio.mode {
        GPIOMode::UNKNOWN => Err(GPIOError::ArgError),
        GPIOMode::INPUT => {
            let slot = match resolved {
                ResolvedPin::Board(p) => InputSlot::Board(hardware::pin_into_input_pulldown(p)),
                ResolvedPin::Sim(level) => InputSlot::Sim(level),
            };
            reg.inputs.insert(gpio.pin, slot);
            proof {
                assert(reg@.inputs =~= old(reg)@.inputs.insert(gpio.pin));
                assert(reg@.outputs =~= old(reg)@.outputs);
                assert(reg@ =~= spec_config(old(reg)@, gpio).0);
            }
            Ok(())
        },
        GPIOMode::OUTPUT => {
            let slot = match resolved {
                ResolvedPin::Board(p) => OutputSlot {
                    handle: OutputHandle::Board(hardware::pin_into_output(p)),
                    level: None,
                },
                ResolvedPin::Sim(_) => OutputSlot { handle: OutputHandle::Sim, level: None },
            };
            reg.outputs.insert(gpio.pin, slot);
            proof {
                assert(reg@.inputs =~= old(reg)@.inputs);
                assert(reg@.outputs =~= old(reg)@.outputs.insert(gpio.pin, None));
                assert(reg@ =~= spec_config(old(reg)@, gpio).0);
            }
            Ok(())
        },
        GPIOMode::ANALOG => Ok(()),
        GPIOMode::PWM => Ok(()),
    }
}

/// Drives a claimed output pin to the requested digital level. A request
/// whose mode is not `OUTPUT` is rejected with `PinUnwriteable`; a write to a
/// pin never claimed as an output is accepted without effect; a value other
/// than a digital level is rejected with `ArgError`.
pub fn set(reg: &mut Registry, gpio: RemoteGPIO) -> (r: Result<(), GPIOError>)
    requires
        old(reg).wf(),
    ensures
        final(reg).wf(),
        (final(reg)@, r) == spec_set(old(reg)@, gpio),
        final(reg).is_sim() == old(reg).is_sim(),
        final(reg).sim_lines() == old(reg).sim_lines(),
        forall|q: u8| final(reg).sim_input_level(q) == old(reg).sim_input_level(q),
{
    match gpio.mode {
        GPIOMode::UNKNOWN | GPIOMode::INPUT => Err(GPIOError::PinUnwriteable(gpio.pin)),
        GPIOMode::OUTPUT => {
            let slot = match reg.outputs.remove(&gpio.pin) {
                Some(slot) => slot,
                None => {
                    proof {
                        assert(reg@ =~= old(reg)@);
                    }
                    return Ok(());
                },
            };
            match gpio.value {
                GPIOValue::LEVEL(level) => {
                    let mut slot = slot;
                    match &mut slot.handle {
                        OutputHandle::Board(pin) => match level {
                            GPIOValueLevel::LOW => hardware::output_set_low(pin),
                            GPIOValueLevel::HIGH => hardware::output_set_high(pin),
                        },
                        OutputHandle::Sim => {},
                    }
                    slot.level = Some(level);
                    reg.outputs.insert(gpio.pin, slot);
                    proof {
                        assert(reg@.inputs =~= old(reg)@.inputs);
                        assert(reg@.outputs =~= old(reg)@.outputs.insert(
                            gpio.pin,
                            Some(level),
                        ));
                        assert(reg@ =~= spec_set(old(reg)@, gpio).0);
                    }
                    Ok(())
                },
                _ => {
                    reg.outputs.insert(gpio.pin, slot);
                    proof {
                        assert(reg@ =~= old(reg)@);
                    }
                    Err(GPIOError::ArgError)
                },
            }
        },
        GPIOMode::ANALOG | GPIOMode::PWM => Ok(()),
    }
}

/// Reads the digital level of a claimed input pin. A request whose mode is
/// not `INPUT` is rejected with `PinUnreadable`; a pin never claimed as an
/// input means the caller and the registry disagree, which is rejected with
/// `InternalError`; once a pin is claimed, the read always succeeds with a
/// level. On a simulated chip the level is exactly the simulated line.
pub fn read(reg: &Registry, gpio: RemoteGPIO) -> (r: Result<GPIOValue, GPIOError>)
    requires
        reg.wf(),
    ensures
        match spec_read_err(reg@, gpio) {
            Some(e) => r == Err::<GPIOValue, GPIOError>(e),
            None => r matches Ok(GPIOValue::LEVEL(_)),
        },
        reg.is_sim() && spec_read_err(reg@, gpio) is None ==> r == Ok::<
            GPIOValue,
            GPIOError,
        >(GPIOValue::LEVEL(reg.sim_input_level(gpio.pin))),
{
    match gpio.mode {
        GPIOMode::UNKNOWN | GPIOMode::OUTPUT => Err(GPIOError::PinUnreadable(gpio.pin)),
        GPIOMode::INPUT => match reg.inputs.get(&gpio.pin) {
            Some(slot) => {
                let level = match slot {
                    InputSlot::Board(pin) => hardware::input_read(pin),
                    InputSlot::Sim(level) => *level,
                };
                Ok(GPIOValue::LEVEL(level))
            },
            None => Err(GPIOError::InternalError),
        },
        GPIOMode::ANALOG | GPIOMode::PWM => Err(GPIOError::PinNotFound(gpio.pin)),
    }
}

/// Releases every claim on both sides. After a reset every pin is unclaimed
/// again and may be reconfigured; dropping the handles releases the hardware.
pub fn reset_all(reg: &mut Registry)
    requires
        old(reg).wf(),
    ensures
        final(reg).wf(),
        final(reg)@.inputs == Set::<u8>::empty(),
        final(reg)@.outputs == Map::<u8, Option<GPIOValueLevel>>::empty(),
        final(reg).is_sim() == old(reg).is_sim(),
        final(reg).sim_lines() == old(reg).sim_lines(),
{
    reg.inputs.clear();
    reg.outputs.clear();
    proof {
        assert(reg@.inputs =~= Set::<u8>::empty());
        assert(reg@.outputs =~= Map::<u8, Option<GPIOValueLevel>>::empty());
    }
}

/// Wraps the outcome of an operation that reports only success or failure
/// into the response envelope: the success flag mirrors the outcome, the
/// error message is present exactly on failure, and the data field is set as
/// external callers expect.
pub fn flag_response(result: Result<(), GPIOError>) -> (r: RemoteResponse<bool>)
    ensures
        r.ok == Some(result is Ok),
        result is Ok ==> r.error is None,
        result matches Err(e) ==> r.error matches Some(m) && m@ == e.message_spec(),
        r.data == Some(true),
{
    RemoteResponse {
        ok: Some(result.is_ok()),
        error: match result {
            Ok(()) => None,
            Err(err) => Some(err.message()),
        },
        data: Some(true),
    }
}

/// Wraps the outcome of a read into the response envelope: on success the
/// value is carried in the data field and no error is reported; on failure
/// the error message is carried and the data field is absent.
pub fn value_response(result: Result<GPIOValue, GPIOError>) -> (r: RemoteResponse<GPIOValue>)
    ensures
        r.ok == Some(result is Ok),
        result matches Ok(v) ==> r.error is None && r.data == Some(v),
        result matches Err(e) ==> r.error matches Some(m) && m@ == e.message_spec() && r.data
            is None,
{
    match result {
        Ok(value) => RemoteResponse { ok: Some(true), error: None, data: Some(value) },
        Err(err) => RemoteResponse { ok: Some(false), error: Some(err.message()), data: None },
    }
}

} // verus!
