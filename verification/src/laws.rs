//! The laws of the registry, proved over the functional model that the
//! operations in `controller` are specified against.

use crate::controller::{spec_config, spec_read_err, spec_set, state_wf, GPIOError, RegState};
use crate::protocol::{GPIOMode, RemoteGPIO};
use vstd::prelude::*;

verus! {

/// A second claim of an already-claimed pin always fails: once a configure
/// has claimed a pin on either side, any further claim of that pin (as input
/// or as output) is rejected with `PinExists` and leaves the registry
/// unchanged.
pub proof fn lemma_second_claim_fails(s: RegState, first: RemoteGPIO, second: RemoteGPIO)
    requires
        first.mode == GPIOMode::INPUT || first.mode == GPIOMode::OUTPUT,
        second.mode == GPIOMode::INPUT || second.mode == GPIOMode::OUTPUT,
        second.pin == first.pin,
        spec_config(s, first).1 == Ok::<(), GPIOError>(()),
    ensures
        spec_config(spec_config(s, first).0, second) == (
            spec_config(s, first).0,
            Err::<(), GPIOError>(GPIOError::PinExists(second.pin)),
        ),
{
}

/// An access whose claimed mode disagrees with the registry fails without
/// touching registry state: a read of a pin claimed as an output fails
/// whatever mode the request asserts, and a write whose request asserts a
/// non-output mode fails with `PinUnwriteable` and changes nothing.
pub proof fn lemma_mismatched_access_fails(s: RegState, req: RemoteGPIO)
    requires
        state_wf(s),
    ensures
        s.outputs.dom().contains(req.pin) ==> spec_read_err(s, req) is Some,
        req.mode == GPIOMode::UNKNOWN || req.mode == GPIOMode::INPUT ==> spec_set(s, req) == (
            s,
            Err::<(), GPIOError>(GPIOError::PinUnwriteable(req.pin)),
        ),
{
}

/// A configure or write that fails leaves the registry exactly as it was.
pub proof fn lemma_no_effect_on_failure(s: RegState, req: RemoteGPIO)
    ensures
        spec_config(s, req).1 is Err ==> spec_config(s, req).0 == s,
        spec_set(s, req).1 is Err ==> spec_set(s, req).0 == s,
{
}

/// Writing a digital level to a claimed output succeeds, and writing the same
/// level again is idempotent: the second write also succeeds and leaves the
/// registry exactly where the first write left it.
pub proof fn lemma_set_level_idempotent(s: RegState, req: RemoteGPIO)
    requires
        req.mode == GPIOMode::OUTPUT,
        req.value.is_level(),
        s.outputs.dom().contains(req.pin),
    ensures
        spec_set(s, req).1 == Ok::<(), GPIOError>(()),
        spec_set(spec_set(s, req).0, req) == (spec_set(s, req).0, Ok::<(), GPIOError>(())),
{
    let s1 = spec_set(s, req).0;
    assert(spec_set(s1, req).0.outputs =~= s1.outputs);
    assert(spec_set(s1, req).0 =~= s1);
}

/// Once a pin is claimed as an input, a read that asserts input mode is owed
/// a digital level: it cannot fail, in particular never with `PinNotFound`.
pub proof fn lemma_read_claimed_input(s: RegState, req: RemoteGPIO)
    requires
        req.mode == GPIOMode::INPUT,
        s.inputs.contains(req.pin),
    ensures
        spec_read_err(s, req) is None,
{
}

/// After a reset every pin behaves as if never configured: a read that
/// asserts input mode is rejected with `InternalError`, a write that asserts
/// a non-output mode is rejected with `PinUnwriteable`, a write that asserts
/// output mode is accepted without effect, and a fresh claim of either side
/// succeeds again.
pub proof fn lemma_reset_unclaims_everything(req: RemoteGPIO)
    ensures
        ({
            let empty = RegState {
                inputs: Set::<u8>::empty(),
                outputs: Map::<u8, Option<crate::protocol::GPIOValueLevel>>::empty(),
            };
            &&& req.mode == GPIOMode::INPUT ==> spec_read_err(empty, req) == Some(
                GPIOError::InternalError,
            )
            &&& req.mode == GPIOMode::UNKNOWN || req.mode == GPIOMode::INPUT ==> spec_set(
                empty,
                req,
            ) == (empty, Err::<(), GPIOError>(GPIOError::PinUnwriteable(req.pin)))
            &&& req.mode == GPIOMode::OUTPUT ==> spec_set(empty, req) == (
                empty,
                Ok::<(), GPIOError>(()),
            )
            &&& req.mode == GPIOMode::INPUT || req.mode == GPIOMode::OUTPUT ==> spec_config(
                empty,
                req,
            ).1 == Ok::<(), GPIOError>(())
        }),
{
}

/// A write carrying anything but a digital level to a claimed output pin is
/// rejected with `ArgError`, whatever was driven on the pin before.
pub proof fn lemma_set_rejects_non_level(s: RegState, req: RemoteGPIO)
    requires
        req.mode == GPIOMode::OUTPUT,
        !req.value.is_level(),
        s.outputs.dom().contains(req.pin),
    ensures
        spec_set(s, req) == (s, Err::<(), GPIOError>(GPIOError::ArgError)),
{
}

/// The wire discriminator identifies the mode: two modes with the same code
/// are the same mode, so decoding an encoded mode gives the mode back.
pub proof fn lemma_wire_spec_injective(a: GPIOMode, b: GPIOMode)
    requires
        a.wire_spec() == b.wire_spec(),
    ensures
        a == b,
{
}

} // verus!
