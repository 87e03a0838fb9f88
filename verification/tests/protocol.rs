use boat3_server::controller::GPIOError;
use boat3_server::protocol::{GPIOMode, GPIOValue, GPIOValueLevel, RemoteGPIO, RemoteResponse};
use boat3_server::text::u8_to_dec;

#[test]
fn remote_gpio_new_carries_no_value() {
    let req = RemoteGPIO::new(9, GPIOMode::INPUT);
    assert_eq!(req.pin, 9);
    assert_eq!(req.mode, GPIOMode::INPUT);
    assert_eq!(req.value, GPIOValue::NONE);
}

#[test]
fn mode_wire_codes() {
    assert_eq!(GPIOMode::UNKNOWN.to_wire(), 0);
    assert_eq!(GPIOMode::OUTPUT.to_wire(), 1);
    assert_eq!(GPIOMode::INPUT.to_wire(), 2);
    assert_eq!(GPIOMode::ANALOG.to_wire(), 3);
    assert_eq!(GPIOMode::PWM.to_wire(), 4);
}

#[test]
fn mode_wire_round_trip() {
    let modes = [
        GPIOMode::UNKNOWN,
        GPIOMode::OUTPUT,
        GPIOMode::INPUT,
        GPIOMode::ANALOG,
        GPIOMode::PWM,
    ];
    for mode in modes {
        assert_eq!(GPIOMode::from_wire(mode.to_wire()), Some(mode));
    }
    assert_eq!(GPIOMode::from_wire(5), None);
    assert_eq!(GPIOMode::from_wire(u32::MAX), None);
}

#[test]
fn mode_names() {
    assert_eq!(GPIOMode::UNKNOWN.name(), "Unknown");
    assert_eq!(GPIOMode::OUTPUT.name(), "Output");
    assert_eq!(GPIOMode::INPUT.name(), "Input");
    assert_eq!(GPIOMode::ANALOG.name(), "Analog");
    assert_eq!(GPIOMode::PWM.name(), "PWM");
}

#[test]
fn level_names() {
    assert_eq!(GPIOValueLevel::LOW.name(), "LOW");
    assert_eq!(GPIOValueLevel::HIGH.name(), "HIGH");
}

#[test]
fn decimal_rendering() {
    assert_eq!(u8_to_dec(0), "0");
    assert_eq!(u8_to_dec(7), "7");
    assert_eq!(u8_to_dec(10), "10");
    assert_eq!(u8_to_dec(42), "42");
    assert_eq!(u8_to_dec(99), "99");
    assert_eq!(u8_to_dec(100), "100");
    assert_eq!(u8_to_dec(255), "255");
}

#[test]
fn value_descriptions() {
    assert_eq!(GPIOValue::NONE.describe(), "None");
    assert_eq!(GPIOValue::LEVEL(GPIOValueLevel::HIGH).describe(), "HIGH");
    assert_eq!(GPIOValue::LEVEL(GPIOValueLevel::LOW).describe(), "LOW");
    assert_eq!(GPIOValue::ANALOG(42).describe(), "42");
    assert_eq!(GPIOValue::PWM(0, 0).describe(), "(0Hz, 0%)");
    assert_eq!(GPIOValue::PWM(50, 128).describe(), "(50Hz, 50%)");
    assert_eq!(GPIOValue::PWM(1000, 255).describe(), "(1000Hz, 100%)");
    assert_eq!(
        GPIOValue::PWM(340282366920938463463374607431768211455, 3).describe(),
        "(340282366920938463463374607431768211455Hz, 1%)"
    );
}

#[test]
fn error_messages() {
    assert_eq!(GPIOError::ArgError.message(), "Argument Error.");
    assert_eq!(GPIOError::InternalError.message(), "Internal Error.");
    assert_eq!(GPIOError::PinNotFound(5).message(), "PinNotFound: No pin 5.");
    assert_eq!(
        GPIOError::PinExists(27).message(),
        "PinExists: Already exists pin 27."
    );
    assert_eq!(
        GPIOError::PinUnmatch(3, GPIOMode::OUTPUT).message(),
        "PinUnmatch: Pin 3 not matched to mode Output."
    );
    assert_eq!(
        GPIOError::PinUnreadable(255).message(),
        "PinUnreadable: Pin 255 is not readable."
    );
    assert_eq!(
        GPIOError::PinUnwriteable(0).message(),
        "PinUnwriteable: Pin 0 is not writeable."
    );
}

#[test]
fn flag_envelope() {
    let ok = boat3_server::controller::flag_response(Ok(()));
    assert_eq!(ok.ok, Some(true));
    assert_eq!(ok.error, None);
    assert_eq!(ok.data, Some(true));
    let err = boat3_server::controller::flag_response(Err(GPIOError::PinExists(4)));
    assert_eq!(err.ok, Some(false));
    assert_eq!(err.error.as_deref(), Some("PinExists: Already exists pin 4."));
    assert_eq!(err.data, Some(true));
}

#[test]
fn value_envelope() {
    let ok =
        boat3_server::controller::value_response(Ok(GPIOValue::LEVEL(GPIOValueLevel::HIGH)));
    assert_eq!(ok.ok, Some(true));
    assert_eq!(ok.error, None);
    assert_eq!(ok.data, Some(GPIOValue::LEVEL(GPIOValueLevel::HIGH)));
    let err = boat3_server::controller::value_response(Err(GPIOError::PinUnreadable(2)));
    assert_eq!(err.ok, Some(false));
    assert_eq!(err.error.as_deref(), Some("PinUnreadable: Pin 2 is not readable."));
    assert_eq!(err.data, None);
}

#[test]
fn response_envelope_fields() {
    let response: RemoteResponse<bool> = RemoteResponse {
        ok: Some(false),
        error: Some(GPIOError::PinNotFound(9).message()),
        data: None,
    };
    assert_eq!(response.ok, Some(false));
    assert_eq!(response.error.as_deref(), Some("PinNotFound: No pin 9."));
    assert_eq!(response.data, None);
}
