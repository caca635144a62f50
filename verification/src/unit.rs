use vstd::prelude::*;
use vstd::utf8::*;
use crate::error::ErrorValue;
use crate::raw::{RawLedState, LED_COLOR_AMBER, LED_COLOR_GREEN, NVML_SUCCESS};
use crate::text::{cause_text, nul_prefix};

verus! {

/// LED states for an S-class unit.
#[derive(Debug, PartialEq)]
pub enum UnitLedState {
    /// Indicates good health.
    Green,
    /// Indicates a problem along with the accompanying cause.
    Amber(String),
}

/// What converting a raw LED struct must yield: each recognized discriminant
/// maps to exactly one safe variant, a cause buffer that fails text
/// validation yields `EncodingFailure`, and an unrecognized discriminant
/// yields `UnrecognizedValue` carrying the raw value — never a default.
pub open spec fn led_conversion(raw: RawLedState, r: Result<UnitLedState, ErrorValue>) -> bool {
    if raw.color == LED_COLOR_GREEN {
        r == Ok::<UnitLedState, ErrorValue>(UnitLedState::Green)
    } else if raw.color == LED_COLOR_AMBER {
        if valid_utf8(nul_prefix(raw.cause@)) {
            r matches Ok(UnitLedState::Amber(c)) && c@ == decode_utf8(nul_prefix(raw.cause@))
        } else {
            r == Err::<UnitLedState, ErrorValue>(ErrorValue::EncodingFailure)
        }
    } else {
        r == Err::<UnitLedState, ErrorValue>(ErrorValue::UnrecognizedValue(raw.color))
    }
}

impl UnitLedState {
    /// Fallible conversion from the raw LED struct the native library fills.
    ///
    /// A green LED carries no payload; an amber LED carries its cause, read
    /// as a null-terminated byte sequence and validated as text.
    pub fn try_from(raw: RawLedState) -> (r: Result<UnitLedState, ErrorValue>)
        ensures
            led_conversion(raw, r),
    {
        if raw.color == LED_COLOR_GREEN {
            Ok(UnitLedState::Green)
        } else if raw.color == LED_COLOR_AMBER {
            match cause_text(raw.cause.as_slice()) {
                Ok(c) => Ok(UnitLedState::Amber(c)),
                Err(e) => Err(e),
            }
        } else {
            Err(ErrorValue::UnrecognizedValue(raw.color))
        }
    }
}

/// The type of temperature reading to take for a `Unit`.
///
/// Available readings depend on the product.
#[derive(Clone, Copy, Debug, PartialEq, Eq, Structural)]
pub enum UnitTemperatureReading {
    Intake,
    Exhaust,
    Board,
}

impl UnitTemperatureReading {
    /// The raw wire value the native library expects for this reading type.
    pub open spec fn raw_value(self) -> u32 {
        match self {
            UnitTemperatureReading::Intake => 0,
            UnitTemperatureReading::Exhaust => 1,
            UnitTemperatureReading::Board => 2,
        }
    }

    /// The raw wire value for this reading type, for handing to the native
    /// entry point.
    pub fn as_raw(self) -> (v: u32)
        ensures
            v == self.raw_value(),
    {
        match self {
            UnitTemperatureReading::Intake => 0,
            UnitTemperatureReading::Exhaust => 1,
            UnitTemperatureReading::Board => 2,
        }
    }

    /// Fallible conversion from the raw wire value; a value outside the
    /// known set is rejected, never defaulted.
    pub fn try_from(v: u32) -> (r: Result<UnitTemperatureReading, ErrorValue>)
        ensures
            v <= 2 ==> (r matches Ok(t) && t.raw_value() == v),
            v > 2 ==> r == Err::<UnitTemperatureReading, ErrorValue>(
                ErrorValue::UnrecognizedValue(v),
            ),
    {
        if v == 0 {
            Ok(UnitTemperatureReading::Intake)
        } else if v == 1 {
            Ok(UnitTemperatureReading::Exhaust)
        } else if v == 2 {
            Ok(UnitTemperatureReading::Board)
        } else {
            Err(ErrorValue::UnrecognizedValue(v))
        }
    }
}

/// Owns one opaque native handle identifying an S-class unit.
///
/// The token moves, never copies: the handle stays exclusively owned by the
/// wrapper instance that obtained it, and no method retains raw native
/// memory beyond its own call.
#[derive(Debug)]
pub struct Unit {
    handle: u64,
}

impl Unit {
    /// The owned handle token, as ghost state.
    pub closed spec fn spec_handle(self) -> u64 {
        self.handle
    }

    /// Wraps a handle freshly obtained from the native library.
    pub fn new(handle: u64) -> (unit: Unit)
        ensures
            unit.spec_handle() == handle,
    {
        Unit { handle }
    }

    /// The raw handle token, for passing to a native entry point.
    pub fn handle(&self) -> (h: u64)
        ensures
            h == self.spec_handle(),
    {
        self.handle
    }

    /// The typed tail of the LED-state accessor: the native entry point has
    /// been invoked with this unit's handle and has produced a status code
    /// and a raw struct; this step checks the status against the success
    /// sentinel and converts the raw struct.
    ///
    /// A non-success status is returned verbatim as `NativeFailure` and no
    /// safe variant is constructed from the raw struct.
    pub fn led_state(&self, status: u32, raw: RawLedState) -> (r: Result<UnitLedState, ErrorValue>)
        ensures
            status == NVML_SUCCESS ==> led_conversion(raw, r),
            status != NVML_SUCCESS ==> r == Err::<UnitLedState, ErrorValue>(
                ErrorValue::NativeFailure(status),
            ),
    {
        if status != NVML_SUCCESS {
            Err(ErrorValue::NativeFailure(status))
        } else {
            UnitLedState::try_from(raw)
        }
    }
}

} // verus!
