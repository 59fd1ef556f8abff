//! GPIO pin control: a verified core for pin lifecycle management and
//! edge-triggered readiness multiplexing.
//!
//! The library models the logical side of GPIO access: binary values and
//! their wire encodings, pin direction and edge policies, the request
//! sequences a pin handle must issue against the kernel's virtual
//! filesystem, and the slot registry that maps readiness notifications
//! back to registered handles. Unverified shells perform the actual
//! filesystem and event-notification calls and feed their outcomes back
//! into the verified logic.

use vstd::prelude::*;

pub mod dummy;
pub mod mux;
pub mod sysfs;

verus! {

/// A value read from or written to a GPIO port.
#[derive(Debug, Copy, Clone, Eq, PartialEq, Structural)]
pub enum GpioValue {
    /// A low value, usually 0 V.
    Low,
    /// A high value, commonly 3.3 V or 5 V.
    High,
}

/// A setting for signaling an interrupt on an input pin.
#[derive(Debug, Copy, Clone, Eq, PartialEq)]
pub enum GpioEdge {
    /// No interrupt.
    NoInterrupt,
    /// Interrupt on rising edge, i.e. when going from 0 to 1.
    Rising,
    /// Interrupt on falling edge, i.e. when going from 1 to 0.
    Falling,
    /// Interrupt on both edges, i.e. whenever the value changes.
    Both,
}

/// Everything that can go wrong while driving a pin or waiting for edges.
#[derive(Debug, Copy, Clone, Eq, PartialEq)]
pub enum GpioError {
    /// An underlying filesystem operation failed (export, polarity,
    /// direction, value or edge access).
    IoFailure,
    /// The value channel produced a byte that is neither `'0'` nor `'1'`;
    /// the offending byte is carried along.
    InvalidValueByte(u8),
    /// Creating, registering with, or waiting on the kernel event
    /// notification context failed.
    NotificationFailure,
    /// A wait woke up with an event count other than exactly one; the
    /// count is carried along.
    UnexpectedEventCount(usize),
    /// A wait woke up with a correlation token that maps to no registered
    /// handle; the token is carried along.
    UnexpectedCorrelationToken(u64),
    /// A bounded wait elapsed with no event. This is a normal, recoverable
    /// outcome: the next wait may succeed.
    Timeout,
}

/// Shorthand for results whose error side is [`GpioError`].
pub type GpioResult<T> = Result<T, GpioError>;

/// The logical value a boolean stands for: `false` is `Low`, `true` is `High`.
pub open spec fn spec_value_of_bool(val: bool) -> GpioValue {
    if val {
        GpioValue::High
    } else {
        GpioValue::Low
    }
}

/// The logical value a byte stands for: zero is `Low`, anything else `High`.
pub open spec fn spec_value_of_u8(val: u8) -> GpioValue {
    if val != 0 {
        GpioValue::High
    } else {
        GpioValue::Low
    }
}

/// The boolean a logical value stands for.
pub open spec fn spec_bool_of_value(val: GpioValue) -> bool {
    val is High
}

/// The canonical byte of a logical value: `Low` is 0, `High` is 1.
pub open spec fn spec_u8_of_value(val: GpioValue) -> u8 {
    match val {
        GpioValue::Low => 0,
        GpioValue::High => 1,
    }
}

impl From<bool> for GpioValue {
    fn from(val: bool) -> (r: GpioValue)
        ensures
            r == spec_value_of_bool(val),
    {
        if val {
            GpioValue::High
        } else {
            GpioValue::Low
        }
    }
}

impl vstd::std_specs::convert::FromSpecImpl<bool> for GpioValue {
    open spec fn obeys_from_spec() -> bool {
        true
    }

    open spec fn from_spec(val: bool) -> GpioValue {
        spec_value_of_bool(val)
    }
}

impl From<u8> for GpioValue {
    fn from(val: u8) -> (r: GpioValue)
        ensures
            r == spec_value_of_u8(val),
    {
        if val != 0 {
            GpioValue::High
        } else {
            GpioValue::Low
        }
    }
}

impl vstd::std_specs::convert::FromSpecImpl<u8> for GpioValue {
    open spec fn obeys_from_spec() -> bool {
        true
    }

    open spec fn from_spec(val: u8) -> GpioValue {
        spec_value_of_u8(val)
    }
}

impl From<GpioValue> for bool {
    fn from(val: GpioValue) -> (r: bool)
        ensures
            r == spec_bool_of_value(val),
    {
        match val {
            GpioValue::Low => false,
            GpioValue::High => true,
        }
    }
}

impl vstd::std_specs::convert::FromSpecImpl<GpioValue> for bool {
    open spec fn obeys_from_spec() -> bool {
        true
    }

    open spec fn from_spec(val: GpioValue) -> bool {
        spec_bool_of_value(val)
    }
}

impl From<GpioValue> for u8 {
    fn from(val: GpioValue) -> (r: u8)
        ensures
            r == spec_u8_of_value(val),
    {
        match val {
            GpioValue::Low => 0,
            GpioValue::High => 1,
        }
    }
}

impl vstd::std_specs::convert::FromSpecImpl<GpioValue> for u8 {
    open spec fn obeys_from_spec() -> bool {
        true
    }

    open spec fn from_spec(val: GpioValue) -> u8 {
        spec_u8_of_value(val)
    }
}

/// Converting a logical value to a boolean and back yields the value again.
pub proof fn lemma_bool_round_trip(val: GpioValue)
    ensures
        spec_value_of_bool(spec_bool_of_value(val)) == val,
{
}

/// Converting a logical value to its canonical byte and back yields the
/// value again.
pub proof fn lemma_u8_round_trip(val: GpioValue)
    ensures
        spec_value_of_u8(spec_u8_of_value(val)) == val,
{
}

/// Supports sending `GpioValue`s.
pub trait GpioOut {
    /// Errors that can occur during initialization of or writing to GPIO.
    type Error;

    /// Sets the output value of the GPIO port.
    fn set_value<T: Into<GpioValue> + Copy>(&mut self, value: T) -> Result<(), Self::Error> {
        match value.into() {
            GpioValue::High => self.set_high(),
            GpioValue::Low => self.set_low(),
        }
    }

    /// Set the GPIO port to a low output value directly.
    fn set_low(&mut self) -> Result<(), Self::Error>;

    /// Set the GPIO port to a high output value directly.
    fn set_high(&mut self) -> Result<(), Self::Error>;
}

/// Supports reading `GpioValue`s.
pub trait GpioIn {
    /// Errors that can occur during initialization of or reading from GPIO.
    type Error;

    /// Perform a single reading of a GPIO port.
    fn read_value(&self) -> Result<GpioValue, Self::Error>;

    /// Configure the criterion for signaling an interrupt.
    fn set_edge(&mut self, edge: GpioEdge) -> Result<(), Self::Error>;
}

} // verus!
