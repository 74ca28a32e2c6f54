//! The four-state value domain carried on every wire, and the
//! conditions a component can surface during a tick.

use vstd::prelude::*;

verus! {

/// The unsigned machine word carried by a concrete signal.
pub type SignalUnsigned = u32;

/// The signed reinterpretation of a signal word.
pub type SignalSigned = i32;

/// A value on a wire: either a concrete 32-bit word or one of three
/// non-data states.  Arithmetic consumers must never coerce a
/// non-data state to zero; conversions are only valid from `Data`.
#[derive(Clone, Copy, Debug, PartialEq, Eq, Structural)]
pub enum SignalValue {
    /// No value has ever been driven onto the wire.
    Uninitialized,
    /// The producer could not determine a concrete value.
    Unknown,
    /// The value is irrelevant to every consumer this tick.
    DontCare,
    /// A concrete 32-bit word.
    Data(SignalUnsigned),
}

/// A condition surfaced by a component's tick, following the error
/// taxonomy of the evaluation engine: recognized-but-unimplemented
/// operations are recoverable; the others report invalid input
/// combinations that abort the component's evaluation for this tick
/// without corrupting any state.
#[derive(Clone, Copy, Debug, PartialEq, Eq, Structural)]
pub enum Condition {
    /// A recognized control code whose operation is not implemented.
    Unimplemented,
    /// A non-`Data` signal arrived where a concrete integer is required.
    NotData,
    /// An access width outside {1, 2, 4}.
    IllegalSize,
    /// A control code outside the recognized set.
    InvalidControl,
    /// An access that would run past the end of the addressable space.
    OutOfRange,
}

impl SignalValue {
    /// Constructs a concrete signal from a signed integer, carrying
    /// its two's-complement bit pattern.
    pub fn from_signed(v: SignalSigned) -> (r: SignalValue)
        ensures
            r == SignalValue::Data(v as u32),
    {
        SignalValue::Data(v as u32)
    }

    /// Attempts conversion to an unsigned integer; only a `Data`
    /// value converts, every other state is reported as `NotData`.
    pub fn try_to_unsigned(&self) -> (r: Result<SignalUnsigned, Condition>)
        ensures
            self is Data ==> r == Result::<SignalUnsigned, Condition>::Ok(self->Data_0),
            !(self is Data) ==> r == Result::<SignalUnsigned, Condition>::Err(Condition::NotData),
    {
        match self {
            SignalValue::Data(d) => Ok(*d),
            _ => Err(Condition::NotData),
        }
    }

    /// Attempts conversion to a signed integer (the two's-complement
    /// reading of the data word); non-`Data` states are `NotData`.
    pub fn try_to_signed(&self) -> (r: Result<SignalSigned, Condition>)
        ensures
            self is Data ==> r == Result::<SignalSigned, Condition>::Ok(self->Data_0 as i32),
            !(self is Data) ==> r == Result::<SignalSigned, Condition>::Err(Condition::NotData),
    {
        match self {
            SignalValue::Data(d) => Ok(*d as i32),
            _ => Err(Condition::NotData),
        }
    }
}

} // verus!
