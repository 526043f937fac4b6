use vstd::prelude::*;
use crate::error::UpdateError;
use crate::params::{ParamMap, ParamValue};

verus! {

/// A `voltage_value` argument of a type that can be scaled.
#[derive(Debug, PartialEq)]
pub enum VoltageInput {
    Unsigned(u64),
    /// A binary64 voltage, as its bit pattern.
    F64Bits(u64),
}

/// Where the output code comes from.
#[derive(Debug, PartialEq)]
pub enum ValueSource {
    /// The code itself, taken from `raw_value`.
    Raw(u32),
    /// A voltage still to be scaled by the channel's calibration.
    Voltage(VoltageInput),
}

pub open spec fn raw_value_key() -> Seq<char> {
    "raw_value"@
}

pub open spec fn voltage_value_key() -> Seq<char> {
    "voltage_value"@
}

/// The output code's source for the arguments `args`: an unsigned `raw_value`
/// comes first and is cut to 32 bits; else a `voltage_value` that is unsigned
/// or a float; else nothing usable.
pub open spec fn value_source_of(args: Map<Seq<char>, ParamValue>) -> Result<ValueSource, UpdateError> {
    if args.contains_key(raw_value_key()) && args[raw_value_key()] is U64 {
        Ok(ValueSource::Raw(args[raw_value_key()]->U64_0 as u32))
    } else if args.contains_key(voltage_value_key()) {
        match args[voltage_value_key()] {
            ParamValue::U64(v) => Ok(ValueSource::Voltage(VoltageInput::Unsigned(v))),
            ParamValue::F64Bits(b) => Ok(ValueSource::Voltage(VoltageInput::F64Bits(b))),
            _ => Err(UpdateError::InvalidValueParameters),
        }
    } else {
        Err(UpdateError::InvalidValueParameters)
    }
}

/// Picks the source of the output code among the request's arguments.
pub fn value_source(arguments: &ParamMap) -> (r: Result<ValueSource, UpdateError>)
    ensures
        r == value_source_of(arguments@),
{
    if let Some(ParamValue::U64(raw)) = arguments.get("raw_value") {
        return Ok(ValueSource::Raw(*raw as u32));
    }
    match arguments.get("voltage_value") {
        Some(ParamValue::U64(v)) => Ok(ValueSource::Voltage(VoltageInput::Unsigned(*v))),
        Some(ParamValue::F64Bits(b)) => Ok(ValueSource::Voltage(VoltageInput::F64Bits(*b))),
        _ => Err(UpdateError::InvalidValueParameters),
    }
}

/// An unsigned `raw_value` decides the code alone: it is the code, cut to
/// 32 bits, whatever `voltage_value` holds and whatever the calibration says.
pub proof fn lemma_raw_value_precedence(args: Map<Seq<char>, ParamValue>, raw: u64)
    requires
        args.contains_key(raw_value_key()),
        args[raw_value_key()] == ParamValue::U64(raw),
    ensures
        value_source_of(args) == Ok::<ValueSource, UpdateError>(ValueSource::Raw(raw as u32)),
        forall|v: ParamValue|
            value_source_of(#[trigger] args.insert(voltage_value_key(), v)) == value_source_of(args),
        (raw as u32) as int == raw as int % 0x1_0000_0000,
{
    assert(raw_value_key() != voltage_value_key()) by {
        reveal_strlit("raw_value");
        reveal_strlit("voltage_value");
        assert(raw_value_key()[0] != voltage_value_key()[0]);
    }
    assert((raw as u32) as u64 == raw % 0x1_0000_0000) by (bit_vector);
}

} // verus!
