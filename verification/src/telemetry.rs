//! Metric instruments: what is measured, under which name.
use vstd::prelude::*;

verus! {

/// How an instrument aggregates what it records.
#[derive(Debug, Clone, Copy, PartialEq, Eq, Structural)]
pub enum InstrumentKind {
    /// Distribution of durations or other fractions.
    FloatHistogram,
    /// Distribution of whole numbers.
    IntegerHistogram,
    /// Running total.
    Counter,
}

/// A metric instrument.
#[derive(Debug, Clone, Copy, PartialEq, Eq)]
pub struct Instrument {
    pub kind: InstrumentKind,
    pub name: &'static str,
    pub description: &'static str,
    pub unit: Option<&'static str>,
}

impl Instrument {
    /// Whether this is the instrument with the given kind, name, description and unit.
    pub open spec fn is(
        self,
        kind: InstrumentKind,
        name: Seq<char>,
        description: Seq<char>,
        unit: Option<Seq<char>>,
    ) -> bool {
        &&& self.kind == kind
        &&& self.name@ == name
        &&& self.description@ == description
        &&& match self.unit {
            Some(u) => unit == Some(u@),
            None => unit is None,
        }
    }
}

} // verus!
