//! Enumerations of the remote market API's schema.

use vstd::prelude::*;
use vstd::string::*;

verus! {

/// The side of a bet: YES, NO, or another outcome named by the market (the
/// id of an answer, or a numeric bucket).
#[derive(Debug, Clone, PartialEq, Eq, Hash)]
pub enum MarketOutcome {
    Yes,
    No,
    Other(String),
}

/// The text of an outcome: `YES`, `NO`, or the other outcome's own name.
pub open spec fn outcome_text(o: MarketOutcome) -> Seq<char> {
    match o {
        MarketOutcome::Yes => "YES"@,
        MarketOutcome::No => "NO"@,
        MarketOutcome::Other(s) => s@,
    }
}

impl MarketOutcome {
    /// The outcome as the API writes it.
    pub fn to_string(&self) -> (r: String)
        ensures
            r@ == outcome_text(*self),
    {
        match self {
            MarketOutcome::Yes => String::from_str("YES"),
            MarketOutcome::No => String::from_str("NO"),
            MarketOutcome::Other(s) => s.clone(),
        }
    }
}

/// How a market prices its shares (`NoMechanism`: the API's `none`).
#[derive(Debug, Clone, Copy, PartialEq, Eq, Hash, Structural)]
pub enum MarketMechanism {
    Cpmm,
    CpmmMulti,
    Dpm,
    NoMechanism,
}

/// The kind of question a market asks.
#[derive(Debug, Clone, Copy, PartialEq, Eq, Hash, Structural)]
pub enum MarketOutcomeType {
    Binary,
    FreeResponse,
    MultipleChoice,
    Numeric,
    PseudoNumeric,
    Stonk,
    Poll,
    BountiedQuestion,
}

/// Who can see a bet.
#[derive(Debug, Clone, Copy, PartialEq, Eq, Hash, Structural)]
pub enum Visibility {
    Public,
    Unlisted,
    Private,
}

/// Rich-text description of a market; its contents are not read.
#[derive(Debug, Clone, Copy, PartialEq, Eq, Structural)]
pub struct JSONContent {}

} // verus!
