use vstd::prelude::*;

verus! {

/// Ordinal classification of the emission rate, from least to most intense.
///
/// The data source reports the level as a case-sensitive lowercase label;
/// anything other than the four known labels is a decode failure, never a
/// default.
#[derive(Clone, Copy, Debug, PartialEq, Eq, PartialOrd, Ord, Structural)]
pub enum Intensity {
    Low,
    Moderate,
    High,
    VeryHigh,
}

/// A reading taken from one forecast window: the classified level together
/// with the numeric emission-rate forecast. Immutable once constructed and
/// copied freely.
#[derive(Clone, Copy, Debug, PartialEq, Eq, Structural)]
pub struct IntensitySnapshot {
    pub level: Intensity,
    pub forecast_value: u32,
}

impl Intensity {
    /// Position of the level in the total order, `Low` first.
    pub open spec fn spec_ordinal(self) -> u8 {
        match self {
            Intensity::Low => 0,
            Intensity::Moderate => 1,
            Intensity::High => 2,
            Intensity::VeryHigh => 3,
        }
    }

    pub fn ordinal(self) -> (r: u8)
        ensures
            r == self.spec_ordinal(),
    {
        match self {
            Intensity::Low => 0,
            Intensity::Moderate => 1,
            Intensity::High => 2,
            Intensity::VeryHigh => 3,
        }
    }

    /// The lowercase label under which the data source reports this level.
    pub open spec fn spec_label(self) -> Seq<char> {
        match self {
            Intensity::Low => "low"@,
            Intensity::Moderate => "moderate"@,
            Intensity::High => "high"@,
            Intensity::VeryHigh => "very high"@,
        }
    }

    /// The capitalised display name of the level.
    pub open spec fn spec_name(self) -> Seq<char> {
        match self {
            Intensity::Low => "Low"@,
            Intensity::Moderate => "Moderate"@,
            Intensity::High => "High"@,
            Intensity::VeryHigh => "VeryHigh"@,
        }
    }

    /// Decodes a source label. Exactly the four known lowercase labels map to
    /// a level; every other string is refused.
    pub fn from_label(s: &str) -> (r: Option<Intensity>)
        ensures
            r == sp_level_of_label(s@),
    {
        if str_eq(s, "low") {
            Some(Intensity::Low)
        } else if str_eq(s, "moderate") {
            Some(Intensity::Moderate)
        } else if str_eq(s, "high") {
            Some(Intensity::High)
        } else if str_eq(s, "very high") {
            Some(Intensity::VeryHigh)
        } else {
            None
        }
    }

    pub fn name(self) -> (r: &'static str)
        ensures
            r@ == self.spec_name(),
    {
        match self {
            Intensity::Low => "Low",
            Intensity::Moderate => "Moderate",
            Intensity::High => "High",
            Intensity::VeryHigh => "VeryHigh",
        }
    }
}

/// The level a source label denotes, if any.
pub open spec fn sp_level_of_label(s: Seq<char>) -> Option<Intensity> {
    if s == "low"@ {
        Some(Intensity::Low)
    } else if s == "moderate"@ {
        Some(Intensity::Moderate)
    } else if s == "high"@ {
        Some(Intensity::High)
    } else if s == "very high"@ {
        Some(Intensity::VeryHigh)
    } else {
        None
    }
}

/// A string other than the four known labels never decodes to a level:
/// there is no default.
pub proof fn law_unknown_label_refused(s: Seq<char>)
    requires
        forall|level: Intensity| s != level.spec_label(),
    ensures
        sp_level_of_label(s) is None,
{
    assert(s != Intensity::Low.spec_label());
    assert(s != Intensity::Moderate.spec_label());
    assert(s != Intensity::High.spec_label());
    assert(s != Intensity::VeryHigh.spec_label());
}

/// Each level's own label decodes back to that level and to no other.
pub proof fn law_label_round_trip(level: Intensity)
    ensures
        sp_level_of_label(level.spec_label()) == Some(level),
{
    reveal_strlit("low");
    reveal_strlit("moderate");
    reveal_strlit("high");
    reveal_strlit("very high");
    assert("low"@.len() == 3);
    assert("moderate"@.len() == 8);
    assert("high"@.len() == 4);
    assert("very high"@.len() == 9);
    match level {
        Intensity::Low => {
            assert(sp_level_of_label("low"@) == Some(Intensity::Low));
        },
        Intensity::Moderate => {
            assert("moderate"@ != "low"@);
            assert(sp_level_of_label("moderate"@) == Some(Intensity::Moderate));
        },
        Intensity::High => {
            assert("high"@ != "low"@ && "high"@ != "moderate"@);
            assert(sp_level_of_label("high"@) == Some(Intensity::High));
        },
        Intensity::VeryHigh => {
            assert("very high"@ != "low"@ && "very high"@ != "moderate"@ && "very high"@
                != "high"@);
            assert(sp_level_of_label("very high"@) == Some(Intensity::VeryHigh));
        },
    }
}

/// Character-for-character equality of two string slices.
pub(crate) fn str_eq(a: &str, b: &str) -> (r: bool)
    ensures
        r == (a@ == b@),
{
    let x: String = a.to_owned();
    let y: String = b.to_owned();
    x == y
}

} // verus!
