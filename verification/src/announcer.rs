use vstd::prelude::*;
use crate::digits::{dec_string, spec_decimal};
use crate::intensity::IntensitySnapshot;

verus! {

/// The fixed text of one post: the level's display name and the numeric
/// forecast value embedded in the template sentence.
pub open spec fn sp_announce_text(s: IntensitySnapshot) -> Seq<char> {
    "The current carbon intensity for London is "@ + s.level.spec_name()
        + " with approximately "@ + spec_decimal(s.forecast_value as nat) + " gCO2/KWh."@
}

pub fn announce_text(s: IntensitySnapshot) -> (r: String)
    ensures
        r@ == sp_announce_text(s),
{
    let mut t: String = "The current carbon intensity for London is ".to_owned();
    t.append(s.level.name());
    t.append(" with approximately ");
    let d = dec_string(s.forecast_value);
    t.append(d.as_str());
    t.append(" gCO2/KWh.");
    t
}

/// One timer tick of the announcer: with a current value present, post its
/// text; with none (nothing fetched yet), stay idle. The announcer posts the
/// latest known value every interval, changed or not; a post failure is
/// logged by the caller and the cadence continues either way.
pub fn announce_tick(current: Option<IntensitySnapshot>) -> (r: Option<String>)
    ensures
        match current {
            Some(s) => r matches Some(t) && t@ == sp_announce_text(s),
            None => r is None,
        },
{
    match current {
        Some(s) => Some(announce_text(s)),
        None => None,
    }
}

} // verus!
