use vstd::prelude::*;
use crate::digits::{dec_string, spec_decimal};

verus! {

/// The seventeen fixed region codes of the forecast source. Chosen once at
/// startup and fixed for the process lifetime.
#[derive(Clone, Copy, Debug, PartialEq, Eq, Structural)]
pub enum RegionId {
    NorthScotland,
    SouthScotland,
    NorthWestEngland,
    NorthEastEngland,
    SouthYorkshire,
    NorthWales,
    SouthWales,
    WestMidlands,
    EastMidlands,
    EastEngland,
    SouthWestEngland,
    SouthEngland,
    London,
    SouthEastEngland,
    England,
    Scotland,
    Wales,
}

impl RegionId {
    /// The numeric code under which the source knows the region.
    pub open spec fn spec_code(self) -> u16 {
        match self {
            RegionId::NorthScotland => 1,
            RegionId::SouthScotland => 2,
            RegionId::NorthWestEngland => 3,
            RegionId::NorthEastEngland => 4,
            RegionId::SouthYorkshire => 5,
            RegionId::NorthWales => 6,
            RegionId::SouthWales => 7,
            RegionId::WestMidlands => 8,
            RegionId::EastMidlands => 9,
            RegionId::EastEngland => 10,
            RegionId::SouthWestEngland => 11,
            RegionId::SouthEngland => 12,
            RegionId::London => 13,
            RegionId::SouthEastEngland => 14,
            RegionId::England => 15,
            RegionId::Scotland => 16,
            RegionId::Wales => 17,
        }
    }

    pub fn code(self) -> (r: u16)
        ensures
            r == self.spec_code(),
            1 <= r <= 17,
    {
        match self {
            RegionId::NorthScotland => 1,
            RegionId::SouthScotland => 2,
            RegionId::NorthWestEngland => 3,
            RegionId::NorthEastEngland => 4,
            RegionId::SouthYorkshire => 5,
            RegionId::NorthWales => 6,
            RegionId::SouthWales => 7,
            RegionId::WestMidlands => 8,
            RegionId::EastMidlands => 9,
            RegionId::EastEngland => 10,
            RegionId::SouthWestEngland => 11,
            RegionId::SouthEngland => 12,
            RegionId::London => 13,
            RegionId::SouthEastEngland => 14,
            RegionId::England => 15,
            RegionId::Scotland => 16,
            RegionId::Wales => 17,
        }
    }

    /// The region of a numeric code: exactly the codes one to seventeen
    /// name a region.
    pub fn from_code(code: u16) -> (r: Option<RegionId>)
        ensures
            match r {
                Some(region) => region.spec_code() == code,
                None => !(1 <= code <= 17),
            },
    {
        match code {
            1 => Some(RegionId::NorthScotland),
            2 => Some(RegionId::SouthScotland),
            3 => Some(RegionId::NorthWestEngland),
            4 => Some(RegionId::NorthEastEngland),
            5 => Some(RegionId::SouthYorkshire),
            6 => Some(RegionId::NorthWales),
            7 => Some(RegionId::SouthWales),
            8 => Some(RegionId::WestMidlands),
            9 => Some(RegionId::EastMidlands),
            10 => Some(RegionId::EastEngland),
            11 => Some(RegionId::SouthWestEngland),
            12 => Some(RegionId::SouthEngland),
            13 => Some(RegionId::London),
            14 => Some(RegionId::SouthEastEngland),
            15 => Some(RegionId::England),
            16 => Some(RegionId::Scotland),
            17 => Some(RegionId::Wales),
            _ => None,
        }
    }
}

/// The fetch address: the fixed template with the numeric region code
/// substituted at its end.
pub open spec fn sp_endpoint_url(region: RegionId) -> Seq<char> {
    "https://api.carbonintensity.org.uk/regional/regionid/"@ + spec_decimal(
        region.spec_code() as nat,
    )
}

pub fn endpoint_url(region: RegionId) -> (r: String)
    ensures
        r@ == sp_endpoint_url(region),
{
    let mut s: String = "https://api.carbonintensity.org.uk/regional/regionid/".to_owned();
    let d = dec_string(region.code() as u32);
    s.append(d.as_str());
    s
}

} // verus!
