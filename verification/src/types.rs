//! Typed domain model of the upstream API payload, with the exact wire forms
//! of its two closed enumerations.

use vstd::prelude::*;
use crate::errors::DecodeError;
use crate::strutil::str_eq;
use crate::timestamp::Timestamp;

verus! {

broadcast use vstd::string::group_string_axioms;

/// Outer envelope of the upstream response: an ordered sequence of regions
/// under the `data` key.  The consumer uses only the first element.
#[derive(Debug, Clone, PartialEq, Eq)]
pub struct Data<T> {
    pub data: Vec<T>,
}

impl<T> Data<T> {
    /// First element of the envelope, if any.
    pub fn first(&self) -> (r: Option<&T>)
        ensures
            self.data@.len() == 0 <==> r is None,
            r matches Some(v) ==> *v == self.data@[0],
    {
        if self.data.len() == 0 {
            None
        } else {
            Some(&self.data[0])
        }
    }
}

/// Categorical carbon-intensity level, ordered from least to most severe.
#[derive(Clone, Copy, Debug, PartialEq, Eq, Structural)]
pub enum IntensityIndex {
    VeryLow,
    Low,
    Moderate,
    High,
    VeryHigh,
}

/// Ordinal severity of an intensity level: `VeryLow` is 0, `VeryHigh` is 4.
pub open spec fn index_ordinal(i: IntensityIndex) -> int {
    match i {
        IntensityIndex::VeryLow => 0,
        IntensityIndex::Low => 1,
        IntensityIndex::Moderate => 2,
        IntensityIndex::High => 3,
        IntensityIndex::VeryHigh => 4,
    }
}

/// Wire form of an intensity level: lowercase, with a space in the two
/// multi-word levels.
pub open spec fn index_wire(i: IntensityIndex) -> Seq<char> {
    match i {
        IntensityIndex::VeryLow => "very low"@,
        IntensityIndex::Low => "low"@,
        IntensityIndex::Moderate => "moderate"@,
        IntensityIndex::High => "high"@,
        IntensityIndex::VeryHigh => "very high"@,
    }
}

impl IntensityIndex {
    /// Derived ordinal severity used for numeric metric export.
    pub fn metric_value(&self) -> (r: u8)
        ensures
            r as int == index_ordinal(*self),
            0 <= r <= 4,
    {
        match self {
            IntensityIndex::VeryLow => 0,
            IntensityIndex::Low => 1,
            IntensityIndex::Moderate => 2,
            IntensityIndex::High => 3,
            IntensityIndex::VeryHigh => 4,
        }
    }

    /// Decode the wire form of an intensity level.  The match is exact:
    /// any other token — different case, spacing, or word — is an
    /// [`DecodeError::UnknownVariant`] carrying the offending token.
    pub fn decode(s: &str) -> (r: Result<IntensityIndex, DecodeError>)
        ensures
            r matches Ok(v) ==> s@ == index_wire(v),
            forall|v: IntensityIndex| s@ == index_wire(v)
                ==> r == Ok::<IntensityIndex, DecodeError>(v),
            r matches Err(e) ==> e matches DecodeError::UnknownVariant { token } && token@ == s@,
    {
        let r: Result<IntensityIndex, DecodeError> = if str_eq(s, "very low") {
            Ok(IntensityIndex::VeryLow)
        } else if str_eq(s, "low") {
            Ok(IntensityIndex::Low)
        } else if str_eq(s, "moderate") {
            Ok(IntensityIndex::Moderate)
        } else if str_eq(s, "high") {
            Ok(IntensityIndex::High)
        } else if str_eq(s, "very high") {
            Ok(IntensityIndex::VeryHigh)
        } else {
            Err(DecodeError::UnknownVariant { token: s.to_owned() })
        };
        proof {
            reveal_strlit("very low");
            reveal_strlit("low");
            reveal_strlit("moderate");
            reveal_strlit("high");
            reveal_strlit("very high");
            assert("very low"@.len() == 8 && "very low"@[0] == 'v');
            assert("low"@.len() == 3 && "low"@[0] == 'l');
            assert("moderate"@.len() == 8 && "moderate"@[0] == 'm');
            assert("high"@.len() == 4 && "high"@[0] == 'h');
            assert("very high"@.len() == 9 && "very high"@[0] == 'v');
            assert forall|v: IntensityIndex| s@ == index_wire(v)
                implies r == Ok::<IntensityIndex, DecodeError>(v) by {
                match v {
                    IntensityIndex::VeryLow => assert(s@ == index_wire(v)
                        ==> r == Ok::<IntensityIndex, DecodeError>(v)),
                    IntensityIndex::Low => assert(s@ == index_wire(v)
                        ==> r == Ok::<IntensityIndex, DecodeError>(v)),
                    IntensityIndex::Moderate => assert(s@ == index_wire(v)
                        ==> r == Ok::<IntensityIndex, DecodeError>(v)),
                    IntensityIndex::High => assert(s@ == index_wire(v)
                        ==> r == Ok::<IntensityIndex, DecodeError>(v)),
                    IntensityIndex::VeryHigh => assert(s@ == index_wire(v)
                        ==> r == Ok::<IntensityIndex, DecodeError>(v)),
                }
            };
        }
        r
    }
}

/// The ordinal severity respects the intended strict order of the five
/// levels: `VeryLow < Low < Moderate < High < VeryHigh`, all within 0..=4.
pub proof fn lemma_index_ordinal_strictly_increasing()
    ensures
        index_ordinal(IntensityIndex::VeryLow) < index_ordinal(IntensityIndex::Low)
            < index_ordinal(IntensityIndex::Moderate) < index_ordinal(IntensityIndex::High)
            < index_ordinal(IntensityIndex::VeryHigh),
        forall|i: IntensityIndex| 0 <= #[trigger] index_ordinal(i) <= 4,
{
}

/// Fuel / power-source category of a generation-mix entry.
#[derive(Clone, Copy, Debug, PartialEq, Eq, Structural)]
pub enum PowerType {
    Gas,
    Coal,
    Biomass,
    Nuclear,
    Hydro,
    Imports,
    Other,
    Wind,
    Solar,
}

/// Wire form of a power source: the lowercase variant name.
pub open spec fn power_wire(p: PowerType) -> Seq<char> {
    match p {
        PowerType::Gas => "gas"@,
        PowerType::Coal => "coal"@,
        PowerType::Biomass => "biomass"@,
        PowerType::Nuclear => "nuclear"@,
        PowerType::Hydro => "hydro"@,
        PowerType::Imports => "imports"@,
        PowerType::Other => "other"@,
        PowerType::Wind => "wind"@,
        PowerType::Solar => "solar"@,
    }
}

impl PowerType {
    /// Decode the wire form of a power source.  The match is exact and
    /// case-sensitive: any other token is an
    /// [`DecodeError::UnknownVariant`] carrying the offending token.
    pub fn decode(s: &str) -> (r: Result<PowerType, DecodeError>)
        ensures
            r matches Ok(v) ==> s@ == power_wire(v),
            forall|v: PowerType| s@ == power_wire(v) ==> r == Ok::<PowerType, DecodeError>(v),
            r matches Err(e) ==> e matches DecodeError::UnknownVariant { token } && token@ == s@,
    {
        let r: Result<PowerType, DecodeError> = if str_eq(s, "gas") {
            Ok(PowerType::Gas)
        } else if str_eq(s, "coal") {
            Ok(PowerType::Coal)
        } else if str_eq(s, "biomass") {
            Ok(PowerType::Biomass)
        } else if str_eq(s, "nuclear") {
            Ok(PowerType::Nuclear)
        } else if str_eq(s, "hydro") {
            Ok(PowerType::Hydro)
        } else if str_eq(s, "imports") {
            Ok(PowerType::Imports)
        } else if str_eq(s, "other") {
            Ok(PowerType::Other)
        } else if str_eq(s, "wind") {
            Ok(PowerType::Wind)
        } else if str_eq(s, "solar") {
            Ok(PowerType::Solar)
        } else {
            Err(DecodeError::UnknownVariant { token: s.to_owned() })
        };
        proof {
            reveal_strlit("gas");
            reveal_strlit("coal");
            reveal_strlit("biomass");
            reveal_strlit("nuclear");
            reveal_strlit("hydro");
            reveal_strlit("imports");
            reveal_strlit("other");
            reveal_strlit("wind");
            reveal_strlit("solar");
            assert("gas"@.len() == 3 && "gas"@[0] == 'g');
            assert("coal"@.len() == 4 && "coal"@[0] == 'c');
            assert("biomass"@.len() == 7 && "biomass"@[0] == 'b');
            assert("nuclear"@.len() == 7 && "nuclear"@[0] == 'n');
            assert("hydro"@.len() == 5 && "hydro"@[0] == 'h');
            assert("imports"@.len() == 7 && "imports"@[0] == 'i');
            assert("other"@.len() == 5 && "other"@[0] == 'o');
            assert("wind"@.len() == 4 && "wind"@[0] == 'w');
            assert("solar"@.len() == 5 && "solar"@[0] == 's');
            assert forall|v: PowerType| s@ == power_wire(v)
                implies r == Ok::<PowerType, DecodeError>(v) by {
                match v {
                    PowerType::Gas => assert(s@ == power_wire(v)
                        ==> r == Ok::<PowerType, DecodeError>(v)),
                    PowerType::Coal => assert(s@ == power_wire(v)
                        ==> r == Ok::<PowerType, DecodeError>(v)),
                    PowerType::Biomass => assert(s@ == power_wire(v)
                        ==> r == Ok::<PowerType, DecodeError>(v)),
                    PowerType::Nuclear => assert(s@ == power_wire(v)
                        ==> r == Ok::<PowerType, DecodeError>(v)),
                    PowerType::Hydro => assert(s@ == power_wire(v)
                        ==> r == Ok::<PowerType, DecodeError>(v)),
                    PowerType::Imports => assert(s@ == power_wire(v)
                        ==> r == Ok::<PowerType, DecodeError>(v)),
                    PowerType::Other => assert(s@ == power_wire(v)
                        ==> r == Ok::<PowerType, DecodeError>(v)),
                    PowerType::Wind => assert(s@ == power_wire(v)
                        ==> r == Ok::<PowerType, DecodeError>(v)),
                    PowerType::Solar => assert(s@ == power_wire(v)
                        ==> r == Ok::<PowerType, DecodeError>(v)),
                }
            };
        }
        r
    }
}

/// One generation-mix entry: a power source and its percentage contribution.
/// The percentage is kept as its exact numeric wire token (the library holds
/// no floating point); consumers parse it at the boundary.
#[derive(Debug, Clone, PartialEq, Eq)]
pub struct GenerationMix {
    pub fuel: PowerType,
    pub percent: String,
}

/// Forecast intensity (exact numeric wire token, grams CO2-equivalent) and
/// its categorical index.
#[derive(Debug, Clone, PartialEq, Eq)]
pub struct IntensitySummary {
    pub forecast: String,
    pub index: IntensityIndex,
}

/// One observation window `[from, to)` with its summary and generation mix.
#[derive(Debug, Clone, PartialEq, Eq)]
pub struct IntensityData {
    pub from: Timestamp,
    pub to: Timestamp,
    pub intensity: IntensitySummary,
    pub generation_mix: Vec<GenerationMix>,
}

impl IntensityData {
    /// Both window bounds are calendar-valid minute-precision instants.
    pub open spec fn wf(self) -> bool {
        self.from.wf() && self.to.wf()
    }
}

/// One postal-code region with its ordered observation sequence.
#[derive(Debug, Clone, PartialEq, Eq)]
pub struct Region {
    pub region_id: u64,
    pub dnoregion: String,
    pub shortname: String,
    pub postcode: String,
    pub region_data: Vec<IntensityData>,
}

impl Region {
    /// Every observation of the region is well-formed.
    pub open spec fn wf(self) -> bool {
        forall|k: int| 0 <= k < self.region_data@.len() ==> (#[trigger] self.region_data@[k]).wf()
    }
}

} // verus!
