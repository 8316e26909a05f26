//! Schema decoding: from a generic JSON tree to the typed domain model.
//! Unknown object fields are tolerated; the spec predicates below say only
//! what the known fields must hold, which is exactly the forward-compatible
//! reading of the upstream schema.

use vstd::prelude::*;
use vstd::string::StrSliceExecFns;
use crate::errors::DecodeError;
use crate::json::{obj_lookup, obj_get, parse_json, JsonValue};
use crate::timestamp;
use crate::timestamp::parse_timestamp;
use crate::types::{
    index_wire, power_wire, Data, GenerationMix, IntensityData, IntensitySummary, Region,
};

verus! {

/// The JSON value carries this generation-mix entry.
pub open spec fn mix_matches(v: JsonValue, g: GenerationMix) -> bool {
    &&& v matches JsonValue::Obj(fields)
    &&& obj_lookup(fields@, "fuel"@) matches Some(fv)
    &&& fv matches JsonValue::Str(ft)
    &&& ft@ == power_wire(g.fuel)
    &&& obj_lookup(fields@, "perc"@) matches Some(pv)
    &&& pv matches JsonValue::Num(pt)
    &&& pt@ == g.percent@
}

/// The JSON value carries this intensity summary.
pub open spec fn intensity_matches(v: JsonValue, s: IntensitySummary) -> bool {
    &&& v matches JsonValue::Obj(fields)
    &&& obj_lookup(fields@, "forecast"@) matches Some(fv)
    &&& fv matches JsonValue::Num(ft)
    &&& ft@ == s.forecast@
    &&& obj_lookup(fields@, "index"@) matches Some(iv)
    &&& iv matches JsonValue::Str(it)
    &&& it@ == index_wire(s.index)
}

/// The object's field `key` is a string that decodes to the timestamp `t`.
pub open spec fn ts_field_matches(
    fields: Seq<(String, JsonValue)>,
    key: Seq<char>,
    t: timestamp::Timestamp,
) -> bool {
    &&& obj_lookup(fields, key) matches Some(fv)
    &&& fv matches JsonValue::Str(ft)
    &&& parse_timestamp(ft@) == Some(t)
}

/// The JSON value carries this observation window.
pub open spec fn observation_matches(v: JsonValue, d: IntensityData) -> bool {
    &&& v matches JsonValue::Obj(fields)
    &&& ts_field_matches(fields@, "from"@, d.from)
    &&& ts_field_matches(fields@, "to"@, d.to)
    &&& obj_lookup(fields@, "intensity"@) matches Some(iv)
    &&& intensity_matches(iv, d.intensity)
    &&& obj_lookup(fields@, "generationmix"@) matches Some(mv)
    &&& mv matches JsonValue::Arr(mixes)
    &&& mixes@.len() == d.generation_mix@.len()
    &&& forall|k: int| 0 <= k < mixes@.len()
        ==> mix_matches(mixes@[k], #[trigger] d.generation_mix@[k])
}

/// The JSON value carries this region.
pub open spec fn region_matches(v: JsonValue, r: Region) -> bool {
    &&& v matches JsonValue::Obj(fields)
    &&& obj_lookup(fields@, "regionid"@) matches Some(rv)
    &&& rv matches JsonValue::Num(tok)
    &&& token_u64(tok@) == Some(r.region_id as int)
    &&& obj_lookup(fields@, "dnoregion"@) matches Some(dv)
    &&& dv matches JsonValue::Str(dt)
    &&& dt@ == r.dnoregion@
    &&& obj_lookup(fields@, "shortname"@) matches Some(sv)
    &&& sv matches JsonValue::Str(st)
    &&& st@ == r.shortname@
    &&& obj_lookup(fields@, "postcode"@) matches Some(pv)
    &&& pv matches JsonValue::Str(pt)
    &&& pt@ == r.postcode@
    &&& obj_lookup(fields@, "data"@) matches Some(av)
    &&& av matches JsonValue::Arr(ds)
    &&& ds@.len() == r.region_data@.len()
    &&& forall|k: int| 0 <= k < ds@.len()
        ==> observation_matches(ds@[k], #[trigger] r.region_data@[k])
}

/// The JSON value carries this envelope of regions.
pub open spec fn envelope_matches(v: JsonValue, d: Data<Region>) -> bool {
    &&& v matches JsonValue::Obj(fields)
    &&& obj_lookup(fields@, "data"@) matches Some(av)
    &&& av matches JsonValue::Arr(rs)
    &&& rs@.len() == d.data@.len()
    &&& forall|k: int| 0 <= k < rs@.len() ==> region_matches(rs@[k], #[trigger] d.data@[k])
}

/// The numeric value of one decimal digit character.
pub open spec fn digit_value(c: char) -> Option<int> {
    if c == '0' {
        Some(0int)
    } else if c == '1' {
        Some(1int)
    } else if c == '2' {
        Some(2int)
    } else if c == '3' {
        Some(3int)
    } else if c == '4' {
        Some(4int)
    } else if c == '5' {
        Some(5int)
    } else if c == '6' {
        Some(6int)
    } else if c == '7' {
        Some(7int)
    } else if c == '8' {
        Some(8int)
    } else if c == '9' {
        Some(9int)
    } else {
        None
    }
}

/// Value of the decimal digits `s` appended to the accumulator `acc`;
/// `None` on a non-digit or when the value leaves `u64` range.
pub open spec fn digits_value_from(s: Seq<char>, acc: int) -> Option<int>
    decreases s.len(),
{
    if s.len() == 0 {
        Some(acc)
    } else {
        match digit_value(s[0]) {
            Some(d) => if acc * 10 + d > u64::MAX {
                None
            } else {
                digits_value_from(s.skip(1), acc * 10 + d)
            },
            None => None,
        }
    }
}

/// The `u64` value a decimal token denotes, if any: at least one digit, all
/// digits, within range.
pub open spec fn token_u64(s: Seq<char>) -> Option<int> {
    if s.len() == 0 {
        None
    } else {
        digits_value_from(s, 0)
    }
}

/// Parse the digits of a decimal unsigned integer token; `None` on any
/// non-digit character, an empty token, or a value over `u64::MAX`.
fn parse_u64_token(s: &str) -> (r: Option<u64>)
    ensures
        r matches Some(id) ==> token_u64(s@) == Some(id as int),
        r is None ==> token_u64(s@) is None,
{
    let n = s.unicode_len();
    if n == 0 {
        return None;
    }
    let mut v: u64 = 0;
    let mut i: usize = 0;
    proof {
        assert(s@.skip(0) =~= s@);
    }
    while i < n
        invariant
            n == s@.len(),
            0 < n,
            i <= n,
            digits_value_from(s@.skip(i as int), v as int) == token_u64(s@),
        decreases n - i,
    {
        proof {
            assert(s@.skip(i as int)[0] == s@[i as int]);
            assert(s@.skip(i as int).skip(1) =~= s@.skip(i as int + 1));
        }
        let c = s.get_char(i);
        let d: u64 = match c {
            '0' => 0,
            '1' => 1,
            '2' => 2,
            '3' => 3,
            '4' => 4,
            '5' => 5,
            '6' => 6,
            '7' => 7,
            '8' => 8,
            '9' => 9,
            _ => {
                return None;
            },
        };
        proof {
            vstd::arithmetic::div_mod::lemma_fundamental_div_mod((u64::MAX - d) as int, 10);
        }
        if v > (u64::MAX - d) / 10 {
            return None;
        }
        v = v * 10 + d;
        i = i + 1;
    }
    proof {
        assert(s@.skip(i as int) =~= Seq::<char>::empty());
    }
    Some(v)
}

/// Decode one generation-mix entry.
pub fn decode_generation_mix(v: &JsonValue) -> (r: Result<GenerationMix, DecodeError>)
    ensures
        r matches Ok(g) ==> mix_matches(*v, g),
        r is Err ==> forall|g2: GenerationMix| !mix_matches(*v, g2),
        *v matches JsonValue::Obj(fields) ==> (obj_lookup(fields@, "fuel"@) matches Some(fv)
            ==> (fv matches JsonValue::Str(ft) ==> ((forall|p: crate::types::PowerType|
            ft@ != power_wire(p)) ==> {
                &&& r matches Err(e)
                &&& e matches DecodeError::UnknownVariant { token }
                &&& token@ == ft@
            }))),
{
    let fields = match v {
        JsonValue::Obj(fields) => fields,
        _ => {
            return Err(DecodeError::WrongType { field: "generationmix".to_owned() });
        },
    };
    let fuel_v = match obj_get(fields, "fuel") {
        Some(x) => x,
        None => {
            return Err(DecodeError::MissingField { field: "fuel".to_owned() });
        },
    };
    let fuel_s = match fuel_v {
        JsonValue::Str(t) => t,
        _ => {
            return Err(DecodeError::WrongType { field: "fuel".to_owned() });
        },
    };
    let fuel = match crate::types::PowerType::decode(fuel_s.as_str()) {
        Ok(f) => f,
        Err(e) => {
            return Err(e);
        },
    };
    let perc_v = match obj_get(fields, "perc") {
        Some(x) => x,
        None => {
            return Err(DecodeError::MissingField { field: "perc".to_owned() });
        },
    };
    let percent = match perc_v {
        JsonValue::Num(t) => t.clone(),
        _ => {
            return Err(DecodeError::WrongType { field: "perc".to_owned() });
        },
    };
    Ok(GenerationMix { fuel, percent })
}

/// Decode an intensity summary.
pub fn decode_intensity(v: &JsonValue) -> (r: Result<IntensitySummary, DecodeError>)
    ensures
        r matches Ok(s) ==> intensity_matches(*v, s),
        r is Err ==> forall|s2: IntensitySummary| !intensity_matches(*v, s2),
        *v matches JsonValue::Obj(fields) ==> (obj_lookup(fields@, "index"@) matches Some(iv)
            ==> (iv matches JsonValue::Str(it) ==> ((forall|x: crate::types::IntensityIndex|
            it@ != index_wire(x)) ==> {
                &&& r matches Err(e)
                &&& e matches DecodeError::UnknownVariant { token }
                &&& token@ == it@
            }))),
{
    let fields = match v {
        JsonValue::Obj(fields) => fields,
        _ => {
            return Err(DecodeError::WrongType { field: "intensity".to_owned() });
        },
    };
    let index_v = match obj_get(fields, "index") {
        Some(x) => x,
        None => {
            return Err(DecodeError::MissingField { field: "index".to_owned() });
        },
    };
    let index_s = match index_v {
        JsonValue::Str(t) => t,
        _ => {
            return Err(DecodeError::WrongType { field: "index".to_owned() });
        },
    };
    let index = match crate::types::IntensityIndex::decode(index_s.as_str()) {
        Ok(x) => x,
        Err(e) => {
            return Err(e);
        },
    };
    let forecast_v = match obj_get(fields, "forecast") {
        Some(x) => x,
        None => {
            return Err(DecodeError::MissingField { field: "forecast".to_owned() });
        },
    };
    let forecast = match forecast_v {
        JsonValue::Num(t) => t.clone(),
        _ => {
            return Err(DecodeError::WrongType { field: "forecast".to_owned() });
        },
    };
    Ok(IntensitySummary { forecast, index })
}

fn decode_timestamp_field(
    fields: &Vec<(String, JsonValue)>,
    key: &str,
) -> (r: Result<timestamp::Timestamp, DecodeError>)
    ensures
        r matches Ok(t) ==> ts_field_matches(fields@, key@, t) && t.wf(),
        r is Err ==> forall|t2: timestamp::Timestamp| !ts_field_matches(fields@, key@, t2),
{
    let v = match obj_get(fields, key) {
        Some(x) => x,
        None => {
            return Err(DecodeError::MissingField { field: key.to_owned() });
        },
    };
    let s = match v {
        JsonValue::Str(t) => t,
        _ => {
            return Err(DecodeError::WrongType { field: key.to_owned() });
        },
    };
    timestamp::deserialize(s.as_str())
}

/// Decode one observation window.
pub fn decode_intensity_data(v: &JsonValue) -> (r: Result<IntensityData, DecodeError>)
    ensures
        r matches Ok(d) ==> observation_matches(*v, d) && d.wf(),
        r is Err ==> forall|d2: IntensityData| !observation_matches(*v, d2),
{
    let fields = match v {
        JsonValue::Obj(fields) => fields,
        _ => {
            return Err(DecodeError::WrongType { field: "data".to_owned() });
        },
    };
    let from = match decode_timestamp_field(fields, "from") {
        Ok(t) => t,
        Err(e) => {
            proof {
                assert forall|d2: IntensityData| !observation_matches(*v, d2) by {
                    if observation_matches(*v, d2) {
                        assert(ts_field_matches(fields@, "from"@, d2.from));
                    }
                };
            }
            return Err(e);
        },
    };
    let to = match decode_timestamp_field(fields, "to") {
        Ok(t) => t,
        Err(e) => {
            proof {
                assert forall|d2: IntensityData| !observation_matches(*v, d2) by {
                    if observation_matches(*v, d2) {
                        assert(ts_field_matches(fields@, "to"@, d2.to));
                    }
                };
            }
            return Err(e);
        },
    };
    let intensity_v = match obj_get(fields, "intensity") {
        Some(x) => x,
        None => {
            return Err(DecodeError::MissingField { field: "intensity".to_owned() });
        },
    };
    let intensity = match decode_intensity(intensity_v) {
        Ok(x) => x,
        Err(e) => {
            proof {
                assert forall|d2: IntensityData| !observation_matches(*v, d2) by {
                    if observation_matches(*v, d2) {
                        assert(intensity_matches(*intensity_v, d2.intensity));
                    }
                };
            }
            return Err(e);
        },
    };
    let mix_v = match obj_get(fields, "generationmix") {
        Some(x) => x,
        None => {
            return Err(DecodeError::MissingField { field: "generationmix".to_owned() });
        },
    };
    let mixes = match mix_v {
        JsonValue::Arr(items) => items,
        _ => {
            return Err(DecodeError::WrongType { field: "generationmix".to_owned() });
        },
    };
    let mut generation_mix: Vec<GenerationMix> = Vec::new();
    let mut k: usize = 0;
    while k < mixes.len()
        invariant
            *v == JsonValue::Obj(*fields),
            obj_lookup(fields@, "generationmix"@) == Some(JsonValue::Arr(*mixes)),
            k <= mixes@.len(),
            generation_mix@.len() == k,
            forall|q: int| 0 <= q < k
                ==> mix_matches(mixes@[q], #[trigger] generation_mix@[q]),
        decreases mixes@.len() - k,
    {
        let g = match decode_generation_mix(&mixes[k]) {
            Ok(g) => g,
            Err(e) => {
                proof {
                    assert forall|d2: IntensityData| !observation_matches(*v, d2) by {
                        if observation_matches(*v, d2) {
                            assert(mix_matches(mixes@[k as int], d2.generation_mix@[k as int]));
                        }
                    };
                }
                return Err(e);
            },
        };
        generation_mix.push(g);
        k = k + 1;
    }
    Ok(IntensityData { from, to, intensity, generation_mix })
}

/// Decode one region.
pub fn decode_region(v: &JsonValue) -> (r: Result<Region, DecodeError>)
    ensures
        r matches Ok(reg) ==> region_matches(*v, reg) && reg.wf(),
        r is Err ==> forall|r2: Region| !region_matches(*v, r2),
{
    let fields = match v {
        JsonValue::Obj(fields) => fields,
        _ => {
            return Err(DecodeError::WrongType { field: "region".to_owned() });
        },
    };
    let id_v = match obj_get(fields, "regionid") {
        Some(x) => x,
        None => {
            return Err(DecodeError::MissingField { field: "regionid".to_owned() });
        },
    };
    let id_tok = match id_v {
        JsonValue::Num(t) => t,
        _ => {
            return Err(DecodeError::WrongType { field: "regionid".to_owned() });
        },
    };
    let region_id = match parse_u64_token(id_tok.as_str()) {
        Some(x) => x,
        None => {
            return Err(DecodeError::InvalidNumber { field: "regionid".to_owned() });
        },
    };
    let dnoregion = match obj_get(fields, "dnoregion") {
        Some(JsonValue::Str(t)) => t.clone(),
        Some(_) => {
            return Err(DecodeError::WrongType { field: "dnoregion".to_owned() });
        },
        None => {
            return Err(DecodeError::MissingField { field: "dnoregion".to_owned() });
        },
    };
    let shortname = match obj_get(fields, "shortname") {
        Some(JsonValue::Str(t)) => t.clone(),
        Some(_) => {
            return Err(DecodeError::WrongType { field: "shortname".to_owned() });
        },
        None => {
            return Err(DecodeError::MissingField { field: "shortname".to_owned() });
        },
    };
    let postcode = match obj_get(fields, "postcode") {
        Some(JsonValue::Str(t)) => t.clone(),
        Some(_) => {
            return Err(DecodeError::WrongType { field: "postcode".to_owned() });
        },
        None => {
            return Err(DecodeError::MissingField { field: "postcode".to_owned() });
        },
    };
    let data_v = match obj_get(fields, "data") {
        Some(x) => x,
        None => {
            return Err(DecodeError::MissingField { field: "data".to_owned() });
        },
    };
    let entries = match data_v {
        JsonValue::Arr(items) => items,
        _ => {
            return Err(DecodeError::WrongType { field: "data".to_owned() });
        },
    };
    let mut region_data: Vec<IntensityData> = Vec::new();
    let mut k: usize = 0;
    while k < entries.len()
        invariant
            *v == JsonValue::Obj(*fields),
            obj_lookup(fields@, "data"@) == Some(JsonValue::Arr(*entries)),
            k <= entries@.len(),
            region_data@.len() == k,
            forall|q: int| 0 <= q < k
                ==> observation_matches(entries@[q], #[trigger] region_data@[q])
                    && region_data@[q].wf(),
        decreases entries@.len() - k,
    {
        let d = match decode_intensity_data(&entries[k]) {
            Ok(d) => d,
            Err(e) => {
                proof {
                    assert forall|r2: Region| !region_matches(*v, r2) by {
                        if region_matches(*v, r2) {
                            assert(observation_matches(entries@[k as int], r2.region_data@[k as int]));
                        }
                    };
                }
                return Err(e);
            },
        };
        region_data.push(d);
        k = k + 1;
    }
    Ok(Region { region_id, dnoregion, shortname, postcode, region_data })
}

/// Decode the outer envelope.
pub fn decode_envelope(v: &JsonValue) -> (r: Result<Data<Region>, DecodeError>)
    ensures
        r matches Ok(d) ==> envelope_matches(*v, d)
            && forall|k: int| 0 <= k < d.data@.len() ==> (#[trigger] d.data@[k]).wf(),
        r is Err ==> forall|d2: Data<Region>| !envelope_matches(*v, d2),
{
    let fields = match v {
        JsonValue::Obj(fields) => fields,
        _ => {
            return Err(DecodeError::WrongType { field: "data".to_owned() });
        },
    };
    let data_v = match obj_get(fields, "data") {
        Some(x) => x,
        None => {
            return Err(DecodeError::MissingField { field: "data".to_owned() });
        },
    };
    let regions_v = match data_v {
        JsonValue::Arr(items) => items,
        _ => {
            return Err(DecodeError::WrongType { field: "data".to_owned() });
        },
    };
    let mut data: Vec<Region> = Vec::new();
    let mut k: usize = 0;
    while k < regions_v.len()
        invariant
            *v == JsonValue::Obj(*fields),
            obj_lookup(fields@, "data"@) == Some(JsonValue::Arr(*regions_v)),
            k <= regions_v@.len(),
            data@.len() == k,
            forall|q: int| 0 <= q < k
                ==> region_matches(regions_v@[q], #[trigger] data@[q]) && data@[q].wf(),
        decreases regions_v@.len() - k,
    {
        let reg = match decode_region(&regions_v[k]) {
            Ok(reg) => reg,
            Err(e) => {
                proof {
                    assert forall|d2: Data<Region>| !envelope_matches(*v, d2) by {
                        if envelope_matches(*v, d2) {
                            assert(region_matches(regions_v@[k as int], d2.data@[k as int]));
                        }
                    };
                }
                return Err(e);
            },
        };
        data.push(reg);
        k = k + 1;
    }
    Ok(Data { data })
}

/// Decode a whole upstream response body: parse the JSON text, then decode
/// the envelope.  On success every region in the envelope is well-formed and
/// the parsed tree carries the envelope.
pub fn decode_payload(body: &str) -> (r: Result<Data<Region>, DecodeError>)
    ensures
        r matches Ok(d) ==> (exists|jv: JsonValue| envelope_matches(jv, d))
            && forall|k: int| 0 <= k < d.data@.len() ==> (#[trigger] d.data@[k]).wf(),
{
    let v = parse_json(body)?;
    let r = decode_envelope(&v);
    proof {
        if r is Ok {
            assert(envelope_matches(v, r->Ok_0));
        }
    }
    r
}

} // verus!
