use crate::data::{
    AgentData, CargoInfo, CargoItem, ComponentInfo, ComponentRequirements, ConsumedFuel,
    ContractData, ContractTerms, Coords, CrewInfo, DeliveryInfo, EngineInfo, ErrorResponse,
    FactionData, Factions, FrameInfo, FuelInfo, LocationData, ModuleInfo, MountInfo, NavInfo,
    PaymentInfo, ReactorInfo, RegistrationData, Route, ShipData, ShipRegistration, StringMap,
    TraitData,
    spec_faction_name,
};
use crate::json::clone_json;
use crate::json::{
    JsonSpec, JsonValue, field_arr, field_bool, field_int, field_obj, field_opt, field_str,
    get_arr, get_bool, get_field, get_i64, get_obj, get_opt, get_str, lemma_models_of_items_all,
    lemma_models_of_members_all, model_of, models_of_items, models_of_members, obj_get,
};
use vstd::prelude::*;

verus! {

// ---------------------------------------------------------------------------
// Shared helpers.
// ---------------------------------------------------------------------------

/// The integer held by `key` when it lies within `lo ..= hi`.
pub open spec fn field_ranged(
    m: Seq<(Seq<char>, JsonSpec)>,
    key: Seq<char>,
    lo: int,
    hi: int,
) -> Option<int> {
    match field_int(m, key) {
        Some(n) => if lo <= n <= hi {
            Some(n)
        } else {
            None
        },
        None => None,
    }
}

fn get_u32(members: &Vec<(String, JsonValue)>, key: &str) -> (r: Option<u32>)
    ensures
        match r {
            Some(n) => field_ranged(models_of_members(members@), key@, 0, 0xffff_ffff) == Some(
                n as int,
            ),
            None => field_ranged(models_of_members(members@), key@, 0, 0xffff_ffff) is None,
        },
{
    match get_i64(members, key) {
        Some(n) => if 0 <= n && n <= 0xffff_ffff {
            Some(n as u32)
        } else {
            None
        },
        None => None,
    }
}

fn get_u16(members: &Vec<(String, JsonValue)>, key: &str) -> (r: Option<u16>)
    ensures
        match r {
            Some(n) => field_ranged(models_of_members(members@), key@, 0, 0xffff) == Some(
                n as int,
            ),
            None => field_ranged(models_of_members(members@), key@, 0, 0xffff) is None,
        },
{
    match get_i64(members, key) {
        Some(n) => if 0 <= n && n <= 0xffff {
            Some(n as u16)
        } else {
            None
        },
        None => None,
    }
}

fn get_u8(members: &Vec<(String, JsonValue)>, key: &str) -> (r: Option<u8>)
    ensures
        match r {
            Some(n) => field_ranged(models_of_members(members@), key@, 0, 0xff) == Some(n as int),
            None => field_ranged(models_of_members(members@), key@, 0, 0xff) is None,
        },
{
    match get_i64(members, key) {
        Some(n) => if 0 <= n && n <= 0xff {
            Some(n as u8)
        } else {
            None
        },
        None => None,
    }
}

/// Whether an optional integer field is either missing or a number in
/// `lo ..= hi`.
pub open spec fn opt_ranged_ok(
    m: Seq<(Seq<char>, JsonSpec)>,
    key: Seq<char>,
    lo: int,
    hi: int,
) -> bool {
    match field_opt(m, key) {
        None => true,
        Some(j) => j matches JsonSpec::Int(n) && lo <= n <= hi,
    }
}

/// What an optional integer field holds.
pub open spec fn opt_ranged_val(m: Seq<(Seq<char>, JsonSpec)>, key: Seq<char>) -> Option<int> {
    match field_opt(m, key) {
        Some(JsonSpec::Int(n)) => Some(n),
        _ => None,
    }
}

fn get_opt_u8(members: &Vec<(String, JsonValue)>, key: &str) -> (r: Option<Option<u8>>)
    ensures
        match r {
            Some(o) => opt_ranged_ok(models_of_members(members@), key@, 0, 0xff) && (match o {
                Some(n) => opt_ranged_val(models_of_members(members@), key@) == Some(n as int),
                None => field_opt(models_of_members(members@), key@) is None,
            }),
            None => !opt_ranged_ok(models_of_members(members@), key@, 0, 0xff),
        },
{
    match get_opt(members, key) {
        None => Some(None),
        Some(JsonValue::Int(n)) => {
            let n = *n;
            if 0 <= n && n <= 0xff {
                Some(Some(n as u8))
            } else {
                None
            }
        },
        Some(_) => None,
    }
}

fn get_opt_u16(members: &Vec<(String, JsonValue)>, key: &str) -> (r: Option<Option<u16>>)
    ensures
        match r {
            Some(o) => opt_ranged_ok(models_of_members(members@), key@, 0, 0xffff) && (match o {
                Some(n) => opt_ranged_val(models_of_members(members@), key@) == Some(n as int),
                None => field_opt(models_of_members(members@), key@) is None,
            }),
            None => !opt_ranged_ok(models_of_members(members@), key@, 0, 0xffff),
        },
{
    match get_opt(members, key) {
        None => Some(None),
        Some(JsonValue::Int(n)) => {
            let n = *n;
            if 0 <= n && n <= 0xffff {
                Some(Some(n as u16))
            } else {
                None
            }
        },
        Some(_) => None,
    }
}

// ---------------------------------------------------------------------------
// Open string-keyed maps.
// ---------------------------------------------------------------------------

/// Whether every member of an object holds a string.
pub open spec fn strmap_shape(m: Seq<(Seq<char>, JsonSpec)>) -> bool {
    forall|k: int| 0 <= k < m.len() ==> (#[trigger] m[k]).1 matches JsonSpec::Str(_)
}

/// An object of string values, read as pairs in wire order.
pub open spec fn is_strmap_of(m: Seq<(Seq<char>, JsonSpec)>, p: Seq<(String, String)>) -> bool {
    &&& p.len() == m.len()
    &&& forall|k: int|
        0 <= k < m.len() ==> (#[trigger] m[k]).0 == p[k].0@ && m[k].1 == JsonSpec::Str(p[k].1@)
}

fn strmap_from_obj(members: &Vec<(String, JsonValue)>) -> (r: Option<StringMap>)
    ensures
        match r {
            Some(p) => is_strmap_of(models_of_members(members@), p@),
            None => !strmap_shape(models_of_members(members@)),
        },
{
    proof {
        crate::json::lemma_models_of_members_all(members@);
    }
    let mut out: StringMap = Vec::new();
    let mut k: usize = 0;
    while k < members.len()
        invariant
            k <= members@.len(),
            out@.len() == k,
            forall|q: int|
                0 <= q < k ==> (#[trigger] models_of_members(members@)[q]).0 == out@[q].0@
                    && models_of_members(members@)[q].1 == JsonSpec::Str(out@[q].1@),
            models_of_members(members@).len() == members@.len(),
            forall|q: int|
                0 <= q < members@.len() ==> models_of_members(members@)[q] == (
                    members@[q].0@,
                    model_of(members@[q].1),
                ),
        decreases members@.len() - k,
    {
        match &members[k].1 {
            JsonValue::Str(s) => {
                out.push((members[k].0.clone(), s.clone()));
            },
            _ => {
                proof {
                    assert(!(models_of_members(members@)[k as int].1 matches JsonSpec::Str(_)));
                }
                return None;
            },
        }
        k = k + 1;
    }
    Some(out)
}

// ---------------------------------------------------------------------------
// Records.
// ---------------------------------------------------------------------------

pub open spec fn agent_shape(m: Seq<(Seq<char>, JsonSpec)>) -> bool {
    &&& field_str(m, "accountId"@) is Some
    &&& field_str(m, "symbol"@) is Some
    &&& field_str(m, "headquarters"@) is Some
    &&& field_int(m, "credits"@) is Some
}

/// `a` holds exactly what the object's agent fields say.
pub open spec fn is_agent_of(m: Seq<(Seq<char>, JsonSpec)>, a: AgentData) -> bool {
    &&& field_str(m, "accountId"@) == Some(a.account_id@)
    &&& field_str(m, "symbol"@) == Some(a.symbol@)
    &&& field_str(m, "headquarters"@) == Some(a.headquarters@)
    &&& field_int(m, "credits"@) == Some(a.credits as int)
}

pub fn agent_from_obj(members: &Vec<(String, JsonValue)>) -> (r: Option<AgentData>)
    ensures
        match r {
            Some(a) => is_agent_of(models_of_members(members@), a),
            None => !agent_shape(models_of_members(members@)),
        },
{
    let account_id = match get_str(members, "accountId") {
        Some(s) => s,
        None => {
            return None;
        },
    };
    let symbol = match get_str(members, "symbol") {
        Some(s) => s,
        None => {
            return None;
        },
    };
    let headquarters = match get_str(members, "headquarters") {
        Some(s) => s,
        None => {
            return None;
        },
    };
    let credits = match get_i64(members, "credits") {
        Some(n) => n,
        None => {
            return None;
        },
    };
    Some(AgentData { account_id, symbol, headquarters, credits })
}

pub open spec fn trait_shape(j: JsonSpec) -> bool {
    &&& j matches JsonSpec::Obj(m)
    &&& field_str(m, "symbol"@) is Some
    &&& field_str(m, "name"@) is Some
    &&& field_str(m, "description"@) is Some
}

pub open spec fn is_trait_of(j: JsonSpec, t: TraitData) -> bool {
    &&& j matches JsonSpec::Obj(m)
    &&& field_str(m, "symbol"@) == Some(t.symbol@)
    &&& field_str(m, "name"@) == Some(t.name@)
    &&& field_str(m, "description"@) == Some(t.description@)
}

pub fn trait_from_json(v: &JsonValue) -> (r: Option<TraitData>)
    ensures
        match r {
            Some(t) => is_trait_of(model_of(*v), t),
            None => !trait_shape(model_of(*v)),
        },
{
    let members = match v {
        JsonValue::Obj(members) => members,
        _ => {
            return None;
        },
    };
    let symbol = match get_str(members, "symbol") {
        Some(s) => s,
        None => {
            return None;
        },
    };
    let name = match get_str(members, "name") {
        Some(s) => s,
        None => {
            return None;
        },
    };
    let description = match get_str(members, "description") {
        Some(s) => s,
        None => {
            return None;
        },
    };
    Some(TraitData { symbol, name, description })
}

pub open spec fn traits_shape(items: Seq<JsonSpec>) -> bool {
    forall|k: int| 0 <= k < items.len() ==> trait_shape(#[trigger] items[k])
}

pub open spec fn is_traits_of(items: Seq<JsonSpec>, ts: Seq<TraitData>) -> bool {
    &&& ts.len() == items.len()
    &&& forall|k: int| 0 <= k < items.len() ==> is_trait_of(#[trigger] items[k], ts[k])
}

pub fn traits_from_arr(items: &Vec<JsonValue>) -> (r: Option<Vec<TraitData>>)
    ensures
        match r {
            Some(ts) => is_traits_of(models_of_items(items@), ts@),
            None => !traits_shape(models_of_items(items@)),
        },
{
    proof {
        lemma_models_of_items_all(items@);
    }
    let mut out: Vec<TraitData> = Vec::new();
    let mut k: usize = 0;
    while k < items.len()
        invariant
            k <= items@.len(),
            out@.len() == k,
            forall|q: int| 0 <= q < k ==> is_trait_of(models_of_items(items@)[q], out@[q]),
            models_of_items(items@).len() == items@.len(),
            forall|q: int|
                0 <= q < items@.len() ==> models_of_items(items@)[q] == model_of(items@[q]),
        decreases items@.len() - k,
    {
        match trait_from_json(&items[k]) {
            Some(t) => {
                out.push(t);
            },
            None => {
                proof {
                    assert(!trait_shape(models_of_items(items@)[k as int]));
                }
                return None;
            },
        }
        k = k + 1;
    }
    Some(out)
}


fn get_i32(members: &Vec<(String, JsonValue)>, key: &str) -> (r: Option<i32>)
    ensures
        match r {
            Some(n) => field_ranged(
                models_of_members(members@),
                key@,
                -0x8000_0000,
                0x7fff_ffff,
            ) == Some(n as int),
            None => field_ranged(
                models_of_members(members@),
                key@,
                -0x8000_0000,
                0x7fff_ffff,
            ) is None,
        },
{
    match get_i64(members, key) {
        Some(n) => if -0x8000_0000 <= n && n <= 0x7fff_ffff {
            Some(n as i32)
        } else {
            None
        },
        None => None,
    }
}

/// Whether every element of an array holds a string.
pub open spec fn strings_shape(items: Seq<JsonSpec>) -> bool {
    forall|k: int| 0 <= k < items.len() ==> (#[trigger] items[k]) matches JsonSpec::Str(_)
}

pub open spec fn is_strings_of(items: Seq<JsonSpec>, ss: Seq<String>) -> bool {
    &&& ss.len() == items.len()
    &&& forall|k: int| 0 <= k < items.len() ==> (#[trigger] items[k]) == JsonSpec::Str(ss[k]@)
}

fn strings_from_arr(items: &Vec<JsonValue>) -> (r: Option<Vec<String>>)
    ensures
        match r {
            Some(ss) => is_strings_of(models_of_items(items@), ss@),
            None => !strings_shape(models_of_items(items@)),
        },
{
    proof {
        lemma_models_of_items_all(items@);
    }
    let mut out: Vec<String> = Vec::new();
    let mut k: usize = 0;
    while k < items.len()
        invariant
            k <= items@.len(),
            out@.len() == k,
            forall|q: int|
                0 <= q < k ==> models_of_items(items@)[q] == JsonSpec::Str((#[trigger] out@[q])@),
            models_of_items(items@).len() == items@.len(),
            forall|q: int|
                0 <= q < items@.len() ==> models_of_items(items@)[q] == model_of(items@[q]),
        decreases items@.len() - k,
    {
        match &items[k] {
            JsonValue::Str(s) => {
                out.push(s.clone());
            },
            _ => {
                proof {
                    assert(!(models_of_items(items@)[k as int] matches JsonSpec::Str(_)));
                }
                return None;
            },
        }
        k = k + 1;
    }
    Some(out)
}

/// Whether every element of an array is an object of string values.
pub open spec fn maplist_shape(items: Seq<JsonSpec>) -> bool {
    forall|k: int|
        0 <= k < items.len() ==> ((#[trigger] items[k]) matches JsonSpec::Obj(o)
            && strmap_shape(o))
}

/// One array element read as an object of strings.
pub open spec fn is_strmap_json(j: JsonSpec, p: StringMap) -> bool {
    j matches JsonSpec::Obj(o) && is_strmap_of(o, p@)
}

pub open spec fn is_maplist_of(items: Seq<JsonSpec>, ps: Seq<StringMap>) -> bool {
    &&& ps.len() == items.len()
    &&& forall|k: int| 0 <= k < items.len() ==> is_strmap_json(#[trigger] items[k], ps[k])
}

fn maplist_from_arr(items: &Vec<JsonValue>) -> (r: Option<Vec<StringMap>>)
    ensures
        match r {
            Some(ps) => is_maplist_of(models_of_items(items@), ps@),
            None => !maplist_shape(models_of_items(items@)),
        },
{
    proof {
        lemma_models_of_items_all(items@);
    }
    let mut out: Vec<StringMap> = Vec::new();
    let mut k: usize = 0;
    while k < items.len()
        invariant
            k <= items@.len(),
            out@.len() == k,
            forall|q: int|
                0 <= q < k ==> is_strmap_json(models_of_items(items@)[q], #[trigger] out@[q]),
            models_of_items(items@).len() == items@.len(),
            forall|q: int|
                0 <= q < items@.len() ==> models_of_items(items@)[q] == model_of(items@[q]),
        decreases items@.len() - k,
    {
        match &items[k] {
            JsonValue::Obj(o) => match strmap_from_obj(o) {
                Some(p) => {
                    proof {
                        assert(model_of(items@[k as int]) == JsonSpec::Obj(
                            models_of_members(o@),
                        ));
                        assert(is_strmap_json(models_of_items(items@)[k as int], p));
                    }
                    out.push(p);
                },
                None => {
                    proof {
                        assert(model_of(items@[k as int]) == JsonSpec::Obj(
                            models_of_members(o@),
                        ));
                        assert(!(models_of_items(items@)[k as int] matches JsonSpec::Obj(om)
                            && strmap_shape(om)));
                    }
                    return None;
                },
            },
            _ => {
                proof {
                    assert(!(models_of_items(items@)[k as int] matches JsonSpec::Obj(_)));
                }
                return None;
            },
        }
        k = k + 1;
    }
    Some(out)
}

// Optional composite fields: absent or null is nothing; a present value
// of the wrong shape fails the whole decode.

pub open spec fn opt_strmap_ok(m: Seq<(Seq<char>, JsonSpec)>, key: Seq<char>) -> bool {
    match field_opt(m, key) {
        None => true,
        Some(j) => j matches JsonSpec::Obj(o) && strmap_shape(o),
    }
}

pub open spec fn opt_strmap_rel(
    m: Seq<(Seq<char>, JsonSpec)>,
    key: Seq<char>,
    p: Option<StringMap>,
) -> bool {
    match field_opt(m, key) {
        None => p is None,
        Some(j) => j matches JsonSpec::Obj(o) && p matches Some(sm) && is_strmap_of(o, sm@),
    }
}

pub open spec fn opt_maplist_ok(m: Seq<(Seq<char>, JsonSpec)>, key: Seq<char>) -> bool {
    match field_opt(m, key) {
        None => true,
        Some(j) => j matches JsonSpec::Arr(items) && maplist_shape(items),
    }
}

pub open spec fn opt_maplist_rel(
    m: Seq<(Seq<char>, JsonSpec)>,
    key: Seq<char>,
    p: Option<Vec<StringMap>>,
) -> bool {
    match field_opt(m, key) {
        None => p is None,
        Some(j) => j matches JsonSpec::Arr(items) && p matches Some(ps) && is_maplist_of(
            items,
            ps@,
        ),
    }
}

pub open spec fn opt_traits_ok(m: Seq<(Seq<char>, JsonSpec)>, key: Seq<char>) -> bool {
    match field_opt(m, key) {
        None => true,
        Some(j) => j matches JsonSpec::Arr(items) && traits_shape(items),
    }
}

pub open spec fn opt_traits_rel(
    m: Seq<(Seq<char>, JsonSpec)>,
    key: Seq<char>,
    p: Option<Vec<TraitData>>,
) -> bool {
    match field_opt(m, key) {
        None => p is None,
        Some(j) => j matches JsonSpec::Arr(items) && p matches Some(ts) && is_traits_of(
            items,
            ts@,
        ),
    }
}

pub open spec fn opt_strings_ok(m: Seq<(Seq<char>, JsonSpec)>, key: Seq<char>) -> bool {
    match field_opt(m, key) {
        None => true,
        Some(j) => j matches JsonSpec::Arr(items) && strings_shape(items),
    }
}

pub open spec fn opt_strings_rel(
    m: Seq<(Seq<char>, JsonSpec)>,
    key: Seq<char>,
    p: Option<Vec<String>>,
) -> bool {
    match field_opt(m, key) {
        None => p is None,
        Some(j) => j matches JsonSpec::Arr(items) && p matches Some(ss) && is_strings_of(
            items,
            ss@,
        ),
    }
}

// ---------------------------------------------------------------------------
// Locations.
// ---------------------------------------------------------------------------

pub open spec fn location_shape(j: JsonSpec) -> bool {
    &&& j matches JsonSpec::Obj(m)
    &&& field_str(m, "systemSymbol"@) is Some
    &&& field_str(m, "symbol"@) is Some
    &&& field_str(m, "type"@) is Some
    &&& field_ranged(m, "x"@, -0x8000_0000, 0x7fff_ffff) is Some
    &&& field_ranged(m, "y"@, -0x8000_0000, 0x7fff_ffff) is Some
    &&& opt_maplist_ok(m, "orbitals"@)
    &&& opt_traits_ok(m, "traits"@)
    &&& opt_strmap_ok(m, "chart"@)
    &&& opt_strmap_ok(m, "faction"@)
}

/// `l` holds exactly what the object's waypoint fields say. The `x`
/// and `y` coordinates stand beside the named fields, flattened.
pub open spec fn is_location_of(j: JsonSpec, l: LocationData) -> bool {
    &&& j matches JsonSpec::Obj(m)
    &&& field_str(m, "systemSymbol"@) == Some(l.system_symbol@)
    &&& field_str(m, "symbol"@) == Some(l.symbol@)
    &&& field_str(m, "type"@) == Some(l.location_type@)
    &&& field_ranged(m, "x"@, -0x8000_0000, 0x7fff_ffff) == Some(l.coords.x as int)
    &&& field_ranged(m, "y"@, -0x8000_0000, 0x7fff_ffff) == Some(l.coords.y as int)
    &&& opt_maplist_rel(m, "orbitals"@, l.orbitals)
    &&& opt_traits_rel(m, "traits"@, l.traits)
    &&& opt_strmap_rel(m, "chart"@, l.chart)
    &&& opt_strmap_rel(m, "faction"@, l.faction)
}

pub fn location_from_json(v: &JsonValue) -> (r: Option<LocationData>)
    ensures
        match r {
            Some(l) => is_location_of(model_of(*v), l),
            None => !location_shape(model_of(*v)),
        },
{
    let members = match v {
        JsonValue::Obj(members) => members,
        _ => {
            return None;
        },
    };
    let system_symbol = match get_str(members, "systemSymbol") {
        Some(s) => s,
        None => {
            return None;
        },
    };
    let symbol = match get_str(members, "symbol") {
        Some(s) => s,
        None => {
            return None;
        },
    };
    let location_type = match get_str(members, "type") {
        Some(s) => s,
        None => {
            return None;
        },
    };
    let x = match get_i32(members, "x") {
        Some(n) => n,
        None => {
            return None;
        },
    };
    let y = match get_i32(members, "y") {
        Some(n) => n,
        None => {
            return None;
        },
    };
    let orbitals = match get_opt(members, "orbitals") {
        None => None,
        Some(JsonValue::Arr(items)) => match maplist_from_arr(items) {
            Some(ps) => Some(ps),
            None => {
                return None;
            },
        },
        Some(_) => {
            return None;
        },
    };
    let traits = match get_opt(members, "traits") {
        None => None,
        Some(JsonValue::Arr(items)) => match traits_from_arr(items) {
            Some(ts) => Some(ts),
            None => {
                return None;
            },
        },
        Some(_) => {
            return None;
        },
    };
    let chart = match get_opt(members, "chart") {
        None => None,
        Some(JsonValue::Obj(o)) => match strmap_from_obj(o) {
            Some(p) => Some(p),
            None => {
                return None;
            },
        },
        Some(_) => {
            return None;
        },
    };
    let faction = match get_opt(members, "faction") {
        None => None,
        Some(JsonValue::Obj(o)) => match strmap_from_obj(o) {
            Some(p) => Some(p),
            None => {
                return None;
            },
        },
        Some(_) => {
            return None;
        },
    };
    Some(
        LocationData {
            system_symbol,
            symbol,
            location_type,
            coords: Coords { x, y },
            orbitals,
            traits,
            chart,
            faction,
        },
    )
}

// ---------------------------------------------------------------------------
// The error payload.
// ---------------------------------------------------------------------------

pub open spec fn error_shape(j: JsonSpec) -> bool {
    &&& j matches JsonSpec::Obj(m)
    &&& field_str(m, "message"@) is Some
    &&& field_ranged(m, "code"@, -0x8000_0000, 0x7fff_ffff) is Some
    &&& match field_opt(m, "data"@) {
        None => true,
        Some(j2) => j2 matches JsonSpec::Obj(_),
    }
}

/// `e` holds exactly what the object's error fields say; the auxiliary
/// `data` map is kept as it came, uninterpreted.
pub open spec fn is_error_of(j: JsonSpec, e: ErrorResponse) -> bool {
    &&& j matches JsonSpec::Obj(m)
    &&& field_str(m, "message"@) == Some(e.message@)
    &&& field_ranged(m, "code"@, -0x8000_0000, 0x7fff_ffff) == Some(e.code as int)
    &&& match field_opt(m, "data"@) {
        None => e.data is None,
        Some(j2) => j2 matches JsonSpec::Obj(o) && e.data matches Some(d) && models_of_members(
            d@,
        ) == o,
    }
}

pub fn error_from_json(v: &JsonValue) -> (r: Option<ErrorResponse>)
    ensures
        match r {
            Some(e) => is_error_of(model_of(*v), e),
            None => !error_shape(model_of(*v)),
        },
{
    let members = match v {
        JsonValue::Obj(members) => members,
        _ => {
            return None;
        },
    };
    let message = match get_str(members, "message") {
        Some(s) => s,
        None => {
            return None;
        },
    };
    let code = match get_i32(members, "code") {
        Some(n) => n,
        None => {
            return None;
        },
    };
    let data = match get_opt(members, "data") {
        None => None,
        Some(JsonValue::Obj(o)) => Some(copy_members(o)),
        Some(_) => {
            return None;
        },
    };
    Some(ErrorResponse { message, code, data })
}

/// A deep copy of an object's members, with the same models.
fn copy_members(members: &Vec<(String, JsonValue)>) -> (r: Vec<(String, JsonValue)>)
    ensures
        models_of_members(r@) == models_of_members(members@),
{
    proof {
        lemma_models_of_members_all(members@);
    }
    let mut out: Vec<(String, JsonValue)> = Vec::new();
    let mut k: usize = 0;
    while k < members.len()
        invariant
            k <= members@.len(),
            out@.len() == k,
            forall|q: int|
                0 <= q < k ==> models_of_members(members@)[q] == (
                    (#[trigger] out@[q]).0@,
                    model_of(out@[q].1),
                ),
            models_of_members(members@).len() == members@.len(),
            forall|q: int|
                0 <= q < members@.len() ==> models_of_members(members@)[q] == (
                    members@[q].0@,
                    model_of(members@[q].1),
                ),
        decreases members@.len() - k,
    {
        let c = clone_json(&members[k].1);
        let key = members[k].0.clone();
        out.push((key, c));
        k = k + 1;
    }
    proof {
        lemma_models_of_members_all(out@);
        assert(models_of_members(out@) =~= models_of_members(members@));
    }
    out
}

// ---------------------------------------------------------------------------
// Factions.
// ---------------------------------------------------------------------------

/// The faction whose wire identifier is `s`, if any.
pub fn faction_from_symbol(s: &String) -> (r: Option<Factions>)
    ensures
        match r {
            Some(f) => spec_faction_name(f) == s@,
            None => forall|f: Factions| spec_faction_name(f) != s@,
        },
{
    proof {
        reveal_strlit("COSMIC");
        reveal_strlit("VOID");
        reveal_strlit("GALACTIC");
        reveal_strlit("QUANTUM");
        reveal_strlit("DOMINION");
        reveal_strlit("ASTRO");
        reveal_strlit("CORSAIRS");
        assert("COSMIC"@ =~= spec_faction_name(Factions::Cosmic));
        assert("VOID"@ =~= spec_faction_name(Factions::Void));
        assert("GALACTIC"@ =~= spec_faction_name(Factions::Galactic));
        assert("QUANTUM"@ =~= spec_faction_name(Factions::Quantum));
        assert("DOMINION"@ =~= spec_faction_name(Factions::Dominion));
        assert("ASTRO"@ =~= spec_faction_name(Factions::Astro));
        assert("CORSAIRS"@ =~= spec_faction_name(Factions::Corsairs));
    }
    if *s == String::from_str("COSMIC") {
        Some(Factions::Cosmic)
    } else if *s == String::from_str("VOID") {
        Some(Factions::Void)
    } else if *s == String::from_str("GALACTIC") {
        Some(Factions::Galactic)
    } else if *s == String::from_str("QUANTUM") {
        Some(Factions::Quantum)
    } else if *s == String::from_str("DOMINION") {
        Some(Factions::Dominion)
    } else if *s == String::from_str("ASTRO") {
        Some(Factions::Astro)
    } else {
        if *s == String::from_str("CORSAIRS") {
            Some(Factions::Corsairs)
        } else {
            None
        }
    }
}


// ---------------------------------------------------------------------------
// Factions with metadata.
// ---------------------------------------------------------------------------

pub open spec fn faction_data_shape(m: Seq<(Seq<char>, JsonSpec)>) -> bool {
    &&& exists|f: Factions| field_str(m, "symbol"@) == Some(spec_faction_name(f))
    &&& field_str(m, "name"@) is Some
    &&& field_str(m, "description"@) is Some
    &&& field_str(m, "headquarters"@) is Some
    &&& field_arr(m, "traits"@) matches Some(items) && traits_shape(items)
}

pub open spec fn is_faction_data_of(m: Seq<(Seq<char>, JsonSpec)>, fd: FactionData) -> bool {
    &&& field_str(m, "symbol"@) == Some(spec_faction_name(fd.symbol))
    &&& field_str(m, "name"@) == Some(fd.name@)
    &&& field_str(m, "description"@) == Some(fd.description@)
    &&& field_str(m, "headquarters"@) == Some(fd.headquarters@)
    &&& field_arr(m, "traits"@) matches Some(items) && is_traits_of(items, fd.traits@)
}

pub fn faction_data_from_obj(members: &Vec<(String, JsonValue)>) -> (r: Option<FactionData>)
    ensures
        match r {
            Some(fd) => is_faction_data_of(models_of_members(members@), fd),
            None => !faction_data_shape(models_of_members(members@)),
        },
{
    let symbol_name = match get_str(members, "symbol") {
        Some(s) => s,
        None => {
            return None;
        },
    };
    let symbol = match faction_from_symbol(&symbol_name) {
        Some(f) => f,
        None => {
            return None;
        },
    };
    let name = match get_str(members, "name") {
        Some(s) => s,
        None => {
            return None;
        },
    };
    let description = match get_str(members, "description") {
        Some(s) => s,
        None => {
            return None;
        },
    };
    let headquarters = match get_str(members, "headquarters") {
        Some(s) => s,
        None => {
            return None;
        },
    };
    let traits = match get_arr(members, "traits") {
        Some(items) => match traits_from_arr(items) {
            Some(ts) => ts,
            None => {
                return None;
            },
        },
        None => {
            return None;
        },
    };
    Some(FactionData { symbol, name, description, headquarters, traits })
}

// ---------------------------------------------------------------------------
// Contracts.
// ---------------------------------------------------------------------------

pub open spec fn payment_shape(m: Seq<(Seq<char>, JsonSpec)>) -> bool {
    &&& field_int(m, "onAccepted"@) is Some
    &&& field_int(m, "onFulfilled"@) is Some
}

pub open spec fn is_payment_of(m: Seq<(Seq<char>, JsonSpec)>, p: PaymentInfo) -> bool {
    &&& field_int(m, "onAccepted"@) == Some(p.on_accepted as int)
    &&& field_int(m, "onFulfilled"@) == Some(p.on_fulfilled as int)
}

pub fn payment_from_obj(members: &Vec<(String, JsonValue)>) -> (r: Option<PaymentInfo>)
    ensures
        match r {
            Some(p) => is_payment_of(models_of_members(members@), p),
            None => !payment_shape(models_of_members(members@)),
        },
{
    let on_accepted = match get_i64(members, "onAccepted") {
        Some(n) => n,
        None => {
            return None;
        },
    };
    let on_fulfilled = match get_i64(members, "onFulfilled") {
        Some(n) => n,
        None => {
            return None;
        },
    };
    Some(PaymentInfo { on_accepted, on_fulfilled })
}

pub open spec fn delivery_shape(j: JsonSpec) -> bool {
    &&& j matches JsonSpec::Obj(m)
    &&& field_str(m, "tradeSymbol"@) is Some
    &&& field_str(m, "destinationSymbol"@) is Some
    &&& field_int(m, "unitsRequired"@) is Some
    &&& field_int(m, "unitsFulfilled"@) is Some
}

pub open spec fn is_delivery_of(j: JsonSpec, d: DeliveryInfo) -> bool {
    &&& j matches JsonSpec::Obj(m)
    &&& field_str(m, "tradeSymbol"@) == Some(d.trade_symbol@)
    &&& field_str(m, "destinationSymbol"@) == Some(d.destination_symbol@)
    &&& field_int(m, "unitsRequired"@) == Some(d.units_required as int)
    &&& field_int(m, "unitsFulfilled"@) == Some(d.units_fulfilled as int)
}

pub fn delivery_from_json(v: &JsonValue) -> (r: Option<DeliveryInfo>)
    ensures
        match r {
            Some(d) => is_delivery_of(model_of(*v), d),
            None => !delivery_shape(model_of(*v)),
        },
{
    let members = match v {
        JsonValue::Obj(members) => members,
        _ => {
            return None;
        },
    };
    let trade_symbol = match get_str(members, "tradeSymbol") {
        Some(s) => s,
        None => {
            return None;
        },
    };
    let destination_symbol = match get_str(members, "destinationSymbol") {
        Some(s) => s,
        None => {
            return None;
        },
    };
    let units_required = match get_i64(members, "unitsRequired") {
        Some(n) => n,
        None => {
            return None;
        },
    };
    let units_fulfilled = match get_i64(members, "unitsFulfilled") {
        Some(n) => n,
        None => {
            return None;
        },
    };
    Some(DeliveryInfo { trade_symbol, destination_symbol, units_required, units_fulfilled })
}

pub open spec fn deliveries_shape(items: Seq<JsonSpec>) -> bool {
    forall|k: int| 0 <= k < items.len() ==> delivery_shape(#[trigger] items[k])
}

pub open spec fn is_deliveries_of(items: Seq<JsonSpec>, ds: Seq<DeliveryInfo>) -> bool {
    &&& ds.len() == items.len()
    &&& forall|k: int| 0 <= k < items.len() ==> is_delivery_of(#[trigger] items[k], ds[k])
}

pub fn deliveries_from_arr(items: &Vec<JsonValue>) -> (r: Option<Vec<DeliveryInfo>>)
    ensures
        match r {
            Some(ds) => is_deliveries_of(models_of_items(items@), ds@),
            None => !deliveries_shape(models_of_items(items@)),
        },
{
    proof {
        lemma_models_of_items_all(items@);
    }
    let mut out: Vec<DeliveryInfo> = Vec::new();
    let mut k: usize = 0;
    while k < items.len()
        invariant
            k <= items@.len(),
            out@.len() == k,
            forall|q: int| 0 <= q < k ==> is_delivery_of(models_of_items(items@)[q], out@[q]),
            models_of_items(items@).len() == items@.len(),
            forall|q: int|
                0 <= q < items@.len() ==> models_of_items(items@)[q] == model_of(items@[q]),
        decreases items@.len() - k,
    {
        match delivery_from_json(&items[k]) {
            Some(d) => {
                out.push(d);
            },
            None => {
                proof {
                    assert(!delivery_shape(models_of_items(items@)[k as int]));
                }
                return None;
            },
        }
        k = k + 1;
    }
    Some(out)
}

pub open spec fn terms_shape(m: Seq<(Seq<char>, JsonSpec)>) -> bool {
    &&& field_str(m, "deadline"@) is Some
    &&& field_obj(m, "payment"@) matches Some(pm) && payment_shape(pm)
    &&& field_arr(m, "deliver"@) matches Some(items) && deliveries_shape(items)
}

pub open spec fn is_terms_of(m: Seq<(Seq<char>, JsonSpec)>, t: ContractTerms) -> bool {
    &&& field_str(m, "deadline"@) == Some(t.deadline@)
    &&& field_obj(m, "payment"@) matches Some(pm) && is_payment_of(pm, t.payment)
    &&& field_arr(m, "deliver"@) matches Some(items) && is_deliveries_of(items, t.deliver@)
}

pub fn terms_from_obj(members: &Vec<(String, JsonValue)>) -> (r: Option<ContractTerms>)
    ensures
        match r {
            Some(t) => is_terms_of(models_of_members(members@), t),
            None => !terms_shape(models_of_members(members@)),
        },
{
    let deadline = match get_str(members, "deadline") {
        Some(s) => s,
        None => {
            return None;
        },
    };
    let payment = match get_obj(members, "payment") {
        Some(pm) => match payment_from_obj(pm) {
            Some(p) => p,
            None => {
                return None;
            },
        },
        None => {
            return None;
        },
    };
    let deliver = match get_arr(members, "deliver") {
        Some(items) => match deliveries_from_arr(items) {
            Some(ds) => ds,
            None => {
                return None;
            },
        },
        None => {
            return None;
        },
    };
    Some(ContractTerms { deadline, payment, deliver })
}

pub open spec fn contract_shape(m: Seq<(Seq<char>, JsonSpec)>) -> bool {
    &&& field_str(m, "id"@) is Some
    &&& field_str(m, "factionSymbol"@) is Some
    &&& field_str(m, "type"@) is Some
    &&& field_obj(m, "terms"@) matches Some(tm) && terms_shape(tm)
    &&& field_bool(m, "accepted"@) is Some
    &&& field_bool(m, "fulfilled"@) is Some
    &&& field_str(m, "expiration"@) is Some
}

pub open spec fn is_contract_of(m: Seq<(Seq<char>, JsonSpec)>, c: ContractData) -> bool {
    &&& field_str(m, "id"@) == Some(c.id@)
    &&& field_str(m, "factionSymbol"@) == Some(c.faction_symbol@)
    &&& field_str(m, "type"@) == Some(c.contract_type@)
    &&& field_obj(m, "terms"@) matches Some(tm) && is_terms_of(tm, c.terms)
    &&& field_bool(m, "accepted"@) == Some(c.accepted)
    &&& field_bool(m, "fulfilled"@) == Some(c.fulfilled)
    &&& field_str(m, "expiration"@) == Some(c.expiration@)
}

pub fn contract_from_obj(members: &Vec<(String, JsonValue)>) -> (r: Option<ContractData>)
    ensures
        match r {
            Some(c) => is_contract_of(models_of_members(members@), c),
            None => !contract_shape(models_of_members(members@)),
        },
{
    let id = match get_str(members, "id") {
        Some(s) => s,
        None => {
            return None;
        },
    };
    let faction_symbol = match get_str(members, "factionSymbol") {
        Some(s) => s,
        None => {
            return None;
        },
    };
    let contract_type = match get_str(members, "type") {
        Some(s) => s,
        None => {
            return None;
        },
    };
    let terms = match get_obj(members, "terms") {
        Some(tm) => match terms_from_obj(tm) {
            Some(t) => t,
            None => {
                return None;
            },
        },
        None => {
            return None;
        },
    };
    let accepted = match get_bool(members, "accepted") {
        Some(b) => b,
        None => {
            return None;
        },
    };
    let fulfilled = match get_bool(members, "fulfilled") {
        Some(b) => b,
        None => {
            return None;
        },
    };
    let expiration = match get_str(members, "expiration") {
        Some(s) => s,
        None => {
            return None;
        },
    };
    Some(
        ContractData {
            id,
            faction_symbol,
            contract_type,
            terms,
            accepted,
            fulfilled,
            expiration,
        },
    )
}


// ---------------------------------------------------------------------------
// Ships.
// ---------------------------------------------------------------------------

pub open spec fn requirements_shape(m: Seq<(Seq<char>, JsonSpec)>) -> bool {
    &&& opt_ranged_ok(m, "crew"@, 0, 0xff)
    &&& opt_ranged_ok(m, "power"@, 0, 0xff)
    &&& opt_ranged_ok(m, "slots"@, 0, 0xff)
}

pub open spec fn opt_u8_rel(m: Seq<(Seq<char>, JsonSpec)>, key: Seq<char>, v: Option<u8>) -> bool {
    match v {
        Some(n) => opt_ranged_val(m, key) == Some(n as int),
        None => field_opt(m, key) is None,
    }
}

pub open spec fn opt_u16_rel(
    m: Seq<(Seq<char>, JsonSpec)>,
    key: Seq<char>,
    v: Option<u16>,
) -> bool {
    match v {
        Some(n) => opt_ranged_val(m, key) == Some(n as int),
        None => field_opt(m, key) is None,
    }
}

pub open spec fn is_requirements_of(
    m: Seq<(Seq<char>, JsonSpec)>,
    r: ComponentRequirements,
) -> bool {
    &&& opt_u8_rel(m, "crew"@, r.crew)
    &&& opt_u8_rel(m, "power"@, r.power)
    &&& opt_u8_rel(m, "slots"@, r.slots)
}

pub fn requirements_from_obj(members: &Vec<(String, JsonValue)>) -> (r: Option<
    ComponentRequirements,
>)
    ensures
        match r {
            Some(cr) => is_requirements_of(models_of_members(members@), cr),
            None => !requirements_shape(models_of_members(members@)),
        },
{
    let crew = match get_opt_u8(members, "crew") {
        Some(o) => o,
        None => {
            return None;
        },
    };
    let power = match get_opt_u8(members, "power") {
        Some(o) => o,
        None => {
            return None;
        },
    };
    let slots = match get_opt_u8(members, "slots") {
        Some(o) => o,
        None => {
            return None;
        },
    };
    Some(ComponentRequirements { crew, power, slots })
}

/// The shape every component shares; its fields stand beside whatever
/// the particular component adds, in the same object.
pub open spec fn component_shape(m: Seq<(Seq<char>, JsonSpec)>) -> bool {
    &&& field_str(m, "symbol"@) is Some
    &&& field_str(m, "name"@) is Some
    &&& field_str(m, "description"@) is Some
    &&& opt_ranged_ok(m, "condition"@, 0, 0xff)
    &&& field_obj(m, "requirements"@) matches Some(rm) && requirements_shape(rm)
}

pub open spec fn is_component_of(m: Seq<(Seq<char>, JsonSpec)>, c: ComponentInfo) -> bool {
    &&& field_str(m, "symbol"@) == Some(c.symbol@)
    &&& field_str(m, "name"@) == Some(c.name@)
    &&& field_str(m, "description"@) == Some(c.description@)
    &&& opt_u8_rel(m, "condition"@, c.condition)
    &&& field_obj(m, "requirements"@) matches Some(rm) && is_requirements_of(rm, c.requirements)
}

pub fn component_from_obj(members: &Vec<(String, JsonValue)>) -> (r: Option<ComponentInfo>)
    ensures
        match r {
            Some(c) => is_component_of(models_of_members(members@), c),
            None => !component_shape(models_of_members(members@)),
        },
{
    let symbol = match get_str(members, "symbol") {
        Some(s) => s,
        None => {
            return None;
        },
    };
    let name = match get_str(members, "name") {
        Some(s) => s,
        None => {
            return None;
        },
    };
    let description = match get_str(members, "description") {
        Some(s) => s,
        None => {
            return None;
        },
    };
    let condition = match get_opt_u8(members, "condition") {
        Some(o) => o,
        None => {
            return None;
        },
    };
    let requirements = match get_obj(members, "requirements") {
        Some(rm) => match requirements_from_obj(rm) {
            Some(cr) => cr,
            None => {
                return None;
            },
        },
        None => {
            return None;
        },
    };
    Some(ComponentInfo { symbol, name, description, condition, requirements })
}

pub open spec fn frame_shape(m: Seq<(Seq<char>, JsonSpec)>) -> bool {
    &&& component_shape(m)
    &&& field_ranged(m, "moduleSlots"@, 0, 0xff) is Some
    &&& field_ranged(m, "mountingPoints"@, 0, 0xff) is Some
    &&& field_ranged(m, "fuelCapacity"@, 0, 0xffff) is Some
}

pub open spec fn is_frame_of(m: Seq<(Seq<char>, JsonSpec)>, f: FrameInfo) -> bool {
    &&& is_component_of(m, f.component_info)
    &&& field_ranged(m, "moduleSlots"@, 0, 0xff) == Some(f.module_slots as int)
    &&& field_ranged(m, "mountingPoints"@, 0, 0xff) == Some(f.mounting_points as int)
    &&& field_ranged(m, "fuelCapacity"@, 0, 0xffff) == Some(f.fuel_capacity as int)
}

pub fn frame_from_obj(members: &Vec<(String, JsonValue)>) -> (r: Option<FrameInfo>)
    ensures
        match r {
            Some(f) => is_frame_of(models_of_members(members@), f),
            None => !frame_shape(models_of_members(members@)),
        },
{
    let component_info = match component_from_obj(members) {
        Some(c) => c,
        None => {
            return None;
        },
    };
    let module_slots = match get_u8(members, "moduleSlots") {
        Some(n) => n,
        None => {
            return None;
        },
    };
    let mounting_points = match get_u8(members, "mountingPoints") {
        Some(n) => n,
        None => {
            return None;
        },
    };
    let fuel_capacity = match get_u16(members, "fuelCapacity") {
        Some(n) => n,
        None => {
            return None;
        },
    };
    Some(FrameInfo { component_info, module_slots, mounting_points, fuel_capacity })
}

pub open spec fn reactor_shape(m: Seq<(Seq<char>, JsonSpec)>) -> bool {
    &&& component_shape(m)
    &&& field_ranged(m, "powerOutput"@, 0, 0xff) is Some
}

pub open spec fn is_reactor_of(m: Seq<(Seq<char>, JsonSpec)>, f: ReactorInfo) -> bool {
    &&& is_component_of(m, f.component_info)
    &&& field_ranged(m, "powerOutput"@, 0, 0xff) == Some(f.power_output as int)
}

pub fn reactor_from_obj(members: &Vec<(String, JsonValue)>) -> (r: Option<ReactorInfo>)
    ensures
        match r {
            Some(f) => is_reactor_of(models_of_members(members@), f),
            None => !reactor_shape(models_of_members(members@)),
        },
{
    let component_info = match component_from_obj(members) {
        Some(c) => c,
        None => {
            return None;
        },
    };
    let power_output = match get_u8(members, "powerOutput") {
        Some(n) => n,
        None => {
            return None;
        },
    };
    Some(ReactorInfo { component_info, power_output })
}

pub open spec fn engine_shape(m: Seq<(Seq<char>, JsonSpec)>) -> bool {
    &&& component_shape(m)
    &&& field_ranged(m, "speed"@, 0, 0xffff) is Some
}

pub open spec fn is_engine_of(m: Seq<(Seq<char>, JsonSpec)>, f: EngineInfo) -> bool {
    &&& is_component_of(m, f.component_info)
    &&& field_ranged(m, "speed"@, 0, 0xffff) == Some(f.speed as int)
}

pub fn engine_from_obj(members: &Vec<(String, JsonValue)>) -> (r: Option<EngineInfo>)
    ensures
        match r {
            Some(f) => is_engine_of(models_of_members(members@), f),
            None => !engine_shape(models_of_members(members@)),
        },
{
    let component_info = match component_from_obj(members) {
        Some(c) => c,
        None => {
            return None;
        },
    };
    let speed = match get_u16(members, "speed") {
        Some(n) => n,
        None => {
            return None;
        },
    };
    Some(EngineInfo { component_info, speed })
}

pub open spec fn module_shape(j: JsonSpec) -> bool {
    &&& j matches JsonSpec::Obj(m)
    &&& component_shape(m)
    &&& opt_ranged_ok(m, "capacity"@, 0, 0xffff)
}

pub open spec fn is_module_of(j: JsonSpec, f: ModuleInfo) -> bool {
    &&& j matches JsonSpec::Obj(m)
    &&& is_component_of(m, f.component_info)
    &&& opt_u16_rel(m, "capacity"@, f.capacity)
}

pub fn module_from_json(v: &JsonValue) -> (r: Option<ModuleInfo>)
    ensures
        match r {
            Some(f) => is_module_of(model_of(*v), f),
            None => !module_shape(model_of(*v)),
        },
{
    let members = match v {
        JsonValue::Obj(members) => members,
        _ => {
            return None;
        },
    };
    let component_info = match component_from_obj(members) {
        Some(c) => c,
        None => {
            return None;
        },
    };
    let capacity = match get_opt_u16(members, "capacity") {
        Some(o) => o,
        None => {
            return None;
        },
    };
    Some(ModuleInfo { component_info, capacity })
}

pub open spec fn modules_shape(items: Seq<JsonSpec>) -> bool {
    forall|k: int| 0 <= k < items.len() ==> module_shape(#[trigger] items[k])
}

pub open spec fn is_modules_of(items: Seq<JsonSpec>, fs: Seq<ModuleInfo>) -> bool {
    &&& fs.len() == items.len()
    &&& forall|k: int| 0 <= k < items.len() ==> is_module_of(#[trigger] items[k], fs[k])
}

pub fn modules_from_arr(items: &Vec<JsonValue>) -> (r: Option<Vec<ModuleInfo>>)
    ensures
        match r {
            Some(fs) => is_modules_of(models_of_items(items@), fs@),
            None => !modules_shape(models_of_items(items@)),
        },
{
    proof {
        lemma_models_of_items_all(items@);
    }
    let mut out: Vec<ModuleInfo> = Vec::new();
    let mut k: usize = 0;
    while k < items.len()
        invariant
            k <= items@.len(),
            out@.len() == k,
            forall|q: int| 0 <= q < k ==> is_module_of(models_of_items(items@)[q], out@[q]),
            models_of_items(items@).len() == items@.len(),
            forall|q: int|
                0 <= q < items@.len() ==> models_of_items(items@)[q] == model_of(items@[q]),
        decreases items@.len() - k,
    {
        match module_from_json(&items[k]) {
            Some(f) => {
                out.push(f);
            },
            None => {
                proof {
                    assert(!module_shape(models_of_items(items@)[k as int]));
                }
                return None;
            },
        }
        k = k + 1;
    }
    Some(out)
}

pub open spec fn mount_shape(j: JsonSpec) -> bool {
    &&& j matches JsonSpec::Obj(m)
    &&& component_shape(m)
    &&& field_ranged(m, "strength"@, 0, 0xff) is Some
    &&& opt_strings_ok(m, "deposits"@)
}

pub open spec fn is_mount_of(j: JsonSpec, f: MountInfo) -> bool {
    &&& j matches JsonSpec::Obj(m)
    &&& is_component_of(m, f.component_info)
    &&& field_ranged(m, "strength"@, 0, 0xff) == Some(f.strength as int)
    &&& opt_strings_rel(m, "deposits"@, f.deposits)
}

pub fn mount_from_json(v: &JsonValue) -> (r: Option<MountInfo>)
    ensures
        match r {
            Some(f) => is_mount_of(model_of(*v), f),
            None => !mount_shape(model_of(*v)),
        },
{
    let members = match v {
        JsonValue::Obj(members) => members,
        _ => {
            return None;
        },
    };
    let component_info = match component_from_obj(members) {
        Some(c) => c,
        None => {
            return None;
        },
    };
    let strength = match get_u8(members, "strength") {
        Some(n) => n,
        None => {
            return None;
        },
    };
    let deposits = match get_opt(members, "deposits") {
        None => None,
        Some(JsonValue::Arr(items)) => match strings_from_arr(items) {
            Some(ss) => Some(ss),
            None => {
                return None;
            },
        },
        Some(_) => {
            return None;
        },
    };
    Some(MountInfo { component_info, strength, deposits })
}

pub open spec fn mounts_shape(items: Seq<JsonSpec>) -> bool {
    forall|k: int| 0 <= k < items.len() ==> mount_shape(#[trigger] items[k])
}

pub open spec fn is_mounts_of(items: Seq<JsonSpec>, fs: Seq<MountInfo>) -> bool {
    &&& fs.len() == items.len()
    &&& forall|k: int| 0 <= k < items.len() ==> is_mount_of(#[trigger] items[k], fs[k])
}

pub fn mounts_from_arr(items: &Vec<JsonValue>) -> (r: Option<Vec<MountInfo>>)
    ensures
        match r {
            Some(fs) => is_mounts_of(models_of_items(items@), fs@),
            None => !mounts_shape(models_of_items(items@)),
        },
{
    proof {
        lemma_models_of_items_all(items@);
    }
    let mut out: Vec<MountInfo> = Vec::new();
    let mut k: usize = 0;
    while k < items.len()
        invariant
            k <= items@.len(),
            out@.len() == k,
            forall|q: int| 0 <= q < k ==> is_mount_of(models_of_items(items@)[q], out@[q]),
            models_of_items(items@).len() == items@.len(),
            forall|q: int|
                0 <= q < items@.len() ==> models_of_items(items@)[q] == model_of(items@[q]),
        decreases items@.len() - k,
    {
        match mount_from_json(&items[k]) {
            Some(f) => {
                out.push(f);
            },
            None => {
                proof {
                    assert(!mount_shape(models_of_items(items@)[k as int]));
                }
                return None;
            },
        }
        k = k + 1;
    }
    Some(out)
}


pub open spec fn consumed_shape(m: Seq<(Seq<char>, JsonSpec)>) -> bool {
    &&& field_ranged(m, "amount"@, 0, 0xffff_ffff) is Some
    &&& field_str(m, "timestamp"@) is Some
}

pub open spec fn is_consumed_of(m: Seq<(Seq<char>, JsonSpec)>, c: ConsumedFuel) -> bool {
    &&& field_ranged(m, "amount"@, 0, 0xffff_ffff) == Some(c.amount as int)
    &&& field_str(m, "timestamp"@) == Some(c.timestamp@)
}

pub fn consumed_from_obj(members: &Vec<(String, JsonValue)>) -> (r: Option<ConsumedFuel>)
    ensures
        match r {
            Some(c) => is_consumed_of(models_of_members(members@), c),
            None => !consumed_shape(models_of_members(members@)),
        },
{
    let amount = match get_u32(members, "amount") {
        Some(n) => n,
        None => {
            return None;
        },
    };
    let timestamp = match get_str(members, "timestamp") {
        Some(s) => s,
        None => {
            return None;
        },
    };
    Some(ConsumedFuel { amount, timestamp })
}

pub open spec fn fuel_shape(m: Seq<(Seq<char>, JsonSpec)>) -> bool {
    &&& field_ranged(m, "current"@, 0, 0xffff_ffff) is Some
    &&& field_ranged(m, "capacity"@, 0, 0xffff_ffff) is Some
    &&& field_obj(m, "consumed"@) matches Some(cm) && consumed_shape(cm)
}

pub open spec fn is_fuel_of(m: Seq<(Seq<char>, JsonSpec)>, f: FuelInfo) -> bool {
    &&& field_ranged(m, "current"@, 0, 0xffff_ffff) == Some(f.current as int)
    &&& field_ranged(m, "capacity"@, 0, 0xffff_ffff) == Some(f.capacity as int)
    &&& field_obj(m, "consumed"@) matches Some(cm) && is_consumed_of(cm, f.consumed)
}

pub fn fuel_from_obj(members: &Vec<(String, JsonValue)>) -> (r: Option<FuelInfo>)
    ensures
        match r {
            Some(f) => is_fuel_of(models_of_members(members@), f),
            None => !fuel_shape(models_of_members(members@)),
        },
{
    let current = match get_u32(members, "current") {
        Some(n) => n,
        None => {
            return None;
        },
    };
    let capacity = match get_u32(members, "capacity") {
        Some(n) => n,
        None => {
            return None;
        },
    };
    let consumed = match get_obj(members, "consumed") {
        Some(cm) => match consumed_from_obj(cm) {
            Some(c) => c,
            None => {
                return None;
            },
        },
        None => {
            return None;
        },
    };
    Some(FuelInfo { current, capacity, consumed })
}

pub open spec fn crew_shape(m: Seq<(Seq<char>, JsonSpec)>) -> bool {
    &&& field_ranged(m, "current"@, 0, 0xffff) is Some
    &&& field_ranged(m, "capacity"@, 0, 0xffff) is Some
    &&& field_ranged(m, "required"@, 0, 0xffff) is Some
    &&& field_str(m, "rotation"@) is Some
    &&& field_ranged(m, "morale"@, 0, 0xff) is Some
    &&& field_ranged(m, "wages"@, 0, 0xffff_ffff) is Some
}

pub open spec fn is_crew_of(m: Seq<(Seq<char>, JsonSpec)>, c: CrewInfo) -> bool {
    &&& field_ranged(m, "current"@, 0, 0xffff) == Some(c.current as int)
    &&& field_ranged(m, "capacity"@, 0, 0xffff) == Some(c.capacity as int)
    &&& field_ranged(m, "required"@, 0, 0xffff) == Some(c.required as int)
    &&& field_str(m, "rotation"@) == Some(c.rotation@)
    &&& field_ranged(m, "morale"@, 0, 0xff) == Some(c.morale as int)
    &&& field_ranged(m, "wages"@, 0, 0xffff_ffff) == Some(c.wages as int)
}

pub fn crew_from_obj(members: &Vec<(String, JsonValue)>) -> (r: Option<CrewInfo>)
    ensures
        match r {
            Some(c) => is_crew_of(models_of_members(members@), c),
            None => !crew_shape(models_of_members(members@)),
        },
{
    let current = match get_u16(members, "current") {
        Some(n) => n,
        None => {
            return None;
        },
    };
    let capacity = match get_u16(members, "capacity") {
        Some(n) => n,
        None => {
            return None;
        },
    };
    let required = match get_u16(members, "required") {
        Some(n) => n,
        None => {
            return None;
        },
    };
    let rotation = match get_str(members, "rotation") {
        Some(s) => s,
        None => {
            return None;
        },
    };
    let morale = match get_u8(members, "morale") {
        Some(n) => n,
        None => {
            return None;
        },
    };
    let wages = match get_u32(members, "wages") {
        Some(n) => n,
        None => {
            return None;
        },
    };
    Some(CrewInfo { current, capacity, required, rotation, morale, wages })
}

pub open spec fn cargo_item_shape(j: JsonSpec) -> bool {
    &&& j matches JsonSpec::Obj(m)
    &&& field_str(m, "symbol"@) is Some
    &&& field_str(m, "name"@) is Some
    &&& field_str(m, "description"@) is Some
    &&& field_ranged(m, "units"@, 0, 0xffff) is Some
}

pub open spec fn is_cargo_item_of(j: JsonSpec, c: CargoItem) -> bool {
    &&& j matches JsonSpec::Obj(m)
    &&& field_str(m, "symbol"@) == Some(c.symbol@)
    &&& field_str(m, "name"@) == Some(c.name@)
    &&& field_str(m, "description"@) == Some(c.description@)
    &&& field_ranged(m, "units"@, 0, 0xffff) == Some(c.units as int)
}

pub fn cargo_item_from_json(v: &JsonValue) -> (r: Option<CargoItem>)
    ensures
        match r {
            Some(c) => is_cargo_item_of(model_of(*v), c),
            None => !cargo_item_shape(model_of(*v)),
        },
{
    let members = match v {
        JsonValue::Obj(members) => members,
        _ => {
            return None;
        },
    };
    let symbol = match get_str(members, "symbol") {
        Some(s) => s,
        None => {
            return None;
        },
    };
    let name = match get_str(members, "name") {
        Some(s) => s,
        None => {
            return None;
        },
    };
    let description = match get_str(members, "description") {
        Some(s) => s,
        None => {
            return None;
        },
    };
    let units = match get_u16(members, "units") {
        Some(n) => n,
        None => {
            return None;
        },
    };
    Some(CargoItem { symbol, name, description, units })
}

pub open spec fn cargo_items_shape(items: Seq<JsonSpec>) -> bool {
    forall|k: int| 0 <= k < items.len() ==> cargo_item_shape(#[trigger] items[k])
}

pub open spec fn is_cargo_items_of(items: Seq<JsonSpec>, cs: Seq<CargoItem>) -> bool {
    &&& cs.len() == items.len()
    &&& forall|k: int| 0 <= k < items.len() ==> is_cargo_item_of(#[trigger] items[k], cs[k])
}

pub fn cargo_items_from_arr(items: &Vec<JsonValue>) -> (r: Option<Vec<CargoItem>>)
    ensures
        match r {
            Some(cs) => is_cargo_items_of(models_of_items(items@), cs@),
            None => !cargo_items_shape(models_of_items(items@)),
        },
{
    proof {
        lemma_models_of_items_all(items@);
    }
    let mut out: Vec<CargoItem> = Vec::new();
    let mut k: usize = 0;
    while k < items.len()
        invariant
            k <= items@.len(),
            out@.len() == k,
            forall|q: int| 0 <= q < k ==> is_cargo_item_of(models_of_items(items@)[q], out@[q]),
            models_of_items(items@).len() == items@.len(),
            forall|q: int|
                0 <= q < items@.len() ==> models_of_items(items@)[q] == model_of(items@[q]),
        decreases items@.len() - k,
    {
        match cargo_item_from_json(&items[k]) {
            Some(c) => {
                out.push(c);
            },
            None => {
                proof {
                    assert(!cargo_item_shape(models_of_items(items@)[k as int]));
                }
                return None;
            },
        }
        k = k + 1;
    }
    Some(out)
}

pub open spec fn cargo_shape(m: Seq<(Seq<char>, JsonSpec)>) -> bool {
    &&& field_ranged(m, "capacity"@, 0, 0xffff_ffff) is Some
    &&& field_ranged(m, "units"@, 0, 0xffff_ffff) is Some
    &&& field_arr(m, "inventory"@) matches Some(items) && cargo_items_shape(items)
}

pub open spec fn is_cargo_of(m: Seq<(Seq<char>, JsonSpec)>, c: CargoInfo) -> bool {
    &&& field_ranged(m, "capacity"@, 0, 0xffff_ffff) == Some(c.capacity as int)
    &&& field_ranged(m, "units"@, 0, 0xffff_ffff) == Some(c.units as int)
    &&& field_arr(m, "inventory"@) matches Some(items) && is_cargo_items_of(items, c.inventory@)
}

pub fn cargo_from_obj(members: &Vec<(String, JsonValue)>) -> (r: Option<CargoInfo>)
    ensures
        match r {
            Some(c) => is_cargo_of(models_of_members(members@), c),
            None => !cargo_shape(models_of_members(members@)),
        },
{
    let capacity = match get_u32(members, "capacity") {
        Some(n) => n,
        None => {
            return None;
        },
    };
    let units = match get_u32(members, "units") {
        Some(n) => n,
        None => {
            return None;
        },
    };
    let inventory = match get_arr(members, "inventory") {
        Some(items) => match cargo_items_from_arr(items) {
            Some(cs) => cs,
            None => {
                return None;
            },
        },
        None => {
            return None;
        },
    };
    Some(CargoInfo { capacity, units, inventory })
}

pub open spec fn ship_registration_shape(m: Seq<(Seq<char>, JsonSpec)>) -> bool {
    &&& field_str(m, "name"@) is Some
    &&& exists|f: Factions| field_str(m, "factionSymbol"@) == Some(spec_faction_name(f))
    &&& field_str(m, "role"@) is Some
}

pub open spec fn is_ship_registration_of(
    m: Seq<(Seq<char>, JsonSpec)>,
    s: ShipRegistration,
) -> bool {
    &&& field_str(m, "name"@) == Some(s.name@)
    &&& field_str(m, "factionSymbol"@) == Some(spec_faction_name(s.faction_symbol))
    &&& field_str(m, "role"@) == Some(s.role@)
}

pub fn ship_registration_from_obj(members: &Vec<(String, JsonValue)>) -> (r: Option<
    ShipRegistration,
>)
    ensures
        match r {
            Some(s) => is_ship_registration_of(models_of_members(members@), s),
            None => !ship_registration_shape(models_of_members(members@)),
        },
{
    let name = match get_str(members, "name") {
        Some(s) => s,
        None => {
            return None;
        },
    };
    let faction_name = match get_str(members, "factionSymbol") {
        Some(s) => s,
        None => {
            return None;
        },
    };
    let faction_symbol = match faction_from_symbol(&faction_name) {
        Some(f) => f,
        None => {
            return None;
        },
    };
    let role = match get_str(members, "role") {
        Some(s) => s,
        None => {
            return None;
        },
    };
    Some(ShipRegistration { name, faction_symbol, role })
}

pub open spec fn route_shape(m: Seq<(Seq<char>, JsonSpec)>) -> bool {
    &&& obj_get(m, "departure"@) matches Some(j) && location_shape(j)
    &&& obj_get(m, "destination"@) matches Some(j) && location_shape(j)
}

pub open spec fn is_route_of(m: Seq<(Seq<char>, JsonSpec)>, rt: Route) -> bool {
    &&& obj_get(m, "departure"@) matches Some(j) && is_location_of(j, rt.departure)
    &&& obj_get(m, "destination"@) matches Some(j) && is_location_of(j, rt.destination)
}

pub fn route_from_obj(members: &Vec<(String, JsonValue)>) -> (r: Option<Route>)
    ensures
        match r {
            Some(rt) => is_route_of(models_of_members(members@), rt),
            None => !route_shape(models_of_members(members@)),
        },
{
    let departure = match get_field(members, "departure") {
        Some(v) => match location_from_json(v) {
            Some(l) => l,
            None => {
                return None;
            },
        },
        None => {
            return None;
        },
    };
    let destination = match get_field(members, "destination") {
        Some(v) => match location_from_json(v) {
            Some(l) => l,
            None => {
                return None;
            },
        },
        None => {
            return None;
        },
    };
    Some(Route { departure, destination })
}

pub open spec fn nav_shape(m: Seq<(Seq<char>, JsonSpec)>) -> bool {
    &&& field_str(m, "systemSymbol"@) is Some
    &&& field_str(m, "waypointSymbol"@) is Some
    &&& field_obj(m, "route"@) matches Some(rm) && route_shape(rm)
    &&& field_str(m, "status"@) is Some
    &&& field_str(m, "flightMode"@) is Some
}

pub open spec fn is_nav_of(m: Seq<(Seq<char>, JsonSpec)>, n: NavInfo) -> bool {
    &&& field_str(m, "systemSymbol"@) == Some(n.system_symbol@)
    &&& field_str(m, "waypointSymbol"@) == Some(n.waypoint_symbol@)
    &&& field_obj(m, "route"@) matches Some(rm) && is_route_of(rm, n.route)
    &&& field_str(m, "status"@) == Some(n.status@)
    &&& field_str(m, "flightMode"@) == Some(n.flight_mode@)
}

pub fn nav_from_obj(members: &Vec<(String, JsonValue)>) -> (r: Option<NavInfo>)
    ensures
        match r {
            Some(n) => is_nav_of(models_of_members(members@), n),
            None => !nav_shape(models_of_members(members@)),
        },
{
    let system_symbol = match get_str(members, "systemSymbol") {
        Some(s) => s,
        None => {
            return None;
        },
    };
    let waypoint_symbol = match get_str(members, "waypointSymbol") {
        Some(s) => s,
        None => {
            return None;
        },
    };
    let route = match get_obj(members, "route") {
        Some(rm) => match route_from_obj(rm) {
            Some(rt) => rt,
            None => {
                return None;
            },
        },
        None => {
            return None;
        },
    };
    let status = match get_str(members, "status") {
        Some(s) => s,
        None => {
            return None;
        },
    };
    let flight_mode = match get_str(members, "flightMode") {
        Some(s) => s,
        None => {
            return None;
        },
    };
    Some(NavInfo { system_symbol, waypoint_symbol, route, status, flight_mode })
}

pub open spec fn ship_shape(m: Seq<(Seq<char>, JsonSpec)>) -> bool {
    &&& field_str(m, "symbol"@) is Some
    &&& field_obj(m, "nav"@) matches Some(nm) && nav_shape(nm)
    &&& field_obj(m, "crew"@) matches Some(cm) && crew_shape(cm)
    &&& field_obj(m, "fuel"@) matches Some(fm) && fuel_shape(fm)
    &&& field_obj(m, "frame"@) matches Some(frm) && frame_shape(frm)
    &&& field_obj(m, "reactor"@) matches Some(rm) && reactor_shape(rm)
    &&& field_obj(m, "engine"@) matches Some(em) && engine_shape(em)
    &&& field_arr(m, "modules"@) matches Some(mods) && modules_shape(mods)
    &&& field_arr(m, "mounts"@) matches Some(mts) && mounts_shape(mts)
    &&& field_obj(m, "registration"@) matches Some(regm) && ship_registration_shape(regm)
    &&& field_obj(m, "cargo"@) matches Some(cgm) && cargo_shape(cgm)
}

pub open spec fn is_ship_of(m: Seq<(Seq<char>, JsonSpec)>, s: ShipData) -> bool {
    &&& field_str(m, "symbol"@) == Some(s.symbol@)
    &&& field_obj(m, "nav"@) matches Some(nm) && is_nav_of(nm, s.nav)
    &&& field_obj(m, "crew"@) matches Some(cm) && is_crew_of(cm, s.crew)
    &&& field_obj(m, "fuel"@) matches Some(fm) && is_fuel_of(fm, s.fuel)
    &&& field_obj(m, "frame"@) matches Some(frm) && is_frame_of(frm, s.frame)
    &&& field_obj(m, "reactor"@) matches Some(rm) && is_reactor_of(rm, s.reactor)
    &&& field_obj(m, "engine"@) matches Some(em) && is_engine_of(em, s.engine)
    &&& field_arr(m, "modules"@) matches Some(mods) && is_modules_of(mods, s.modules@)
    &&& field_arr(m, "mounts"@) matches Some(mts) && is_mounts_of(mts, s.mounts@)
    &&& field_obj(m, "registration"@) matches Some(regm) && is_ship_registration_of(
        regm,
        s.registration,
    )
    &&& field_obj(m, "cargo"@) matches Some(cgm) && is_cargo_of(cgm, s.cargo)
}

pub fn ship_from_obj(members: &Vec<(String, JsonValue)>) -> (r: Option<ShipData>)
    ensures
        match r {
            Some(s) => is_ship_of(models_of_members(members@), s),
            None => !ship_shape(models_of_members(members@)),
        },
{
    let symbol = match get_str(members, "symbol") {
        Some(s) => s,
        None => {
            return None;
        },
    };
    let nav = match get_obj(members, "nav") {
        Some(nm) => match nav_from_obj(nm) {
            Some(n) => n,
            None => {
                return None;
            },
        },
        None => {
            return None;
        },
    };
    let crew = match get_obj(members, "crew") {
        Some(cm) => match crew_from_obj(cm) {
            Some(c) => c,
            None => {
                return None;
            },
        },
        None => {
            return None;
        },
    };
    let fuel = match get_obj(members, "fuel") {
        Some(fm) => match fuel_from_obj(fm) {
            Some(f) => f,
            None => {
                return None;
            },
        },
        None => {
            return None;
        },
    };
    let frame = match get_obj(members, "frame") {
        Some(frm) => match frame_from_obj(frm) {
            Some(f) => f,
            None => {
                return None;
            },
        },
        None => {
            return None;
        },
    };
    let reactor = match get_obj(members, "reactor") {
        Some(rm) => match reactor_from_obj(rm) {
            Some(f) => f,
            None => {
                return None;
            },
        },
        None => {
            return None;
        },
    };
    let engine = match get_obj(members, "engine") {
        Some(em) => match engine_from_obj(em) {
            Some(f) => f,
            None => {
                return None;
            },
        },
        None => {
            return None;
        },
    };
    let modules = match get_arr(members, "modules") {
        Some(items) => match modules_from_arr(items) {
            Some(ms) => ms,
            None => {
                return None;
            },
        },
        None => {
            return None;
        },
    };
    let mounts = match get_arr(members, "mounts") {
        Some(items) => match mounts_from_arr(items) {
            Some(ms) => ms,
            None => {
                return None;
            },
        },
        None => {
            return None;
        },
    };
    let registration = match get_obj(members, "registration") {
        Some(regm) => match ship_registration_from_obj(regm) {
            Some(sr) => sr,
            None => {
                return None;
            },
        },
        None => {
            return None;
        },
    };
    let cargo = match get_obj(members, "cargo") {
        Some(cgm) => match cargo_from_obj(cgm) {
            Some(c) => c,
            None => {
                return None;
            },
        },
        None => {
            return None;
        },
    };
    Some(
        ShipData {
            symbol,
            nav,
            crew,
            fuel,
            frame,
            reactor,
            engine,
            modules,
            mounts,
            registration,
            cargo,
        },
    )
}

// ---------------------------------------------------------------------------
// The registration payload.
// ---------------------------------------------------------------------------

pub open spec fn registration_shape(m: Seq<(Seq<char>, JsonSpec)>) -> bool {
    &&& field_str(m, "token"@) is Some
    &&& field_obj(m, "agent"@) matches Some(am) && agent_shape(am)
    &&& field_obj(m, "contract"@) matches Some(cm) && contract_shape(cm)
    &&& field_obj(m, "faction"@) matches Some(fm) && faction_data_shape(fm)
    &&& field_obj(m, "ship"@) matches Some(sm) && ship_shape(sm)
}

/// `rd` holds exactly what a registration response's payload says.
pub open spec fn is_registration_of(m: Seq<(Seq<char>, JsonSpec)>, rd: RegistrationData) -> bool {
    &&& field_str(m, "token"@) == Some(rd.token@)
    &&& field_obj(m, "agent"@) matches Some(am) && is_agent_of(am, rd.agent)
    &&& field_obj(m, "contract"@) matches Some(cm) && is_contract_of(cm, rd.contract)
    &&& field_obj(m, "faction"@) matches Some(fm) && is_faction_data_of(fm, rd.faction)
    &&& field_obj(m, "ship"@) matches Some(sm) && is_ship_of(sm, rd.ship)
}

pub fn registration_from_obj(members: &Vec<(String, JsonValue)>) -> (r: Option<RegistrationData>)
    ensures
        match r {
            Some(rd) => is_registration_of(models_of_members(members@), rd),
            None => !registration_shape(models_of_members(members@)),
        },
{
    let token = match get_str(members, "token") {
        Some(s) => s,
        None => {
            return None;
        },
    };
    let agent = match get_obj(members, "agent") {
        Some(am) => match agent_from_obj(am) {
            Some(a) => a,
            None => {
                return None;
            },
        },
        None => {
            return None;
        },
    };
    let contract = match get_obj(members, "contract") {
        Some(cm) => match contract_from_obj(cm) {
            Some(c) => c,
            None => {
                return None;
            },
        },
        None => {
            return None;
        },
    };
    let faction = match get_obj(members, "faction") {
        Some(fm) => match faction_data_from_obj(fm) {
            Some(f) => f,
            None => {
                return None;
            },
        },
        None => {
            return None;
        },
    };
    let ship = match get_obj(members, "ship") {
        Some(sm) => match ship_from_obj(sm) {
            Some(s) => s,
            None => {
                return None;
            },
        },
        None => {
            return None;
        },
    };
    Some(RegistrationData { token, agent, contract, faction, ship })
}

} // verus!
