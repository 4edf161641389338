//! The tool worker's decisions: reading a request into a typed tool,
//! normalizing its arguments, and composing the response.
//!
//! The ten procedures form a closed set. A request's flat parameter object
//! is partitioned: the two reserved image-URI keys feed routing, every other
//! key feeds the procedure's own parameters. The image operations themselves
//! run outside; this module fixes exactly which operation runs with which
//! arguments, and what response text goes back.

use crate::json::{jview, jview_obj, Json, JsonNum, JsonV};
use vstd::prelude::*;
use vstd::string::StringExecFns;

verus! {

/// A typed tool: one of the closed set of procedures with its parameters.
/// Decimal-valued parameters are carried exactly as decimals.
#[derive(Debug, Clone, Copy, PartialEq, Eq)]
pub enum Tool {
    Crop { start: (u32, u32), end: (u32, u32) },
    Scale { x: u32, y: u32 },
    AddBorder { size: u32, color: (u8, u8, u8) },
    AdjustBrightness { value: JsonNum },
    AdjustContrast { value: JsonNum },
    Rotate { angle: JsonNum },
    Blur { radius: i32 },
    Grayscale,
    Binarize,
    Ocr,
}

/// The wire name of a tool's procedure.
pub open spec fn procedure_name_v(t: Tool) -> Seq<char> {
    match t {
        Tool::Crop { .. } => "crop"@,
        Tool::Scale { .. } => "scale"@,
        Tool::AddBorder { .. } => "addBorder"@,
        Tool::AdjustBrightness { .. } => "adjustBrightness"@,
        Tool::AdjustContrast { .. } => "adjustContrast"@,
        Tool::Rotate { .. } => "rotate"@,
        Tool::Blur { .. } => "blur"@,
        Tool::Grayscale => "grayscale"@,
        Tool::Binarize => "binarize"@,
        Tool::Ocr => "ocr"@,
    }
}

/// The value recorded under `key` in an object's members, first match.
pub open spec fn obj_lookup(ps: Seq<(Seq<char>, JsonV)>, key: Seq<char>) -> Option<JsonV>
    decreases ps.len(),
{
    if ps.len() == 0 {
        None
    } else if ps[0].0 == key {
        Some(ps[0].1)
    } else {
        obj_lookup(ps.subrange(1, ps.len() as int), key)
    }
}

/// The value as an unsigned integer without a fraction.
pub open spec fn u64_of(v: JsonV) -> Option<u64> {
    match v {
        JsonV::Num(n) => if !n.neg && n.scale == 0 {
            Some(n.mantissa)
        } else {
            None
        },
        _ => None,
    }
}

/// The value as a `u32`.
pub open spec fn u32_of(v: JsonV) -> Option<u32> {
    match u64_of(v) {
        Some(m) => if m <= u32::MAX {
            Some(m as u32)
        } else {
            None
        },
        None => None,
    }
}

/// The value as a `u8`.
pub open spec fn u8_of(v: JsonV) -> Option<u8> {
    match u64_of(v) {
        Some(m) => if m <= u8::MAX {
            Some(m as u8)
        } else {
            None
        },
        None => None,
    }
}

/// The value as a signed 32-bit integer without a fraction.
pub open spec fn i32_of(v: JsonV) -> Option<i32> {
    match v {
        JsonV::Num(n) => if n.scale == 0 {
            let value: int = if n.neg {
                -(n.mantissa as int)
            } else {
                n.mantissa as int
            };
            if i32::MIN <= value <= i32::MAX {
                Some(value as i32)
            } else {
                None
            }
        } else {
            None
        },
        _ => None,
    }
}

/// The value as a decimal number.
pub open spec fn num_of(v: JsonV) -> Option<JsonNum> {
    match v {
        JsonV::Num(n) => Some(n),
        _ => None,
    }
}

/// The value as a pair of `u32`, written as a two-member array.
pub open spec fn pair_u32_of(v: JsonV) -> Option<(u32, u32)> {
    match v {
        JsonV::Arr(items) => if items.len() == 2 {
            match (u32_of(items[0]), u32_of(items[1])) {
                (Some(a), Some(b)) => Some((a, b)),
                _ => None,
            }
        } else {
            None
        },
        _ => None,
    }
}

/// The value as an RGB color, written as a three-member array.
pub open spec fn color_of(v: JsonV) -> Option<(u8, u8, u8)> {
    match v {
        JsonV::Arr(items) => if items.len() == 3 {
            match (u8_of(items[0]), u8_of(items[1]), u8_of(items[2])) {
                (Some(a), Some(b), Some(c)) => Some((a, b, c)),
                _ => None,
            }
        } else {
            None
        },
        _ => None,
    }
}

/// The typed tool read from a procedure name and its parameter members:
/// recognized name, required keys present with values of the right shape;
/// keys beyond the schema are ignored.
pub open spec fn spec_tool_from(procedure: Seq<char>, ps: Seq<(Seq<char>, JsonV)>) -> Option<
    Tool,
> {
    if procedure == "crop"@ {
        match (
            opt_pair_u32(obj_lookup(ps, "start"@)),
            opt_pair_u32(obj_lookup(ps, "end"@)),
        ) {
            (Some(start), Some(end)) => Some(Tool::Crop { start, end }),
            _ => None,
        }
    } else if procedure == "scale"@ {
        match (opt_u32(obj_lookup(ps, "x"@)), opt_u32(obj_lookup(ps, "y"@))) {
            (Some(x), Some(y)) => Some(Tool::Scale { x, y }),
            _ => None,
        }
    } else if procedure == "addBorder"@ {
        match (opt_u32(obj_lookup(ps, "size"@)), opt_color(obj_lookup(ps, "color"@))) {
            (Some(size), Some(color)) => Some(Tool::AddBorder { size, color }),
            _ => None,
        }
    } else if procedure == "adjustBrightness"@ {
        match opt_num(obj_lookup(ps, "value"@)) {
            Some(value) => Some(Tool::AdjustBrightness { value }),
            None => None,
        }
    } else if procedure == "adjustContrast"@ {
        match opt_num(obj_lookup(ps, "value"@)) {
            Some(value) => Some(Tool::AdjustContrast { value }),
            None => None,
        }
    } else if procedure == "rotate"@ {
        match opt_num(obj_lookup(ps, "angle"@)) {
            Some(angle) => Some(Tool::Rotate { angle }),
            None => None,
        }
    } else if procedure == "blur"@ {
        match opt_i32(obj_lookup(ps, "radius"@)) {
            Some(radius) => Some(Tool::Blur { radius }),
            None => None,
        }
    } else if procedure == "grayscale"@ {
        Some(Tool::Grayscale)
    } else if procedure == "binarize"@ {
        Some(Tool::Binarize)
    } else if procedure == "ocr"@ {
        Some(Tool::Ocr)
    } else {
        None
    }
}

/// A `u32` read from an optional value.
pub open spec fn opt_u32(v: Option<JsonV>) -> Option<u32> {
    match v {
        Some(x) => u32_of(x),
        None => None,
    }
}

/// A pair read from an optional value.
pub open spec fn opt_pair_u32(v: Option<JsonV>) -> Option<(u32, u32)> {
    match v {
        Some(x) => pair_u32_of(x),
        None => None,
    }
}

/// A color read from an optional value.
pub open spec fn opt_color(v: Option<JsonV>) -> Option<(u8, u8, u8)> {
    match v {
        Some(x) => color_of(x),
        None => None,
    }
}

/// A decimal read from an optional value.
pub open spec fn opt_num(v: Option<JsonV>) -> Option<JsonNum> {
    match v {
        Some(x) => num_of(x),
        None => None,
    }
}

/// A signed integer read from an optional value.
pub open spec fn opt_i32(v: Option<JsonV>) -> Option<i32> {
    match v {
        Some(x) => i32_of(x),
        None => None,
    }
}

/// The value recorded under `key`, first match.
pub fn lookup<'a>(ps: &'a Vec<(String, Json)>, key: &str) -> (r: Option<&'a Json>)
    ensures
        match r {
            Some(j) => obj_lookup(jview_obj(*ps, ps@.len() as int), key@) == Some(jview(*j)),
            None => obj_lookup(jview_obj(*ps, ps@.len() as int), key@) is None,
        },
{
    proof {
        crate::json::lemma_jview_obj(*ps, ps@.len() as int);
        let full = jview_obj(*ps, ps@.len() as int);
        assert(full.subrange(0, full.len() as int) =~= full);
    }
    let mut i: usize = 0;
    while i < ps.len()
        invariant
            i <= ps@.len(),
            forall|j: int|
                0 <= j < ps@.len() ==> #[trigger] jview_obj(*ps, ps@.len() as int)[j] == (
                ps@[j].0@,
                jview(ps@[j].1),
            ),
            jview_obj(*ps, ps@.len() as int).len() == ps@.len(),
            forall|j: int| 0 <= j < i ==> (#[trigger] ps@[j]).0@ != key@,
            obj_lookup(jview_obj(*ps, ps@.len() as int), key@) == obj_lookup(
                jview_obj(*ps, ps@.len() as int).subrange(i as int, ps@.len() as int),
                key@,
            ),
        decreases ps@.len() - i,
    {
        let ghost full = jview_obj(*ps, ps@.len() as int);
        proof {
            let rest = full.subrange(i as int, full.len() as int);
            assert(rest[0] == full[i as int]);
            assert(rest.subrange(1, rest.len() as int) =~= full.subrange(
                i + 1,
                full.len() as int,
            ));
        }
        if crate::text::str_eq(ps[i].0.as_str(), key) {
            return Some(&ps[i].1);
        }
        i = i + 1;
    }
    None
}

/// The value as a `u32`, matching `u32_of`.
fn as_u32(j: &Json) -> (r: Option<u32>)
    ensures
        r == u32_of(jview(*j)),
{
    match j {
        Json::Num(n) => {
            if !n.neg && n.scale == 0 && n.mantissa <= 0xffffffff {
                Some(n.mantissa as u32)
            } else {
                None
            }
        },
        _ => None,
    }
}

/// The value as a `u8`, matching `u8_of`.
fn as_u8(j: &Json) -> (r: Option<u8>)
    ensures
        r == u8_of(jview(*j)),
{
    match j {
        Json::Num(n) => {
            if !n.neg && n.scale == 0 && n.mantissa <= 0xff {
                Some(n.mantissa as u8)
            } else {
                None
            }
        },
        _ => None,
    }
}

/// The value as an `i32`, matching `i32_of`.
fn as_i32(j: &Json) -> (r: Option<i32>)
    ensures
        r == i32_of(jview(*j)),
{
    match j {
        Json::Num(n) => {
            if n.scale != 0 {
                None
            } else if n.neg {
                if n.mantissa <= 0x80000000 {
                    Some((-(n.mantissa as i64)) as i32)
                } else {
                    None
                }
            } else {
                if n.mantissa <= 0x7fffffff {
                    Some(n.mantissa as i32)
                } else {
                    None
                }
            }
        },
        _ => None,
    }
}

/// The value as a decimal, matching `num_of`.
fn as_num(j: &Json) -> (r: Option<JsonNum>)
    ensures
        r == num_of(jview(*j)),
{
    match j {
        Json::Num(n) => Some(*n),
        _ => None,
    }
}

/// The value as a pair of `u32`, matching `pair_u32_of`.
fn as_pair_u32(j: &Json) -> (r: Option<(u32, u32)>)
    ensures
        r == pair_u32_of(jview(*j)),
{
    match j {
        Json::Arr(items) => {
            proof {
                crate::json::lemma_jview_arr(*items, items@.len() as int);
            }
            if items.len() == 2 {
                match (as_u32(&items[0]), as_u32(&items[1])) {
                    (Some(a), Some(b)) => Some((a, b)),
                    _ => None,
                }
            } else {
                None
            }
        },
        _ => None,
    }
}

/// The value as a color, matching `color_of`.
fn as_color(j: &Json) -> (r: Option<(u8, u8, u8)>)
    ensures
        r == color_of(jview(*j)),
{
    match j {
        Json::Arr(items) => {
            proof {
                crate::json::lemma_jview_arr(*items, items@.len() as int);
            }
            if items.len() == 3 {
                match (as_u8(&items[0]), as_u8(&items[1]), as_u8(&items[2])) {
                    (Some(a), Some(b), Some(c)) => Some((a, b, c)),
                    _ => None,
                }
            } else {
                None
            }
        },
        _ => None,
    }
}

/// Reads the typed tool out of a procedure name and parameter members,
/// exactly as `spec_tool_from` does.
pub fn tool_from_parts(procedure: &String, ps: &Vec<(String, Json)>) -> (r: Option<Tool>)
    ensures
        r == spec_tool_from(procedure@, jview_obj(*ps, ps@.len() as int)),
{
    let p = procedure.as_str();
    if crate::text::str_eq(p, "crop") {
        match (opt_as_pair(lookup(ps, "start")), opt_as_pair(lookup(ps, "end"))) {
            (Some(start), Some(end)) => Some(Tool::Crop { start, end }),
            _ => None,
        }
    } else if crate::text::str_eq(p, "scale") {
        match (opt_as_u32(lookup(ps, "x")), opt_as_u32(lookup(ps, "y"))) {
            (Some(x), Some(y)) => Some(Tool::Scale { x, y }),
            _ => None,
        }
    } else if crate::text::str_eq(p, "addBorder") {
        match (opt_as_u32(lookup(ps, "size")), opt_as_color(lookup(ps, "color"))) {
            (Some(size), Some(color)) => Some(Tool::AddBorder { size, color }),
            _ => None,
        }
    } else if crate::text::str_eq(p, "adjustBrightness") {
        match opt_as_num(lookup(ps, "value")) {
            Some(value) => Some(Tool::AdjustBrightness { value }),
            None => None,
        }
    } else if crate::text::str_eq(p, "adjustContrast") {
        match opt_as_num(lookup(ps, "value")) {
            Some(value) => Some(Tool::AdjustContrast { value }),
            None => None,
        }
    } else if crate::text::str_eq(p, "rotate") {
        match opt_as_num(lookup(ps, "angle")) {
            Some(angle) => Some(Tool::Rotate { angle }),
            None => None,
        }
    } else if crate::text::str_eq(p, "blur") {
        match opt_as_i32(lookup(ps, "radius")) {
            Some(radius) => Some(Tool::Blur { radius }),
            None => None,
        }
    } else if crate::text::str_eq(p, "grayscale") {
        Some(Tool::Grayscale)
    } else if crate::text::str_eq(p, "binarize") {
        Some(Tool::Binarize)
    } else if crate::text::str_eq(p, "ocr") {
        Some(Tool::Ocr)
    } else {
        None
    }
}

/// A pair read from an optional member.
fn opt_as_pair(v: Option<&Json>) -> (r: Option<(u32, u32)>)
    ensures
        r == match v {
            Some(j) => pair_u32_of(jview(*j)),
            None => None::<(u32, u32)>,
        },
{
    match v {
        Some(j) => as_pair_u32(j),
        None => None,
    }
}

/// A `u32` read from an optional member.
fn opt_as_u32(v: Option<&Json>) -> (r: Option<u32>)
    ensures
        r == match v {
            Some(j) => u32_of(jview(*j)),
            None => None::<u32>,
        },
{
    match v {
        Some(j) => as_u32(j),
        None => None,
    }
}

/// A color read from an optional member.
fn opt_as_color(v: Option<&Json>) -> (r: Option<(u8, u8, u8)>)
    ensures
        r == match v {
            Some(j) => color_of(jview(*j)),
            None => None::<(u8, u8, u8)>,
        },
{
    match v {
        Some(j) => as_color(j),
        None => None,
    }
}

/// A decimal read from an optional member.
fn opt_as_num(v: Option<&Json>) -> (r: Option<JsonNum>)
    ensures
        r == match v {
            Some(j) => num_of(jview(*j)),
            None => None::<JsonNum>,
        },
{
    match v {
        Some(j) => as_num(j),
        None => None,
    }
}

/// An `i32` read from an optional member.
fn opt_as_i32(v: Option<&Json>) -> (r: Option<i32>)
    ensures
        r == match v {
            Some(j) => i32_of(jview(*j)),
            None => None::<i32>,
        },
{
    match v {
        Some(j) => as_i32(j),
        None => None,
    }
}

/// A non-negative integer as a number value.
pub open spec fn uint_num(x: u64) -> JsonV {
    JsonV::Num(JsonNum { neg: false, mantissa: x, scale: 0 })
}

/// A signed integer as a number value.
pub open spec fn int_num(x: i32) -> JsonV {
    JsonV::Num(
        JsonNum {
            neg: x < 0,
            mantissa: if x < 0 {
                (-(x as int)) as u64
            } else {
                x as u64
            },
            scale: 0,
        },
    )
}

/// The parameter members a tool writes on the wire: exactly its schema's
/// keys, in schema order.
pub open spec fn tool_params_v(t: Tool) -> Seq<(Seq<char>, JsonV)> {
    match t {
        Tool::Crop { start, end } => seq![
            (
                "start"@,
                JsonV::Arr(seq![uint_num(start.0 as u64), uint_num(start.1 as u64)]),
            ),
            ("end"@, JsonV::Arr(seq![uint_num(end.0 as u64), uint_num(end.1 as u64)])),
        ],
        Tool::Scale { x, y } => seq![
            ("x"@, uint_num(x as u64)),
            ("y"@, uint_num(y as u64)),
        ],
        Tool::AddBorder { size, color } => seq![
            ("size"@, uint_num(size as u64)),
            (
                "color"@,
                JsonV::Arr(
                    seq![
                        uint_num(color.0 as u64),
                        uint_num(color.1 as u64),
                        uint_num(color.2 as u64),
                    ],
                ),
            ),
        ],
        Tool::AdjustBrightness { value } => seq![("value"@, JsonV::Num(value))],
        Tool::AdjustContrast { value } => seq![("value"@, JsonV::Num(value))],
        Tool::Rotate { angle } => seq![("angle"@, JsonV::Num(angle))],
        Tool::Blur { radius } => seq![("radius"@, int_num(radius))],
        Tool::Grayscale => Seq::empty(),
        Tool::Binarize => Seq::empty(),
        Tool::Ocr => Seq::empty(),
    }
}

/// A number member carrying a `u64`.
fn push_uint(ps: &mut Vec<(String, Json)>, key: &str, x: u64)
    ensures
        final(ps)@.len() == old(ps)@.len() + 1,
        final(ps)@ == old(ps)@.push(final(ps)@.last()),
        (final(ps)@.last().0)@ == key@,
        jview(final(ps)@.last().1) == uint_num(x),
{
    ps.push((String::from_str(key), Json::Num(JsonNum { neg: false, mantissa: x, scale: 0 })));
}

/// The wire name of this tool's procedure.
pub fn procedure_name(t: &Tool) -> (r: String)
    ensures
        r@ == procedure_name_v(*t),
{
    match t {
        Tool::Crop { .. } => String::from_str("crop"),
        Tool::Scale { .. } => String::from_str("scale"),
        Tool::AddBorder { .. } => String::from_str("addBorder"),
        Tool::AdjustBrightness { .. } => String::from_str("adjustBrightness"),
        Tool::AdjustContrast { .. } => String::from_str("adjustContrast"),
        Tool::Rotate { .. } => String::from_str("rotate"),
        Tool::Blur { .. } => String::from_str("blur"),
        Tool::Grayscale => String::from_str("grayscale"),
        Tool::Binarize => String::from_str("binarize"),
        Tool::Ocr => String::from_str("ocr"),
    }
}

/// A two-member number array.
fn num_pair_json(a: u64, b: u64) -> (r: Json)
    ensures
        jview(r) == JsonV::Arr(seq![uint_num(a), uint_num(b)]),
{
    let mut items: Vec<Json> = Vec::new();
    items.push(Json::Num(JsonNum { neg: false, mantissa: a, scale: 0 }));
    items.push(Json::Num(JsonNum { neg: false, mantissa: b, scale: 0 }));
    proof {
        crate::json::lemma_jview_arr(items, items@.len() as int);
        assert(crate::json::jview_arr(items, items@.len() as int) =~= seq![
            uint_num(a),
            uint_num(b),
        ]);
    }
    Json::Arr(items)
}

/// The parameter members this tool writes on the wire.
pub fn tool_parameters(t: &Tool) -> (r: Vec<(String, Json)>)
    ensures
        jview_obj(r, r@.len() as int) == tool_params_v(*t),
{
    let mut ps: Vec<(String, Json)> = Vec::new();
    match t {
        Tool::Crop { start, end } => {
            let s = num_pair_json(start.0 as u64, start.1 as u64);
            let e = num_pair_json(end.0 as u64, end.1 as u64);
            ps.push((String::from_str("start"), s));
            ps.push((String::from_str("end"), e));
        },
        Tool::Scale { x, y } => {
            push_uint(&mut ps, "x", *x as u64);
            push_uint(&mut ps, "y", *y as u64);
        },
        Tool::AddBorder { size, color } => {
            push_uint(&mut ps, "size", *size as u64);
            let mut items: Vec<Json> = Vec::new();
            items.push(Json::Num(JsonNum { neg: false, mantissa: color.0 as u64, scale: 0 }));
            items.push(Json::Num(JsonNum { neg: false, mantissa: color.1 as u64, scale: 0 }));
            items.push(Json::Num(JsonNum { neg: false, mantissa: color.2 as u64, scale: 0 }));
            proof {
                crate::json::lemma_jview_arr(items, items@.len() as int);
                assert(crate::json::jview_arr(items, items@.len() as int) =~= seq![
                    uint_num(color.0 as u64),
                    uint_num(color.1 as u64),
                    uint_num(color.2 as u64),
                ]);
            }
            ps.push((String::from_str("color"), Json::Arr(items)));
        },
        Tool::AdjustBrightness { value } => {
            ps.push((String::from_str("value"), Json::Num(*value)));
        },
        Tool::AdjustContrast { value } => {
            ps.push((String::from_str("value"), Json::Num(*value)));
        },
        Tool::Rotate { angle } => {
            ps.push((String::from_str("angle"), Json::Num(*angle)));
        },
        Tool::Blur { radius } => {
            let r = *radius;
            let n: JsonNum = if r < 0 {
                JsonNum { neg: true, mantissa: (-(r as i64)) as u64, scale: 0 }
            } else {
                JsonNum { neg: false, mantissa: r as u64, scale: 0 }
            };
            ps.push((String::from_str("radius"), Json::Num(n)));
        },
        Tool::Grayscale => {},
        Tool::Binarize => {},
        Tool::Ocr => {},
    }
    proof {
        crate::json::lemma_jview_obj(ps, ps@.len() as int);
        assert(jview_obj(ps, ps@.len() as int) =~= tool_params_v(*t));
    }
    ps
}

/// The keys of an object's members, as a set.
pub open spec fn obj_keys(ps: Seq<(Seq<char>, JsonV)>) -> Set<Seq<char>> {
    ps.map_values(|p: (Seq<char>, JsonV)| p.0).to_set()
}

/// The parameter keys a procedure's schema prescribes.
pub open spec fn schema_keys(procedure: Seq<char>) -> Set<Seq<char>> {
    if procedure == "crop"@ {
        set!["start"@, "end"@]
    } else if procedure == "scale"@ {
        set!["x"@, "y"@]
    } else if procedure == "addBorder"@ {
        set!["size"@, "color"@]
    } else if procedure == "adjustBrightness"@ {
        set!["value"@]
    } else if procedure == "adjustContrast"@ {
        set!["value"@]
    } else if procedure == "rotate"@ {
        set!["angle"@]
    } else if procedure == "blur"@ {
        set!["radius"@]
    } else if procedure == "grayscale"@ || procedure == "binarize"@ || procedure == "ocr"@ {
        Set::empty()
    } else {
        Set::empty()
    }
}

/// The members a tool writes carry exactly its procedure's schema keys.
pub proof fn lemma_params_match_schema(t: Tool)
    ensures
        obj_keys(tool_params_v(t)) == schema_keys(procedure_name_v(t)),
{
    reveal_strlit("crop");
    reveal_strlit("scale");
    reveal_strlit("addBorder");
    reveal_strlit("adjustBrightness");
    reveal_strlit("adjustContrast");
    reveal_strlit("rotate");
    reveal_strlit("blur");
    reveal_strlit("grayscale");
    reveal_strlit("binarize");
    reveal_strlit("ocr");
    let ks = tool_params_v(t).map_values(|p: (Seq<char>, JsonV)| p.0);
    match t {
        Tool::Crop { .. } => {
            assert(procedure_name_v(t) == "crop"@);
            assert(schema_keys("crop"@) == set!["start"@, "end"@]);
            assert(ks[0] == "start"@ && ks[1] == "end"@);
            assert(obj_keys(tool_params_v(t)) =~= set!["start"@, "end"@]);
        },
        Tool::Scale { .. } => {
            assert(procedure_name_v(t) == "scale"@);
            assert(schema_keys("scale"@) == set!["x"@, "y"@]);
            assert(ks[0] == "x"@ && ks[1] == "y"@);
            assert(obj_keys(tool_params_v(t)) =~= set!["x"@, "y"@]);
        },
        Tool::AddBorder { .. } => {
            assert(procedure_name_v(t) == "addBorder"@);
            assert(schema_keys("addBorder"@) == set!["size"@, "color"@]);
            assert(ks[0] == "size"@ && ks[1] == "color"@);
            assert(obj_keys(tool_params_v(t)) =~= set!["size"@, "color"@]);
        },
        Tool::AdjustBrightness { .. } => {
            assert(procedure_name_v(t) == "adjustBrightness"@);
            assert(schema_keys("adjustBrightness"@) == set!["value"@]);
            assert(ks[0] == "value"@);
            assert(obj_keys(tool_params_v(t)) =~= set!["value"@]);
        },
        Tool::AdjustContrast { .. } => {
            assert(procedure_name_v(t) == "adjustContrast"@);
            assert(schema_keys("adjustContrast"@) == set!["value"@]);
            assert(ks[0] == "value"@);
            assert(obj_keys(tool_params_v(t)) =~= set!["value"@]);
        },
        Tool::Rotate { .. } => {
            assert(procedure_name_v(t) == "rotate"@);
            assert(schema_keys("rotate"@) == set!["angle"@]);
            assert(ks[0] == "angle"@);
            assert(obj_keys(tool_params_v(t)) =~= set!["angle"@]);
        },
        Tool::Blur { .. } => {
            assert(procedure_name_v(t) == "blur"@);
            assert("blur"@[0] == 'b' && "crop"@[0] == 'c');
            assert("blur"@ != "crop"@);
            assert("blur"@ != "scale"@);
            assert("blur"@ != "addBorder"@);
            assert("blur"@ != "adjustBrightness"@);
            assert("blur"@ != "adjustContrast"@);
            assert("blur"@ != "rotate"@);
            assert(schema_keys("blur"@) == set!["radius"@]);
            assert(ks[0] == "radius"@);
            assert(obj_keys(tool_params_v(t)) =~= set!["radius"@]);
        },
        Tool::Grayscale => {
            assert(procedure_name_v(t) == "grayscale"@);
            assert("grayscale"@ != "crop"@);
            assert("grayscale"@ != "scale"@);
            assert("grayscale"@[0] == 'g' && "addBorder"@[0] == 'a');
            assert("grayscale"@ != "addBorder"@);
            assert("grayscale"@ != "adjustBrightness"@);
            assert("grayscale"@ != "adjustContrast"@);
            assert("grayscale"@ != "rotate"@);
            assert("grayscale"@ != "blur"@);
            assert(schema_keys("grayscale"@) == Set::<Seq<char>>::empty());
            assert(obj_keys(tool_params_v(t)) =~= Set::<Seq<char>>::empty());
        },
        Tool::Binarize => {
            assert(procedure_name_v(t) == "binarize"@);
            assert(schema_keys("binarize"@) == Set::<Seq<char>>::empty());
            assert(obj_keys(tool_params_v(t)) =~= Set::<Seq<char>>::empty());
        },
        Tool::Ocr => {
            assert(procedure_name_v(t) == "ocr"@);
            assert(schema_keys("ocr"@) == Set::<Seq<char>>::empty());
            assert(obj_keys(tool_params_v(t)) =~= Set::<Seq<char>>::empty());
        },
    }
}

/// The axis-aligned rectangle of two corner points, normalized: least
/// coordinates first, greatest second.
pub open spec fn normalized_rect(start: (u32, u32), end: (u32, u32)) -> ((u32, u32), (u32, u32)) {
    (
        (
            if start.0 <= end.0 {
                start.0
            } else {
                end.0
            },
            if start.1 <= end.1 {
                start.1
            } else {
                end.1
            },
        ),
        (
            if start.0 <= end.0 {
                end.0
            } else {
                start.0
            },
            if start.1 <= end.1 {
                end.1
            } else {
                start.1
            },
        ),
    )
}

/// The corner arguments the crop routine is called with: the normalized
/// rectangle of the request's corners.
pub fn crop_arguments(start: (u32, u32), end: (u32, u32)) -> (r: ((u32, u32), (u32, u32)))
    ensures
        r == normalized_rect(start, end),
{
    let x1 = if start.0 <= end.0 {
        start.0
    } else {
        end.0
    };
    let x2 = if start.0 <= end.0 {
        end.0
    } else {
        start.0
    };
    let y1 = if start.1 <= end.1 {
        start.1
    } else {
        end.1
    };
    let y2 = if start.1 <= end.1 {
        end.1
    } else {
        start.1
    };
    ((x1, y1), (x2, y2))
}

/// Corners out of order name the same rectangle: normalization is symmetric
/// in its corners and idempotent, so a crop whose `start` exceeds `end` in
/// either axis runs with the same arguments as the normalized rectangle.
pub proof fn lemma_crop_normalization(start: (u32, u32), end: (u32, u32))
    ensures
        normalized_rect(end, start) == normalized_rect(start, end),
        normalized_rect(normalized_rect(start, end).0, normalized_rect(start, end).1)
            == normalized_rect(start, end),
{
}

/// Ten to the power `k`.
pub open spec fn pow10(k: nat) -> nat
    decreases k,
{
    if k == 0 {
        1
    } else {
        10 * pow10((k - 1) as nat)
    }
}

proof fn lemma_pow10_vals()
    ensures
        pow10(0) == 1,
        pow10(18) == 1000000000000000000,
        forall|a: nat, b: nat| a <= b ==> pow10(a) <= pow10(b),
{
    assert(pow10(0) == 1);
    assert(pow10(1) == 10);
    assert(pow10(2) == 100);
    assert(pow10(3) == 1000);
    assert(pow10(4) == 10000);
    assert(pow10(5) == 100000);
    assert(pow10(6) == 1000000);
    assert(pow10(7) == 10000000);
    assert(pow10(8) == 100000000);
    assert(pow10(9) == 1000000000);
    assert(pow10(10) == 10000000000);
    assert(pow10(11) == 100000000000);
    assert(pow10(12) == 1000000000000);
    assert(pow10(13) == 10000000000000);
    assert(pow10(14) == 100000000000000);
    assert(pow10(15) == 1000000000000000);
    assert(pow10(16) == 10000000000000000);
    assert(pow10(17) == 100000000000000000);
    assert(pow10(18) == 1000000000000000000);
    assert forall|a: nat, b: nat| a <= b implies pow10(a) <= pow10(b) by {
        lemma_pow10_monotone(a, b);
    }
}

proof fn lemma_pow10_monotone(a: nat, b: nat)
    requires
        a <= b,
    ensures
        pow10(a) <= pow10(b),
        pow10(a) >= 1,
    decreases b,
{
    lemma_pow10_pos(a);
    if b > 0 && a < b {
        lemma_pow10_monotone(a, (b - 1) as nat);
    }
}

proof fn lemma_pow10_pos(k: nat)
    ensures
        pow10(k) >= 1,
    decreases k,
{
    if k > 0 {
        lemma_pow10_pos((k - 1) as nat);
    }
}

/// Ten to the power `k`, for the scales a decimal can carry.
fn pow10_u64(k: u8) -> (r: u64)
    requires
        k <= 18,
    ensures
        r as nat == pow10(k as nat),
        r >= 1,
{
    proof {
        lemma_pow10_vals();
    }
    let mut r: u64 = 1;
    let mut i: u8 = 0;
    while i < k
        invariant
            i <= k <= 18,
            r as nat == pow10(i as nat),
            pow10(18) == 1000000000000000000,
            forall|a: nat, b: nat| a <= b ==> pow10(a) <= pow10(b),
        decreases k - i,
    {
        proof {
            assert(pow10((i + 1) as nat) <= pow10(18));
        }
        r = r * 10;
        i = i + 1;
    }
    r
}

/// Whether a brightness adjustment raises the pixel values: it does exactly
/// for a positive value.
pub open spec fn brightness_increases(value: JsonNum) -> bool {
    !value.neg && value.mantissa > 0
}

/// The magnitude of a brightness adjustment, in pixel-value units: the
/// value, clamped to one in magnitude, times 255, fraction dropped.
pub open spec fn brightness_amount(value: JsonNum) -> nat {
    if value.mantissa >= pow10(value.scale as nat) {
        255
    } else {
        ((255 * value.mantissa) as nat / pow10(value.scale as nat)) as nat
    }
}

/// The direction and magnitude the brightness routine is called with.
pub fn brightness_step(value: JsonNum) -> (r: (bool, u8))
    requires
        value.scale <= 18,
    ensures
        r.0 == brightness_increases(value),
        r.1 as nat == brightness_amount(value),
{
    let p = pow10_u64(value.scale);
    let increase = !value.neg && value.mantissa > 0;
    if value.mantissa >= p {
        (increase, 255)
    } else {
        let amount = ((255u128 * value.mantissa as u128) / p as u128) as u8;
        proof {
            let m = value.mantissa as int;
            let pi = p as int;
            assert((255 * m) / pi < 255) by (nonlinear_arith)
                requires
                    0 <= m < pi,
            ;
        }
        (increase, amount)
    }
}

/// A value beyond one in magnitude acts as if clamped to one: same
/// direction, same magnitude of 255.
pub proof fn lemma_brightness_clamped(value: JsonNum)
    requires
        value.scale <= 18,
        value.mantissa > pow10(value.scale as nat),
    ensures
        brightness_amount(value) == brightness_amount(
            JsonNum { neg: value.neg, mantissa: 1, scale: 0 },
        ),
        brightness_increases(value) == brightness_increases(
            JsonNum { neg: value.neg, mantissa: 1, scale: 0 },
        ),
{
}

/// The two image URIs carried in a request's flat parameter object.
#[derive(Debug)]
pub struct ImageUriParams {
    /// Where the worker reads the input image.
    pub input_image_uri: String,
    /// Where the worker writes an image output; absent for text-only tools.
    pub output_image_uri: Option<String>,
}

/// The mathematical form of the image URIs.
pub struct ImageUriParamsV {
    pub input_image_uri: Seq<char>,
    pub output_image_uri: Option<Seq<char>>,
}

impl View for ImageUriParams {
    type V = ImageUriParamsV;

    open spec fn view(&self) -> ImageUriParamsV {
        ImageUriParamsV {
            input_image_uri: self.input_image_uri@,
            output_image_uri: match self.output_image_uri {
                Some(ref s) => Some(s@),
                None => None,
            },
        }
    }
}

/// A request's payload split in two: the typed tool, and the image URIs
/// partitioned out of the flat parameter object.
#[derive(Debug)]
pub struct ToolParts {
    /// The typed tool to apply.
    pub tool: Tool,
    /// The image routing part of the parameters.
    pub image_uris: ImageUriParams,
}

/// The mathematical form of a split payload.
pub struct ToolPartsV {
    pub tool: Tool,
    pub image_uris: ImageUriParamsV,
}

impl View for ToolParts {
    type V = ToolPartsV;

    open spec fn view(&self) -> ToolPartsV {
        ToolPartsV { tool: self.tool, image_uris: self.image_uris@ }
    }
}

/// A request as the worker reads it.
#[derive(Debug)]
pub struct RequestMessage {
    /// The id of the request; echoed back as the correlation id.
    pub message_id: String,
    /// When the request was composed.
    pub timestamp: String,
    /// The tool and image URIs read from the flat parameter object.
    pub params: ToolParts,
}

/// The mathematical form of a worker-side request.
pub struct WorkerRequestV {
    pub message_id: Seq<char>,
    pub timestamp: Seq<char>,
    pub params: ToolPartsV,
}

impl View for RequestMessage {
    type V = WorkerRequestV;

    open spec fn view(&self) -> WorkerRequestV {
        WorkerRequestV {
            message_id: self.message_id@,
            timestamp: self.timestamp@,
            params: self.params@,
        }
    }
}

/// The image URIs read from a flat parameter object: `inputImageURI` must
/// be a string; `outputImageURI`, when present, must be a string.
pub open spec fn spec_image_uris_from(ps: Seq<(Seq<char>, JsonV)>) -> Option<ImageUriParamsV> {
    match obj_lookup(ps, "inputImageURI"@) {
        Some(JsonV::Str(input)) => match obj_lookup(ps, "outputImageURI"@) {
            None => Some(ImageUriParamsV { input_image_uri: input, output_image_uri: None }),
            Some(JsonV::Str(output)) => Some(
                ImageUriParamsV { input_image_uri: input, output_image_uri: Some(output) },
            ),
            Some(_) => None,
        },
        _ => None,
    }
}

/// Reads the image URIs out of a flat parameter object, exactly as
/// `spec_image_uris_from` does.
pub fn image_uris_from(ps: &Vec<(String, Json)>) -> (r: Option<ImageUriParams>)
    ensures
        match r {
            Some(u) => spec_image_uris_from(jview_obj(*ps, ps@.len() as int)) == Some(u@),
            None => spec_image_uris_from(jview_obj(*ps, ps@.len() as int)) is None,
        },
{
    let input = match lookup(ps, "inputImageURI") {
        Some(Json::Str(s)) => s.clone(),
        _ => {
            return None;
        },
    };
    match lookup(ps, "outputImageURI") {
        None => Some(
            ImageUriParams { input_image_uri: input, output_image_uri: None },
        ),
        Some(Json::Str(s)) => Some(
            ImageUriParams { input_image_uri: input, output_image_uri: Some(s.clone()) },
        ),
        Some(_) => None,
    }
}

/// The split payload read from a procedure name and flat parameters: the
/// two reserved keys feed the image URIs, the rest the typed tool.
pub open spec fn spec_tool_parts_from(procedure: Seq<char>, ps: Seq<(Seq<char>, JsonV)>) -> Option<
    ToolPartsV,
> {
    match (spec_tool_from(procedure, ps), spec_image_uris_from(ps)) {
        (Some(tool), Some(image_uris)) => Some(ToolPartsV { tool, image_uris }),
        _ => None,
    }
}

/// Splits a request's flat parameter object, exactly as
/// `spec_tool_parts_from` does.
pub fn tool_parts_from(procedure: &String, ps: &Vec<(String, Json)>) -> (r: Option<ToolParts>)
    ensures
        match r {
            Some(parts) => spec_tool_parts_from(procedure@, jview_obj(*ps, ps@.len() as int))
                == Some(parts@),
            None => spec_tool_parts_from(procedure@, jview_obj(*ps, ps@.len() as int)) is None,
        },
{
    match (tool_from_parts(procedure, ps), image_uris_from(ps)) {
        (Some(tool), Some(image_uris)) => Some(ToolParts { tool, image_uris }),
        _ => None,
    }
}

/// What one handled request produced: a written image file or a text.
#[derive(Debug)]
pub enum HandleRequestResult {
    /// An image was written at this path.
    Image(String),
    /// The tool produced this text.
    Text(String),
}

/// Why handling one request failed; each holds the underlying message.
#[derive(Debug)]
pub enum HandleRequestError {
    /// The produced image could not be written.
    ImageSaveError(String),
    /// The output file's parent folders could not be created.
    ImageSaveCreateFoldersError(String),
    /// The input file could not be read.
    ImageOpenError(String),
    /// The input bytes could not be decoded as an image.
    ImageReadError(String),
    /// The tool itself failed on the image.
    ToolApplyError(String),
    /// An image-producing tool had no `outputImageURI` to write to.
    MissingOutputPath,
}

/// The protocol error code of a failure: reading or decoding the input maps
/// to the open error, writing or preparing the output to the save error.
pub open spec fn error_code_v(e: HandleRequestError) -> Seq<char> {
    match e {
        HandleRequestError::ImageSaveError(_) => "IMAGE_SAVE_ERROR"@,
        HandleRequestError::ImageSaveCreateFoldersError(_) => "IMAGE_SAVE_ERROR"@,
        HandleRequestError::ImageOpenError(_) => "IMAGE_OPEN_ERROR"@,
        HandleRequestError::ImageReadError(_) => "IMAGE_OPEN_ERROR"@,
        HandleRequestError::ToolApplyError(_) => "TOOL_APPLY_ERROR"@,
        HandleRequestError::MissingOutputPath => "MISSING_OUTPUT_PATH"@,
    }
}

/// The human-readable message of a failure.
pub open spec fn error_message_v(e: HandleRequestError) -> Seq<char> {
    match e {
        HandleRequestError::ImageSaveError(s) => "Failed to save image: "@ + s@,
        HandleRequestError::ImageSaveCreateFoldersError(s) => "Failed to create folders: "@ + s@,
        HandleRequestError::ImageOpenError(s) => "Failed to open image: "@ + s@,
        HandleRequestError::ImageReadError(s) => "Failed to read image: "@ + s@,
        HandleRequestError::ToolApplyError(s) => "Failed to apply tool: "@ + s@,
        HandleRequestError::MissingOutputPath => "Missing output path"@,
    }
}

impl HandleRequestError {
    /// The protocol error code of this failure.
    pub fn error_code(&self) -> (r: String)
        ensures
            r@ == error_code_v(*self),
    {
        match self {
            HandleRequestError::ImageSaveError(_) => String::from_str("IMAGE_SAVE_ERROR"),
            HandleRequestError::ImageSaveCreateFoldersError(_) => String::from_str(
                "IMAGE_SAVE_ERROR",
            ),
            HandleRequestError::ImageOpenError(_) => String::from_str("IMAGE_OPEN_ERROR"),
            HandleRequestError::ImageReadError(_) => String::from_str("IMAGE_OPEN_ERROR"),
            HandleRequestError::ToolApplyError(_) => String::from_str("TOOL_APPLY_ERROR"),
            HandleRequestError::MissingOutputPath => String::from_str("MISSING_OUTPUT_PATH"),
        }
    }

    /// The human-readable message of this failure.
    pub fn error_message(&self) -> (r: String)
        ensures
            r@ == error_message_v(*self),
    {
        let mut out: Vec<char> = Vec::new();
        match self {
            HandleRequestError::ImageSaveError(s) => {
                crate::json::append_lit(&mut out, "Failed to save image: ");
                crate::json::append_lit(&mut out, s.as_str());
            },
            HandleRequestError::ImageSaveCreateFoldersError(s) => {
                crate::json::append_lit(&mut out, "Failed to create folders: ");
                crate::json::append_lit(&mut out, s.as_str());
            },
            HandleRequestError::ImageOpenError(s) => {
                crate::json::append_lit(&mut out, "Failed to open image: ");
                crate::json::append_lit(&mut out, s.as_str());
            },
            HandleRequestError::ImageReadError(s) => {
                crate::json::append_lit(&mut out, "Failed to read image: ");
                crate::json::append_lit(&mut out, s.as_str());
            },
            HandleRequestError::ToolApplyError(s) => {
                crate::json::append_lit(&mut out, "Failed to apply tool: ");
                crate::json::append_lit(&mut out, s.as_str());
            },
            HandleRequestError::MissingOutputPath => {
                crate::json::append_lit(&mut out, "Missing output path");
            },
        }
        crate::text::chars_to_string(&out)
    }
}

/// The output path an image-producing tool writes to: present in the
/// request, or the missing-output-path failure.
pub fn output_path_for_image(uris: &ImageUriParams) -> (r: Result<String, HandleRequestError>)
    ensures
        match r {
            Ok(p) => uris.output_image_uri is Some && p@ == uris@.output_image_uri->Some_0,
            Err(e) => uris.output_image_uri is None && e is MissingOutputPath,
        },
{
    match &uris.output_image_uri {
        Some(p) => Ok(p.clone()),
        None => Err(HandleRequestError::MissingOutputPath),
    }
}

/// The status part of the response for one handled request, as the worker
/// states it.
#[derive(Debug)]
pub enum ResponseMessageStatus {
    /// The tool succeeded with this output.
    Success(OutputType),
    /// The tool failed with this code and message.
    Error(ErrorDetails),
}

/// The output of a successful tool application, worker side.
#[derive(Debug)]
pub enum OutputType {
    /// An image was written at this path.
    Image { image_uri: String },
    /// The tool produced this text.
    Text { text: String },
}

/// A failure as the worker reports it on the wire.
#[derive(Debug)]
pub struct ErrorDetails {
    /// One of the protocol's closed error codes.
    pub code: String,
    /// The failure's message.
    pub message: String,
}

impl ResponseMessageStatus {
    /// The status of one handled request, as the worker states it: the
    /// produced output, or the protocol code and message of the failure.
    pub fn from_result(value: Result<HandleRequestResult, HandleRequestError>) -> (r:
        ResponseMessageStatus)
        ensures
            match value {
                Ok(HandleRequestResult::Image(path)) => r matches ResponseMessageStatus::Success(
                    OutputType::Image { image_uri },
                ) && image_uri@ == path@,
                Ok(HandleRequestResult::Text(text)) => r matches ResponseMessageStatus::Success(
                    OutputType::Text { text: t },
                ) && t@ == text@,
                Err(e) => r matches ResponseMessageStatus::Error(details) && details.code@
                    == error_code_v(e) && details.message@ == error_message_v(e),
            },
    {
        match value {
            Ok(HandleRequestResult::Image(path)) => ResponseMessageStatus::Success(
                OutputType::Image { image_uri: path },
            ),
            Ok(HandleRequestResult::Text(text)) => ResponseMessageStatus::Success(
                OutputType::Text { text },
            ),
            Err(e) => {
                let code = e.error_code();
                let message = e.error_message();
                ResponseMessageStatus::Error(ErrorDetails { code, message })
            },
        }
    }

    /// The wire form of this status: the flat output object with its
    /// discriminator, or the error object.
    pub fn to_wire(self) -> (r: crate::wire::ResponseStatus)
        ensures
            match self {
                ResponseMessageStatus::Success(OutputType::Image { image_uri }) => r matches
                    crate::wire::ResponseStatus::Success { output } && output.kind
                    == crate::wire::OutputType::Image && output@.image_uri == Some(image_uri@)
                    && output@.text == None::<Seq<char>> && output.wf(),
                ResponseMessageStatus::Success(OutputType::Text { text }) => r matches
                    crate::wire::ResponseStatus::Success { output } && output.kind
                    == crate::wire::OutputType::Text && output@.text == Some(text@)
                    && output@.image_uri == None::<Seq<char>> && output.wf(),
                ResponseMessageStatus::Error(details) => r matches
                    crate::wire::ResponseStatus::Error { error } && error@.code == details.code@
                    && error@.message == details.message@,
            },
    {
        match self {
            ResponseMessageStatus::Success(OutputType::Image { image_uri }) => {
                crate::wire::ResponseStatus::Success {
                    output: crate::wire::OutputObject {
                        kind: crate::wire::OutputType::Image,
                        image_uri: Some(image_uri),
                        text: None,
                    },
                }
            },
            ResponseMessageStatus::Success(OutputType::Text { text }) => {
                crate::wire::ResponseStatus::Success {
                    output: crate::wire::OutputObject {
                        kind: crate::wire::OutputType::Text,
                        image_uri: None,
                        text: Some(text),
                    },
                }
            },
            ResponseMessageStatus::Error(details) => crate::wire::ResponseStatus::Error {
                error: crate::wire::ErrorObject { code: details.code, message: details.message },
            },
        }
    }
}

/// The mathematical form of the worker's error details.
pub struct ErrorDetailsV {
    pub code: Seq<char>,
    pub message: Seq<char>,
}

impl View for ErrorDetails {
    type V = ErrorDetailsV;

    open spec fn view(&self) -> ErrorDetailsV {
        ErrorDetailsV { code: self.code@, message: self.message@ }
    }
}

/// The wire status of a handled request: the produced output on success,
/// the protocol code and message on failure.
pub fn response_status_of(value: Result<HandleRequestResult, HandleRequestError>) -> (r:
    crate::wire::ResponseStatus)
    ensures
        match value {
            Ok(HandleRequestResult::Image(path)) => r matches
                crate::wire::ResponseStatus::Success { output } && output.kind
                == crate::wire::OutputType::Image && output@.image_uri == Some(path@)
                && output@.text == None::<Seq<char>> && output.wf(),
            Ok(HandleRequestResult::Text(text)) => r matches
                crate::wire::ResponseStatus::Success { output } && output.kind
                == crate::wire::OutputType::Text && output@.text == Some(text@)
                && output@.image_uri == None::<Seq<char>> && output.wf(),
            Err(e) => r matches crate::wire::ResponseStatus::Error { error } && error@.code
                == error_code_v(e) && error@.message == error_message_v(e),
        },
{
    match value {
        Ok(HandleRequestResult::Image(path)) => crate::wire::ResponseStatus::Success {
            output: crate::wire::OutputObject {
                kind: crate::wire::OutputType::Image,
                image_uri: Some(path),
                text: None,
            },
        },
        Ok(HandleRequestResult::Text(text)) => crate::wire::ResponseStatus::Success {
            output: crate::wire::OutputObject {
                kind: crate::wire::OutputType::Text,
                image_uri: None,
                text: Some(text),
            },
        },
        Err(e) => {
            let code = e.error_code();
            let message = e.error_message();
            crate::wire::ResponseStatus::Error {
                error: crate::wire::ErrorObject { code, message },
            }
        },
    }
}

/// The full response for one handled request: a fresh message id, the
/// request's id echoed as the correlation id, the handling status, and the
/// worker's metadata.
pub fn compose_response(
    value: Result<HandleRequestResult, HandleRequestError>,
    correlation_id: String,
    message_id: u128,
    timestamp: String,
    processing_time: JsonNum,
    microservice: String,
) -> (r: crate::wire::ResponseMessage)
    requires
        processing_time.wf(),
        !processing_time.neg,
    ensures
        r.wf(),
        r@.message_id == crate::ids::id_str(message_id),
        r@.correlation_id == correlation_id@,
        r@.timestamp == timestamp@,
        r@.processing_time == processing_time,
        r@.microservice == microservice@,
        match value {
            Ok(HandleRequestResult::Image(path)) => r.status matches
                crate::wire::ResponseStatus::Success { output } && output.kind
                == crate::wire::OutputType::Image && output@.image_uri == Some(path@),
            Ok(HandleRequestResult::Text(text)) => r.status matches
                crate::wire::ResponseStatus::Success { output } && output.kind
                == crate::wire::OutputType::Text && output@.text == Some(text@),
            Err(e) => r.status matches crate::wire::ResponseStatus::Error { error }
                && error@.code == error_code_v(e) && error@.message == error_message_v(e),
        },
{
    let status = response_status_of(value);
    crate::wire::ResponseMessage {
        message_id: crate::ids::id_to_string(message_id),
        correlation_id,
        timestamp,
        status,
        metadata: crate::wire::Metadata { processing_time, microservice },
    }
}

/// The full response for one handled request, stamped with a fresh message
/// id and the current time.
pub fn compose_response_now(
    value: Result<HandleRequestResult, HandleRequestError>,
    correlation_id: String,
    processing_time: JsonNum,
    microservice: String,
) -> (r: crate::wire::ResponseMessage)
    requires
        processing_time.wf(),
        !processing_time.neg,
    ensures
        r.wf(),
        r@.correlation_id == correlation_id@,
        r@.processing_time == processing_time,
        r@.microservice == microservice@,
        match value {
            Ok(HandleRequestResult::Image(path)) => r.status matches
                crate::wire::ResponseStatus::Success { output } && output.kind
                == crate::wire::OutputType::Image && output@.image_uri == Some(path@),
            Ok(HandleRequestResult::Text(text)) => r.status matches
                crate::wire::ResponseStatus::Success { output } && output.kind
                == crate::wire::OutputType::Text && output@.text == Some(text@),
            Err(e) => r.status matches crate::wire::ResponseStatus::Error { error }
                && error@.code == error_code_v(e) && error@.message == error_message_v(e),
        },
{
    let message_id = crate::ids::fresh_id();
    let timestamp = crate::clock::now_utc_rfc3339();
    compose_response(value, correlation_id, message_id, timestamp, processing_time, microservice)
}

/// The worker-side request read from a parsed wire value: an object with a
/// `messageId` string, a `timestamp` string, a `procedure` string, and a
/// `parameters` object split into the tool and the image URIs.
pub open spec fn spec_request_from(v: JsonV) -> Option<WorkerRequestV> {
    match v {
        JsonV::Obj(ms) => match (
            obj_lookup(ms, "messageId"@),
            obj_lookup(ms, "timestamp"@),
            obj_lookup(ms, "procedure"@),
            obj_lookup(ms, "parameters"@),
        ) {
            (
                Some(JsonV::Str(message_id)),
                Some(JsonV::Str(timestamp)),
                Some(JsonV::Str(procedure)),
                Some(JsonV::Obj(params)),
            ) => match spec_tool_parts_from_v(procedure, params) {
                Some(parts) => Some(WorkerRequestV { message_id, timestamp, params: parts }),
                None => None,
            },
            _ => None,
        },
        _ => None,
    }
}

/// The split payload of already-mathematical parameters.
pub open spec fn spec_tool_parts_from_v(
    procedure: Seq<char>,
    ps: Seq<(Seq<char>, JsonV)>,
) -> Option<ToolPartsV> {
    match (spec_tool_from(procedure, ps), spec_image_uris_from(ps)) {
        (Some(tool), Some(image_uris)) => Some(ToolPartsV { tool, image_uris }),
        _ => None,
    }
}

/// Reads a worker-side request out of a parsed wire value, exactly as
/// `spec_request_from` does.
pub fn request_from_json(j: &Json) -> (r: Option<RequestMessage>)
    ensures
        match r {
            Some(m) => spec_request_from(jview(*j)) == Some(m@),
            None => spec_request_from(jview(*j)) is None,
        },
{
    let ms = match j {
        Json::Obj(ms) => ms,
        _ => {
            return None;
        },
    };
    let message_id = match lookup(ms, "messageId") {
        Some(Json::Str(s)) => s.clone(),
        _ => {
            return None;
        },
    };
    let timestamp = match lookup(ms, "timestamp") {
        Some(Json::Str(s)) => s.clone(),
        _ => {
            return None;
        },
    };
    let procedure = match lookup(ms, "procedure") {
        Some(Json::Str(s)) => s.clone(),
        _ => {
            return None;
        },
    };
    let params = match lookup(ms, "parameters") {
        Some(Json::Obj(ps)) => ps,
        _ => {
            return None;
        },
    };
    match tool_parts_from(&procedure, params) {
        Some(parts) => Some(RequestMessage { message_id, timestamp, params: parts }),
        None => None,
    }
}

/// Reads a request from its wire text: parse as JSON (whitespace outside
/// strings ignored), then read the envelope and partition the parameters.
pub fn parse_request(text: &str) -> (r: Option<RequestMessage>)
    ensures
        match r {
            Some(m) => (match crate::json::spec_parse_json(text@) {
                Some(v) => spec_request_from(v) == Some(m@),
                None => false,
            }),
            None => (match crate::json::spec_parse_json(text@) {
                Some(v) => spec_request_from(v) is None,
                None => true,
            }),
        },
{
    match crate::json::parse_json(text) {
        Some(j) => request_from_json(&j),
        None => None,
    }
}

/// A request read into a typed tool and written back carries, outside the
/// two reserved image-URI keys, exactly its procedure's schema keys.
pub proof fn lemma_request_param_keys(
    procedure: Seq<char>,
    ps: Seq<(Seq<char>, JsonV)>,
    t: Tool,
)
    requires
        spec_tool_from(procedure, ps) == Some(t),
    ensures
        procedure_name_v(t) == procedure,
        obj_keys(tool_params_v(t)) == schema_keys(procedure),
{
    lemma_params_match_schema(t);
}

} // verus!
