//! JSON values and their text form.
//!
//! The broker messages are JSON. This module holds the crate's own JSON value
//! type, a serializer with an exact character-level specification, and a
//! parser; the codec is the crate's own logic, stated and proved here.
//!
//! Numbers are decimals: a sign, a mantissa and a scale (digits after the
//! point), which represents every number the protocol carries exactly and
//! keeps the codec free of floating point. Exponent notation is not part of
//! the protocol and is not read.

use crate::text::{dec_str, digit_char, digit_char_exec, push_dec_u64};
use vstd::prelude::*;

verus! {

broadcast use vstd::std_specs::vec::axiom_vec_index_decreases;

/// A decimal number: `(-1 if neg) * mantissa / 10^scale`.
#[derive(Clone, Copy, PartialEq, Eq, Structural, Debug)]
pub struct JsonNum {
    /// Whether the number is negative.
    pub neg: bool,
    /// The digits of the number, as an integer.
    pub mantissa: u64,
    /// How many of the mantissa's digits stand after the decimal point.
    pub scale: u8,
}

impl JsonNum {
    /// The canonical form: no `-0`, no trailing zero after the point, and a
    /// scale the mantissa's digits can meaningfully carry.
    pub open spec fn wf(self) -> bool {
        &&& (self.neg ==> self.mantissa > 0)
        &&& (self.scale > 0 ==> self.mantissa % 10 != 0)
        &&& self.scale <= 18
    }

}

/// A JSON value. Object members keep their order; keys are not deduplicated
/// by the type itself.
#[derive(Debug)]
pub enum Json {
    Null,
    Bool(bool),
    Num(JsonNum),
    Str(String),
    Arr(Vec<Json>),
    Obj(Vec<(String, Json)>),
}

/// The mathematical form of a JSON value: strings as character sequences,
/// members as sequences of pairs. Contracts speak of values through this
/// form.
pub enum JsonV {
    Null,
    Bool(bool),
    Num(JsonNum),
    Str(Seq<char>),
    Arr(Seq<JsonV>),
    Obj(Seq<(Seq<char>, JsonV)>),
}

/// The mathematical form of `j`.
pub open spec fn jview(j: Json) -> JsonV
    decreases j, 1int,
{
    match j {
        Json::Null => JsonV::Null,
        Json::Bool(b) => JsonV::Bool(b),
        Json::Num(n) => JsonV::Num(n),
        Json::Str(s) => JsonV::Str(s@),
        Json::Arr(a) => JsonV::Arr(jview_arr(a, a.len() as int)),
        Json::Obj(o) => JsonV::Obj(jview_obj(o, o.len() as int)),
    }
}

/// The mathematical forms of the first `k` members of `a`.
pub open spec fn jview_arr(a: Vec<Json>, k: int) -> Seq<JsonV>
    decreases a, 0int, k,
{
    if k <= 0 || k > a.len() {
        Seq::empty()
    } else {
        jview_arr(a, k - 1).push(jview(a[k - 1]))
    }
}

/// The mathematical forms of the first `k` members of `o`.
pub open spec fn jview_obj(o: Vec<(String, Json)>, k: int) -> Seq<(Seq<char>, JsonV)>
    decreases o, 0int, k,
{
    if k <= 0 || k > o.len() {
        Seq::empty()
    } else {
        jview_obj(o, k - 1).push((o[k - 1].0@, jview(o[k - 1].1)))
    }
}

/// `jview_arr(a, k)` lists the forms of `a[0..k]`, in order.
pub proof fn lemma_jview_arr(a: Vec<Json>, k: int)
    requires
        0 <= k <= a.len(),
    ensures
        jview_arr(a, k).len() == k,
        forall|i: int| 0 <= i < k ==> jview_arr(a, k)[i] == jview(a[i]),
    decreases k,
{
    if k > 0 {
        lemma_jview_arr(a, k - 1);
    }
}

/// `jview_obj(o, k)` lists the keys and forms of `o[0..k]`, in order.
pub proof fn lemma_jview_obj(o: Vec<(String, Json)>, k: int)
    requires
        0 <= k <= o.len(),
    ensures
        jview_obj(o, k).len() == k,
        forall|i: int| 0 <= i < k ==> jview_obj(o, k)[i] == (o[i].0@, jview(o[i].1)),
    decreases k,
{
    if k > 0 {
        lemma_jview_obj(o, k - 1);
    }
}

impl View for Json {
    type V = JsonV;

    open spec fn view(&self) -> JsonV {
        jview(*self)
    }
}

/// A copy of `j` with the same mathematical form.
#[verifier::loop_isolation(false)]
pub fn clone_json(j: &Json) -> (r: Json)
    ensures
        r@ == j@,
    decreases *j,
{
    match j {
        Json::Null => Json::Null,
        Json::Bool(b) => Json::Bool(*b),
        Json::Num(n) => Json::Num(*n),
        Json::Str(s) => Json::Str(s.clone()),
        Json::Arr(a) => {
            let mut v: Vec<Json> = Vec::new();
            let mut k: usize = 0;
            while k < a.len()
                invariant
                    k <= a@.len(),
                    v@.len() == k,
                    forall|i: int| 0 <= i < k ==> jview(v@[i]) == jview(a@[i]),
                decreases a@.len() - k,
            {
                let c = clone_json(&a[k]);
                v.push(c);
                k = k + 1;
            }
            proof {
                lemma_jview_arr(v, v@.len() as int);
                lemma_jview_arr(*a, a@.len() as int);
                assert(jview_arr(v, v@.len() as int) =~= jview_arr(*a, a@.len() as int));
            }
            Json::Arr(v)
        },
        Json::Obj(o) => {
            let mut v: Vec<(String, Json)> = Vec::new();
            let mut k: usize = 0;
            while k < o.len()
                invariant
                    k <= o@.len(),
                    v@.len() == k,
                    forall|i: int| 0 <= i < k ==> v@[i].0@ == o@[i].0@ && jview(v@[i].1) == jview(
                        o@[i].1,
                    ),
                decreases o@.len() - k,
            {
                let key = o[k].0.clone();
                let val = clone_json(&o[k].1);
                v.push((key, val));
                k = k + 1;
            }
            proof {
                lemma_jview_obj(v, v@.len() as int);
                lemma_jview_obj(*o, o@.len() as int);
                assert(jview_obj(v, v@.len() as int) =~= jview_obj(*o, o@.len() as int));
            }
            Json::Obj(v)
        },
    }
}

/// A sequence of `k` zero characters.
pub open spec fn zeros(k: nat) -> Seq<char> {
    Seq::new(k, |i: int| '0')
}

/// The text of a decimal number.
pub open spec fn ser_num(n: JsonNum) -> Seq<char> {
    let sign: Seq<char> = if n.neg {
        seq!['-']
    } else {
        Seq::empty()
    };
    let ds = dec_str(n.mantissa as nat);
    if n.scale == 0 {
        sign + ds
    } else if ds.len() > n.scale {
        sign + ds.subrange(0, ds.len() - n.scale) + seq!['.'] + ds.subrange(
            ds.len() - n.scale,
            ds.len() as int,
        )
    } else {
        sign + seq!['0', '.'] + zeros((n.scale - ds.len()) as nat) + ds
    }
}

/// The escape of one character inside a JSON string literal.
pub open spec fn esc_char(c: char) -> Seq<char> {
    if c == '"' {
        seq!['\\', '"']
    } else if c == '\\' {
        seq!['\\', '\\']
    } else if c == '\u{8}' {
        seq!['\\', 'b']
    } else if c == '\u{c}' {
        seq!['\\', 'f']
    } else if c == '\n' {
        seq!['\\', 'n']
    } else if c == '\r' {
        seq!['\\', 'r']
    } else if c == '\t' {
        seq!['\\', 't']
    } else if (c as nat) < 0x20 {
        seq!['\\', 'u', '0', '0', digit_char((c as nat) / 16), digit_char((c as nat) % 16)]
    } else {
        seq![c]
    }
}

/// The escapes of the first `k` characters of `s`, concatenated.
pub open spec fn esc_prefix(s: Seq<char>, k: int) -> Seq<char>
    decreases k,
{
    if k <= 0 {
        Seq::empty()
    } else {
        esc_prefix(s, k - 1) + esc_char(s[k - 1])
    }
}

/// The body of a JSON string literal for `s`.
pub open spec fn esc_str(s: Seq<char>) -> Seq<char> {
    esc_prefix(s, s.len() as int)
}

/// The JSON string literal for `s`, quotes included.
pub open spec fn ser_string(s: Seq<char>) -> Seq<char> {
    seq!['"'] + esc_str(s) + seq!['"']
}

/// The text of the first `k` members of an array, commas between them.
pub open spec fn ser_arr_prefix(a: Vec<Json>, k: int) -> Seq<char>
    decreases a, k,
{
    if k <= 0 || k > a.len() {
        Seq::empty()
    } else if k == 1 {
        ser_json(a[0])
    } else {
        ser_arr_prefix(a, k - 1) + seq![','] + ser_json(a[k - 1])
    }
}

/// The text of the first `k` members of an object, commas between them.
pub open spec fn ser_obj_prefix(o: Vec<(String, Json)>, k: int) -> Seq<char>
    decreases o, k,
{
    if k <= 0 || k > o.len() {
        Seq::empty()
    } else if k == 1 {
        ser_string(o[0].0@) + seq![':'] + ser_json(o[0].1)
    } else {
        ser_obj_prefix(o, k - 1) + seq![','] + ser_string(o[k - 1].0@) + seq![':'] + ser_json(
            o[k - 1].1,
        )
    }
}

/// The text of a JSON value, with no whitespace, keys and members in order.
pub open spec fn ser_json(j: Json) -> Seq<char>
    decreases j, 0int,
{
    match j {
        Json::Null => seq!['n', 'u', 'l', 'l'],
        Json::Bool(b) => if b {
            seq!['t', 'r', 'u', 'e']
        } else {
            seq!['f', 'a', 'l', 's', 'e']
        },
        Json::Num(n) => ser_num(n),
        Json::Str(s) => ser_string(s@),
        Json::Arr(a) => seq!['['] + ser_arr_prefix(a, a.len() as int) + seq![']'],
        Json::Obj(o) => seq!['{'] + ser_obj_prefix(o, o.len() as int) + seq!['}'],
    }
}

/// Appends `v[from..to]` to `out`.
pub fn append_range(out: &mut Vec<char>, v: &Vec<char>, from: usize, to: usize)
    requires
        from <= to <= v@.len(),
    ensures
        final(out)@ == old(out)@ + v@.subrange(from as int, to as int),
{
    let mut i = from;
    while i < to
        invariant
            from <= i <= to <= v@.len(),
            out@ == old(out)@ + v@.subrange(from as int, i as int),
        decreases to - i,
    {
        out.push(v[i]);
        i = i + 1;
        proof {
            assert(out@ =~= old(out)@ + v@.subrange(from as int, i as int));
        }
    }
    proof {
        assert(out@ =~= old(out)@ + v@.subrange(from as int, to as int));
    }
}

/// Appends the text of a decimal number to `out`.
pub fn write_num(out: &mut Vec<char>, n: &JsonNum)
    ensures
        final(out)@ == old(out)@ + ser_num(*n),
{
    let ghost start = out@;
    if n.neg {
        out.push('-');
    }
    let ghost with_sign = out@;
    let mut ds: Vec<char> = Vec::new();
    push_dec_u64(&mut ds, n.mantissa);
    if n.scale == 0 {
        append_range(out, &ds, 0, ds.len());
        proof {
            assert(ds@.subrange(0, ds@.len() as int) =~= ds@);
            assert(out@ =~= start + ser_num(*n));
        }
    } else if ds.len() > n.scale as usize {
        let cut = ds.len() - n.scale as usize;
        append_range(out, &ds, 0, cut);
        out.push('.');
        append_range(out, &ds, cut, ds.len());
        proof {
            assert(out@ =~= start + ser_num(*n));
        }
    } else {
        out.push('0');
        out.push('.');
        let pad = n.scale as usize - ds.len();
        let mut z: usize = 0;
        while z < pad
            invariant
                z <= pad,
                out@ == with_sign + seq!['0', '.'] + zeros(z as nat),
            decreases pad - z,
        {
            out.push('0');
            z = z + 1;
            proof {
                assert(out@ =~= with_sign + seq!['0', '.'] + zeros(z as nat));
            }
        }
        append_range(out, &ds, 0, ds.len());
        proof {
            assert(ds@.subrange(0, ds@.len() as int) =~= ds@);
            assert(out@ =~= start + ser_num(*n));
        }
    }
}

/// Appends the escape of one character to `out`.
fn write_esc_char(out: &mut Vec<char>, c: char)
    ensures
        final(out)@ == old(out)@ + esc_char(c),
{
    if c == '"' {
        out.push('\\');
        out.push('"');
    } else if c == '\\' {
        out.push('\\');
        out.push('\\');
    } else if c == '\u{8}' {
        out.push('\\');
        out.push('b');
    } else if c == '\u{c}' {
        out.push('\\');
        out.push('f');
    } else if c == '\n' {
        out.push('\\');
        out.push('n');
    } else if c == '\r' {
        out.push('\\');
        out.push('r');
    } else if c == '\t' {
        out.push('\\');
        out.push('t');
    } else if (c as u32) < 0x20 {
        out.push('\\');
        out.push('u');
        out.push('0');
        out.push('0');
        out.push(digit_char_exec(((c as u32) / 16) as u8));
        out.push(digit_char_exec(((c as u32) % 16) as u8));
    } else {
        out.push(c);
    }
    proof {
        assert(out@ =~= old(out)@ + esc_char(c));
    }
}

/// Appends the JSON string literal for `s`, quotes included, to `out`.
pub fn write_json_string(out: &mut Vec<char>, s: &String)
    ensures
        final(out)@ == old(out)@ + ser_string(s@),
{
    let cs = crate::text::str_to_chars(s.as_str());
    out.push('"');
    let ghost opened = out@;
    let mut i: usize = 0;
    while i < cs.len()
        invariant
            cs@ == s@,
            i <= cs@.len(),
            opened == old(out)@ + seq!['"'],
            out@ == opened + esc_prefix(s@, i as int),
        decreases cs@.len() - i,
    {
        write_esc_char(out, cs[i]);
        i = i + 1;
    }
    out.push('"');
    proof {
        assert(out@ =~= old(out)@ + ser_string(s@));
    }
}

/// Appends the text of `j` to `out`.
#[verifier::loop_isolation(false)]
#[verifier::rlimit(60)]
pub fn write_json(out: &mut Vec<char>, j: &Json)
    ensures
        final(out)@ == old(out)@ + ser_json(*j),
    decreases *j, 0int, 0int,
{
    match j {
        Json::Null => {
            out.push('n');
            out.push('u');
            out.push('l');
            out.push('l');
            proof {
                assert(out@ =~= old(out)@ + ser_json(*j));
            }
        },
        Json::Bool(b) => {
            if *b {
                out.push('t');
                out.push('r');
                out.push('u');
                out.push('e');
            } else {
                out.push('f');
                out.push('a');
                out.push('l');
                out.push('s');
                out.push('e');
            }
            proof {
                assert(out@ =~= old(out)@ + ser_json(*j));
            }
        },
        Json::Num(n) => {
            write_num(out, n);
        },
        Json::Str(s) => {
            write_json_string(out, s);
        },
        Json::Arr(a) => {
            out.push('[');
            let ghost opened = out@;
            let mut k: usize = 0;
            while k < a.len()
                invariant
                    opened == old(out)@ + seq!['['],
                    k <= a@.len(),
                    out@ == opened + ser_arr_prefix(*a, k as int),
                decreases a@.len() - k,
            {
                if k > 0 {
                    out.push(',');
                }
                write_json(out, &a[k]);
                k = k + 1;
                proof {
                    assert(out@ =~= opened + ser_arr_prefix(*a, k as int));
                }
            }
            out.push(']');
            proof {
                assert(out@ =~= old(out)@ + ser_json(*j));
            }
        },
        Json::Obj(o) => {
            write_obj(out, o);
            proof {
                assert(out@ =~= old(out)@ + ser_json(*j));
            }
        },
    }
}

/// Appends the text of the object with members `o`, braces included, to `out`.
#[verifier::loop_isolation(false)]
#[verifier::rlimit(60)]
pub fn write_obj(out: &mut Vec<char>, o: &Vec<(String, Json)>)
    ensures
        final(out)@ == old(out)@ + seq!['{'] + ser_obj_prefix(*o, o@.len() as int) + seq!['}'],
    decreases *o, 1int, 0int,
{
    out.push('{');
    let ghost opened = out@;
    let mut k: usize = 0;
    while k < o.len()
        invariant
            opened == old(out)@ + seq!['{'],
            k <= o@.len(),
            out@ == opened + ser_obj_prefix(*o, k as int),
        decreases o@.len() - k,
    {
        if k > 0 {
            out.push(',');
        }
        write_json_string(out, &o[k].0);
        out.push(':');
        write_json(out, &o[k].1);
        k = k + 1;
        proof {
            assert(out@ =~= opened + ser_obj_prefix(*o, k as int));
        }
    }
    out.push('}');
    proof {
        assert(out@ =~= old(out)@ + seq!['{'] + ser_obj_prefix(*o, o@.len() as int) + seq!['}']);
    }
}

/// Appends the characters of `s` to `out`.
pub fn append_lit(out: &mut Vec<char>, s: &str)
    ensures
        final(out)@ == old(out)@ + s@,
{
    let cs = crate::text::str_to_chars(s);
    append_range(out, &cs, 0, cs.len());
    proof {
        assert(cs@.subrange(0, cs@.len() as int) =~= s@);
    }
}

/// Whether `c` is JSON whitespace.
pub open spec fn is_ws(c: char) -> bool {
    c == ' ' || c == '\n' || c == '\r' || c == '\t'
}

/// `s` from position `i` on with whitespace outside string literals
/// removed; `in_str` and `esc` carry the scan's state.
pub open spec fn strip_ws_from(s: Seq<char>, i: int, in_str: bool, esc: bool) -> Seq<char>
    decreases s.len() - i,
{
    if !(0 <= i < s.len()) {
        Seq::empty()
    } else {
        let c = s[i];
        if in_str {
            if esc {
                seq![c] + strip_ws_from(s, i + 1, true, false)
            } else if c == '\\' {
                seq![c] + strip_ws_from(s, i + 1, true, true)
            } else if c == '"' {
                seq![c] + strip_ws_from(s, i + 1, false, false)
            } else {
                seq![c] + strip_ws_from(s, i + 1, true, false)
            }
        } else {
            if is_ws(c) {
                strip_ws_from(s, i + 1, false, false)
            } else if c == '"' {
                seq![c] + strip_ws_from(s, i + 1, true, false)
            } else {
                seq![c] + strip_ws_from(s, i + 1, false, false)
            }
        }
    }
}

/// `s` with whitespace outside string literals removed.
pub open spec fn strip_json_ws(s: Seq<char>) -> Seq<char> {
    strip_ws_from(s, 0, false, false)
}

/// Removes whitespace outside string literals.
pub fn strip_ws(s: &Vec<char>) -> (r: Vec<char>)
    ensures
        r@ == strip_json_ws(s@),
{
    let mut out: Vec<char> = Vec::new();
    let mut i: usize = 0;
    let mut in_str = false;
    let mut esc = false;
    while i < s.len()
        invariant
            i <= s@.len(),
            strip_json_ws(s@) == out@ + strip_ws_from(s@, i as int, in_str, esc),
            in_str || !esc,
        decreases s@.len() - i,
    {
        let c = s[i];
        if in_str {
            if esc {
                out.push(c);
                esc = false;
            } else if c == '\\' {
                out.push(c);
                esc = true;
            } else if c == '"' {
                out.push(c);
                in_str = false;
            } else {
                out.push(c);
            }
        } else {
            if c == ' ' || c == '\n' || c == '\r' || c == '\t' {
            } else if c == '"' {
                out.push(c);
                in_str = true;
            } else {
                out.push(c);
            }
        }
        i = i + 1;
        proof {
            assert(strip_json_ws(s@) =~= out@ + strip_ws_from(s@, i as int, in_str, esc));
        }
    }
    proof {
        assert(strip_json_ws(s@) =~= out@);
    }
    out
}

/// The character named by a string escape.
pub open spec fn unesc_char(e: char) -> char {
    if e == 'b' {
        '\u{8}'
    } else if e == 'f' {
        '\u{c}'
    } else if e == 'n' {
        '\n'
    } else if e == 'r' {
        '\r'
    } else if e == 't' {
        '\t'
    } else {
        e
    }
}

/// Reads a string literal's body from just after the opening quote: the
/// content characters and the position past the closing quote. The named
/// escapes are read; `\u` escapes are not part of this protocol's texts.
pub open spec fn parse_string_body(s: Seq<char>, i: int) -> Option<(Seq<char>, int)>
    decreases s.len() - i,
{
    if !(0 <= i < s.len()) {
        None
    } else if s[i] == '"' {
        Some((Seq::empty(), i + 1))
    } else if s[i] == '\\' {
        if i + 1 < s.len() {
            let e = s[i + 1];
            if e == '"' || e == '\\' || e == '/' || e == 'b' || e == 'f' || e == 'n' || e == 'r'
                || e == 't' {
                match parse_string_body(s, i + 2) {
                    Some((rest, j)) => Some((seq![unesc_char(e)] + rest, j)),
                    None => None,
                }
            } else {
                None
            }
        } else {
            None
        }
    } else if ' ' > s[i] {
        None
    } else {
        match parse_string_body(s, i + 1) {
            Some((rest, j)) => Some((seq![s[i]] + rest, j)),
            None => None,
        }
    }
}

/// The first position at or after `i` that does not hold a digit.
pub open spec fn digits_end(s: Seq<char>, i: int) -> int
    decreases s.len() - i,
{
    if !(0 <= i < s.len()) {
        i
    } else if !crate::text::is_digit(s[i]) {
        i
    } else {
        digits_end(s, i + 1)
    }
}

/// `digits_end` finds the end of the digit run beginning at `i`.
pub proof fn lemma_digits_end(s: Seq<char>, i: int)
    requires
        0 <= i <= s.len(),
    ensures
        i <= digits_end(s, i) <= s.len(),
        forall|j: int| i <= j < digits_end(s, i) ==> crate::text::is_digit(#[trigger] s[j]),
        digits_end(s, i) < s.len() ==> !crate::text::is_digit(s[digits_end(s, i)]),
    decreases s.len() - i,
{
    if i < s.len() && crate::text::is_digit(s[i]) {
        lemma_digits_end(s, i + 1);
    }
}

/// Reads a number starting at `i`: an optional minus, digits, an optional
/// point with digits. The mantissa must fit a `u64`, the fraction eighteen
/// digits; `-0` forms are not written by this protocol and are not read.
pub open spec fn parse_num_at(s: Seq<char>, i: int) -> Option<(JsonNum, int)> {
    if !(0 <= i < s.len()) {
        None
    } else {
        let neg = s[i] == '-';
        let i0 = if neg {
            i + 1
        } else {
            i
        };
        let i1 = digits_end(s, i0);
        if i1 == i0 {
            None
        } else {
            if i1 < s.len() && s[i1] == '.' {
                let i2 = digits_end(s, i1 + 1);
                if i2 == i1 + 1 {
                    None
                } else {
                    let m = crate::text::dec_val(
                        s.subrange(i0, i1) + s.subrange(i1 + 1, i2),
                    );
                    let sc = i2 - (i1 + 1);
                    if m <= u64::MAX && sc <= 18 && !(neg && m == 0) {
                        Some(
                            (
                                JsonNum { neg, mantissa: m as u64, scale: sc as u8 },
                                i2,
                            ),
                        )
                    } else {
                        None
                    }
                }
            } else {
                let m = crate::text::dec_val(s.subrange(i0, i1));
                if m <= u64::MAX && !(neg && m == 0) {
                    Some((JsonNum { neg, mantissa: m as u64, scale: 0 }, i1))
                } else {
                    None
                }
            }
        }
    }
}

/// Reads one value starting exactly at `i`; no whitespace is read.
pub open spec fn parse_at(s: Seq<char>, i: int) -> Option<(JsonV, int)>
    decreases s.len() - i, 0int,
{
    if !(0 <= i < s.len()) {
        None
    } else if s[i] == 'n' {
        if i + 4 <= s.len() && s[i + 1] == 'u' && s[i + 2] == 'l' && s[i + 3] == 'l' {
            Some((JsonV::Null, i + 4))
        } else {
            None
        }
    } else if s[i] == 't' {
        if i + 4 <= s.len() && s[i + 1] == 'r' && s[i + 2] == 'u' && s[i + 3] == 'e' {
            Some((JsonV::Bool(true), i + 4))
        } else {
            None
        }
    } else if s[i] == 'f' {
        if i + 5 <= s.len() && s[i + 1] == 'a' && s[i + 2] == 'l' && s[i + 3] == 's' && s[i + 4]
            == 'e' {
            Some((JsonV::Bool(false), i + 5))
        } else {
            None
        }
    } else if s[i] == '"' {
        match parse_string_body(s, i + 1) {
            Some((cs, j)) => Some((JsonV::Str(cs), j)),
            None => None,
        }
    } else if s[i] == '[' {
        if i + 1 < s.len() && s[i + 1] == ']' {
            Some((JsonV::Arr(Seq::empty()), i + 2))
        } else {
            match parse_arr_items(s, i + 1) {
                Some((items, j)) => Some((JsonV::Arr(items), j)),
                None => None,
            }
        }
    } else if s[i] == '{' {
        if i + 1 < s.len() && s[i + 1] == '}' {
            Some((JsonV::Obj(Seq::empty()), i + 2))
        } else {
            match parse_obj_items(s, i + 1) {
                Some((members, j)) => Some((JsonV::Obj(members), j)),
                None => None,
            }
        }
    } else {
        match parse_num_at(s, i) {
            Some((n, j)) => Some((JsonV::Num(n), j)),
            None => None,
        }
    }
}

/// Reads the members of a non-empty array from the first member on,
/// through the closing bracket.
pub open spec fn parse_arr_items(s: Seq<char>, i: int) -> Option<(Seq<JsonV>, int)>
    decreases s.len() - i, 1int,
{
    match parse_at(s, i) {
        Some((v, j)) => {
            if j <= i || j >= s.len() {
                None
            } else if s[j] == ']' {
                Some((seq![v], j + 1))
            } else if s[j] == ',' {
                match parse_arr_items(s, j + 1) {
                    Some((rest, k)) => Some((seq![v] + rest, k)),
                    None => None,
                }
            } else {
                None
            }
        },
        None => None,
    }
}

/// Reads the members of a non-empty object from the first key on, through
/// the closing brace.
pub open spec fn parse_obj_items(s: Seq<char>, i: int) -> Option<
    (Seq<(Seq<char>, JsonV)>, int),
>
    decreases s.len() - i, 1int,
{
    if !(0 <= i < s.len()) {
        None
    } else if s[i] != '"' {
        None
    } else {
        match parse_string_body(s, i + 1) {
            Some((key, j)) => {
                if j <= i || j >= s.len() || s[j] != ':' {
                    None
                } else {
                    match parse_at(s, j + 1) {
                        Some((v, k)) => {
                            if k <= j || k >= s.len() {
                                None
                            } else if s[k] == '}' {
                                Some((seq![(key, v)], k + 1))
                            } else if s[k] == ',' {
                                match parse_obj_items(s, k + 1) {
                                    Some((rest, m)) => Some((seq![(key, v)] + rest, m)),
                                    None => None,
                                }
                            } else {
                                None
                            }
                        },
                        None => None,
                    }
                }
            },
            None => None,
        }
    }
}

/// The value a whole text holds, whitespace outside strings ignored.
pub open spec fn spec_parse_json(s: Seq<char>) -> Option<JsonV> {
    let t = strip_json_ws(s);
    match parse_at(t, 0) {
        Some((v, j)) => if j == t.len() {
            Some(v)
        } else {
            None
        },
        None => None,
    }
}

/// The first position at or after `from` that does not hold a digit.
fn scan_digits(s: &Vec<char>, from: usize) -> (r: usize)
    requires
        from <= s@.len(),
    ensures
        r == digits_end(s@, from as int),
        from <= r <= s@.len(),
    decreases s@.len() - from,
{
    proof {
        lemma_digits_end(s@, from as int);
    }
    if from < s.len() {
        let c = s[from];
        if c >= '0' && c <= '9' {
            return scan_digits(s, from + 1);
        }
    }
    from
}

/// Reads a string literal's body, as `parse_string_body` does.
fn parse_string_chars(s: &Vec<char>, i: usize) -> (r: Option<(Vec<char>, usize)>)
    ensures
        match r {
            Some((cs, j)) => parse_string_body(s@, i as int) == Some((cs@, j as int)) && i < j
                <= s@.len(),
            None => parse_string_body(s@, i as int) is None,
        },
    decreases s@.len() - i,
{
    if i >= s.len() {
        return None;
    }
    let c = s[i];
    if c == '"' {
        Some((Vec::new(), i + 1))
    } else if c == '\\' {
        if i + 1 < s.len() {
            let e = s[i + 1];
            if e == '"' || e == '\\' || e == '/' || e == 'b' || e == 'f' || e == 'n' || e == 'r'
                || e == 't' {
                match parse_string_chars(s, i + 2) {
                    Some((rest, j)) => {
                        let mut rest = rest;
                        let u = if e == 'b' {
                            '\u{8}'
                        } else if e == 'f' {
                            '\u{c}'
                        } else if e == 'n' {
                            '\n'
                        } else if e == 'r' {
                            '\r'
                        } else if e == 't' {
                            '\t'
                        } else {
                            e
                        };
                        rest.insert(0, u);
                        proof {
                            assert(rest@ =~= seq![unesc_char(e)]
                                + parse_string_body(s@, i + 2)->Some_0.0);
                        }
                        Some((rest, j))
                    },
                    None => None,
                }
            } else {
                None
            }
        } else {
            None
        }
    } else if ' ' > c {
        None
    } else {
        match parse_string_chars(s, i + 1) {
            Some((rest, j)) => {
                let mut rest = rest;
                rest.insert(0, c);
                proof {
                    assert(rest@ =~= seq![s@[i as int]] + parse_string_body(
                        s@,
                        i + 1,
                    )->Some_0.0);
                }
                Some((rest, j))
            },
            None => None,
        }
    }
}

/// Reads a number, as `parse_num_at` does.
fn parse_num_chars(s: &Vec<char>, i: usize) -> (r: Option<(JsonNum, usize)>)
    requires
        i < s@.len(),
    ensures
        match r {
            Some((n, j)) => parse_num_at(s@, i as int) == Some((n, j as int)) && i < j
                <= s@.len(),
            None => parse_num_at(s@, i as int) is None,
        },
{
    let n = s.len();
    let neg = s[i] == '-';
    let i0 = if neg {
        i + 1
    } else {
        i
    };
    if i0 > n {
        return None;
    }
    proof {
        lemma_digits_end(s@, i0 as int);
    }
    let i1 = scan_digits(s, i0);
    if i1 == i0 {
        return None;
    }
    if i1 < s.len() && s[i1] == '.' {
        proof {
            lemma_digits_end(s@, i1 + 1);
        }
        let i2 = scan_digits(s, i1 + 1);
        if i2 == i1 + 1 {
            return None;
        }
        let mut digits: Vec<char> = Vec::new();
        append_range(&mut digits, s, i0, i1);
        append_range(&mut digits, s, i1 + 1, i2);
        proof {
            assert(digits@ =~= s@.subrange(i0 as int, i1 as int) + s@.subrange(
                i1 + 1,
                i2 as int,
            ));
        }
        let sc = i2 - (i1 + 1);
        match crate::text::dec_val_u64(&digits, 0, digits.len()) {
            Some(m) => {
                proof {
                    assert(digits@.subrange(0, digits@.len() as int) =~= digits@);
                }
                if sc <= 18 && !(neg && m == 0) {
                    Some((JsonNum { neg, mantissa: m, scale: sc as u8 }, i2))
                } else {
                    None
                }
            },
            None => {
                proof {
                    assert(digits@.subrange(0, digits@.len() as int) =~= digits@);
                }
                None
            },
        }
    } else {
        let mut digits: Vec<char> = Vec::new();
        append_range(&mut digits, s, i0, i1);
        proof {
            assert(digits@ =~= s@.subrange(i0 as int, i1 as int));
        }
        match crate::text::dec_val_u64(&digits, 0, digits.len()) {
            Some(m) => {
                proof {
                    assert(digits@.subrange(0, digits@.len() as int) =~= digits@);
                }
                if !(neg && m == 0) {
                    Some((JsonNum { neg, mantissa: m, scale: 0 }, i1))
                } else {
                    None
                }
            },
            None => {
                proof {
                    assert(digits@.subrange(0, digits@.len() as int) =~= digits@);
                }
                None
            },
        }
    }
}

/// Reads one value, as `parse_at` does.
fn parse_value_at(s: &Vec<char>, i: usize) -> (r: Option<(Json, usize)>)
    ensures
        match r {
            Some((v, end)) => parse_at(s@, i as int) == Some((jview(v), end as int)) && i < end
                <= s@.len(),
            None => parse_at(s@, i as int) is None,
        },
    decreases s@.len() - i, 0int,
{
    if i >= s.len() {
        return None;
    }
    let c = s[i];
    if c == 'n' {
        if s.len() - i >= 4 && s[i + 1] == 'u' && s[i + 2] == 'l' && s[i + 3] == 'l' {
            Some((Json::Null, i + 4))
        } else {
            None
        }
    } else if c == 't' {
        if s.len() - i >= 4 && s[i + 1] == 'r' && s[i + 2] == 'u' && s[i + 3] == 'e' {
            Some((Json::Bool(true), i + 4))
        } else {
            None
        }
    } else if c == 'f' {
        if s.len() - i >= 5 && s[i + 1] == 'a' && s[i + 2] == 'l' && s[i + 3] == 's' && s[i + 4]
            == 'e' {
            Some((Json::Bool(false), i + 5))
        } else {
            None
        }
    } else if c == '"' {
        match parse_string_chars(s, i + 1) {
            Some((cs, j)) => {
                let st = crate::text::chars_to_string(&cs);
                Some((Json::Str(st), j))
            },
            None => None,
        }
    } else if c == '[' {
        if s.len() - i >= 2 && s[i + 1] == ']' {
            let items: Vec<Json> = Vec::new();
            proof {
                lemma_jview_arr(items, 0);
                assert(jview_arr(items, 0) =~= Seq::<JsonV>::empty());
            }
            Some((Json::Arr(items), i + 2))
        } else {
            match parse_items_at(s, i + 1) {
                Some((items, j)) => Some((Json::Arr(items), j)),
                None => None,
            }
        }
    } else if c == '{' {
        if s.len() - i >= 2 && s[i + 1] == '}' {
            let members: Vec<(String, Json)> = Vec::new();
            proof {
                lemma_jview_obj(members, 0);
                assert(jview_obj(members, 0) =~= Seq::<(Seq<char>, JsonV)>::empty());
            }
            Some((Json::Obj(members), i + 2))
        } else {
            match parse_members_at(s, i + 1) {
                Some((members, j)) => Some((Json::Obj(members), j)),
                None => None,
            }
        }
    } else {
        match parse_num_chars(s, i) {
            Some((n, j)) => Some((Json::Num(n), j)),
            None => None,
        }
    }
}

/// Reads a non-empty array's members, as `parse_arr_items` does.
fn parse_items_at(s: &Vec<char>, i: usize) -> (r: Option<(Vec<Json>, usize)>)
    ensures
        match r {
            Some((items, j)) => parse_arr_items(s@, i as int) == Some(
                (jview_arr(items, items@.len() as int), j as int),
            ) && i < j <= s@.len(),
            None => parse_arr_items(s@, i as int) is None,
        },
    decreases s@.len() - i, 1int,
{
    match parse_value_at(s, i) {
        Some((v, j)) => {
            if j >= s.len() {
                None
            } else if s[j] == ']' {
                let mut items: Vec<Json> = Vec::new();
                items.push(v);
                proof {
                    lemma_jview_arr(items, 1);
                    assert(jview_arr(items, 1) =~= seq![parse_at(s@, i as int)->Some_0.0]);
                }
                Some((items, j + 1))
            } else if s[j] == ',' {
                match parse_items_at(s, j + 1) {
                    Some((rest, k)) => {
                        let ghost rest_vec = rest;
                        let mut items = rest;
                        items.insert(0, v);
                        proof {
                            lemma_jview_arr(items, items@.len() as int);
                            lemma_jview_arr(rest_vec, rest_vec@.len() as int);
                            let restv = parse_arr_items(s@, j + 1)->Some_0.0;
                            assert(jview_arr(items, items@.len() as int) =~= seq![
                                parse_at(s@, i as int)->Some_0.0,
                            ] + restv);
                        }
                        Some((items, k))
                    },
                    None => None,
                }
            } else {
                None
            }
        },
        None => None,
    }
}

/// Reads a non-empty object's members, as `parse_obj_items` does.
fn parse_members_at(s: &Vec<char>, i: usize) -> (r: Option<(Vec<(String, Json)>, usize)>)
    ensures
        match r {
            Some((members, j)) => parse_obj_items(s@, i as int) == Some(
                (jview_obj(members, members@.len() as int), j as int),
            ) && i < j <= s@.len(),
            None => parse_obj_items(s@, i as int) is None,
        },
    decreases s@.len() - i, 1int,
{
    if i >= s.len() {
        return None;
    }
    if s[i] != '"' {
        return None;
    }
    match parse_string_chars(s, i + 1) {
        Some((key_chars, j)) => {
            if j >= s.len() {
                return None;
            }
            if s[j] != ':' {
                return None;
            }
            let key = crate::text::chars_to_string(&key_chars);
            match parse_value_at(s, j + 1) {
                Some((v, k)) => {
                    if k >= s.len() {
                        None
                    } else if s[k] == '}' {
                        let mut members: Vec<(String, Json)> = Vec::new();
                        members.push((key, v));
                        proof {
                            lemma_jview_obj(members, 1);
                            assert(jview_obj(members, 1) =~= seq![
                                (
                                    parse_string_body(s@, i + 1)->Some_0.0,
                                    parse_at(s@, j + 1)->Some_0.0,
                                ),
                            ]);
                        }
                        Some((members, k + 1))
                    } else if s[k] == ',' {
                        match parse_members_at(s, k + 1) {
                            Some((rest, m)) => {
                                let ghost rest_vec = rest;
                                let mut members = rest;
                                members.insert(0, (key, v));
                                proof {
                                    lemma_jview_obj(members, members@.len() as int);
                                    lemma_jview_obj(rest_vec, rest_vec@.len() as int);
                                    let restv = parse_obj_items(s@, k + 1)->Some_0.0;
                                    assert(jview_obj(members, members@.len() as int) =~= seq![
                                        (
                                            parse_string_body(s@, i + 1)->Some_0.0,
                                            parse_at(s@, j + 1)->Some_0.0,
                                        ),
                                    ] + restv);
                                }
                                Some((members, m))
                            },
                            None => None,
                        }
                    } else {
                        None
                    }
                },
                None => None,
            }
        },
        None => None,
    }
}

/// Reads the value a whole text holds, whitespace outside strings ignored,
/// as `spec_parse_json` does.
pub fn parse_json(text: &str) -> (r: Option<Json>)
    ensures
        match r {
            Some(j) => spec_parse_json(text@) == Some(jview(j)),
            None => spec_parse_json(text@) is None,
        },
{
    let cs = crate::text::str_to_chars(text);
    let t = strip_ws(&cs);
    match parse_value_at(&t, 0) {
        Some((v, end)) => {
            if end == t.len() {
                Some(v)
            } else {
                None
            }
        },
        None => None,
    }
}

/// The text of `j` as a `String`.
pub fn json_to_string(j: &Json) -> (r: String)
    ensures
        r@ == ser_json(*j),
{
    let mut out: Vec<char> = Vec::new();
    write_json(&mut out, j);
    crate::text::chars_to_string(&out)
}

} // verus!
