//! JSON documents as the wire format of the remote API: a mathematical
//! model, an exec representation, a serializer with an exact text
//! specification, and a parser whose accepted grammar is itself a
//! specification function.
use vstd::prelude::*;
use crate::text::is_digit;
use crate::text::is_digit_x;
use crate::text::chars_to_string;
use crate::text::eq_str;

verus! {

broadcast use vstd::seq::group_seq_axioms;

/// Mathematical model of a JSON document. Numbers keep their raw numeral
/// text: the remote API's decimal amounts pass through unaltered.
#[verifier::ext_equal]
pub enum JsonV {
    Null,
    Bool(bool),
    Num(Seq<char>),
    Str(Seq<char>),
    Arr(Seq<JsonV>),
    Obj(Seq<(Seq<char>, JsonV)>),
}

/// Executable JSON document; its view is a `JsonV`.
#[derive(Debug, PartialEq)]
pub enum Json {
    Null,
    Bool(bool),
    Num(String),
    Str(String),
    Arr(Vec<Json>),
    Obj(Vec<(String, Json)>),
}

pub open spec fn json_view(j: Json) -> JsonV
    decreases j, 0int,
{
    match j {
        Json::Null => JsonV::Null,
        Json::Bool(b) => JsonV::Bool(b),
        Json::Num(s) => JsonV::Num(s@),
        Json::Str(s) => JsonV::Str(s@),
        Json::Arr(es) => JsonV::Arr(arr_view(es@)),
        Json::Obj(fs) => JsonV::Obj(obj_view(fs@)),
    }
}

pub open spec fn arr_view(es: Seq<Json>) -> Seq<JsonV>
    decreases es, 1int,
{
    if es.len() == 0 {
        Seq::empty()
    } else {
        seq![json_view(es[0])] + arr_view(es.drop_first())
    }
}

pub open spec fn obj_view(fs: Seq<(String, Json)>) -> Seq<(Seq<char>, JsonV)>
    decreases fs, 1int,
{
    if fs.len() == 0 {
        Seq::empty()
    } else {
        seq![(fs[0].0@, json_view(fs[0].1))] + obj_view(fs.drop_first())
    }
}

impl View for Json {
    type V = JsonV;

    open spec fn view(&self) -> JsonV {
        json_view(*self)
    }
}

pub proof fn lemma_arr_view(es: Seq<Json>)
    ensures
        arr_view(es).len() == es.len(),
        forall|i: int| 0 <= i < es.len() ==> arr_view(es)[i] == json_view(#[trigger] es[i]),
    decreases es,
{
    if es.len() > 0 {
        lemma_arr_view(es.drop_first());
        assert forall|i: int| 0 <= i < es.len() implies arr_view(es)[i] == json_view(
            #[trigger] es[i],
        ) by {
            if i > 0 {
                assert(arr_view(es)[i] == arr_view(es.drop_first())[i - 1]);
                assert(es.drop_first()[i - 1] == es[i]);
            }
        }
    }
}

pub proof fn lemma_obj_view(fs: Seq<(String, Json)>)
    ensures
        obj_view(fs).len() == fs.len(),
        forall|i: int| 0 <= i < fs.len() ==> obj_view(fs)[i]
            == ((#[trigger] fs[i]).0@, json_view(fs[i].1)),
    decreases fs,
{
    if fs.len() > 0 {
        lemma_obj_view(fs.drop_first());
        assert forall|i: int| 0 <= i < fs.len() implies obj_view(fs)[i] == ((#[trigger] fs[i]).0@,
        json_view(fs[i].1)) by {
            if i > 0 {
                assert(obj_view(fs)[i] == obj_view(fs.drop_first())[i - 1]);
                assert(fs.drop_first()[i - 1] == fs[i]);
            }
        }
    }
}

/// How one character is written inside a JSON string literal.
pub open spec fn esc_char(c: char) -> Seq<char> {
    if c == '"' {
        seq!['\\', '"']
    } else if c == '\\' {
        seq!['\\', '\\']
    } else if c == '\n' {
        seq!['\\', 'n']
    } else if c == '\t' {
        seq!['\\', 't']
    } else if c == '\r' {
        seq!['\\', 'r']
    } else if c == '\u{8}' {
        seq!['\\', 'b']
    } else if c == '\u{c}' {
        seq!['\\', 'f']
    } else {
        seq![c]
    }
}

pub open spec fn esc_str(s: Seq<char>) -> Seq<char>
    decreases s.len(),
{
    if s.len() == 0 {
        Seq::empty()
    } else {
        esc_char(s[0]) + esc_str(s.drop_first())
    }
}

/// The exact text this library writes for a JSON document: no added
/// whitespace, object fields in their held order.
pub open spec fn json_text(v: JsonV) -> Seq<char>
    decreases v, 0int,
{
    match v {
        JsonV::Null => seq!['n', 'u', 'l', 'l'],
        JsonV::Bool(b) => if b {
            seq!['t', 'r', 'u', 'e']
        } else {
            seq!['f', 'a', 'l', 's', 'e']
        },
        JsonV::Num(s) => s,
        JsonV::Str(s) => seq!['"'] + esc_str(s) + seq!['"'],
        JsonV::Arr(es) => seq!['['] + items_text(es, 0) + seq![']'],
        JsonV::Obj(fs) => seq!['{'] + fields_text(fs, 0) + seq!['}'],
    }
}

pub open spec fn items_text(es: Seq<JsonV>, i: int) -> Seq<char>
    decreases es, es.len() - i,
    when 0 <= i
{
    if i >= es.len() {
        Seq::empty()
    } else {
        (if i == 0 {
            Seq::<char>::empty()
        } else {
            seq![',']
        }) + json_text(es[i]) + items_text(es, i + 1)
    }
}

pub open spec fn fields_text(fs: Seq<(Seq<char>, JsonV)>, i: int) -> Seq<char>
    decreases fs, fs.len() - i,
    when 0 <= i
{
    if i >= fs.len() {
        Seq::empty()
    } else {
        (if i == 0 {
            Seq::<char>::empty()
        } else {
            seq![',']
        }) + seq!['"'] + esc_str(fs[i].0) + seq!['"', ':'] + json_text(fs[i].1) + fields_text(
            fs,
            i + 1,
        )
    }
}

proof fn lemma_esc_snoc(s: Seq<char>, i: int)
    requires
        0 <= i < s.len(),
    ensures
        esc_str(s.take(i + 1)) == esc_str(s.take(i)) + esc_char(s[i]),
    decreases i,
{
    if i == 0 {
        assert(s.take(1).drop_first() =~= Seq::<char>::empty());
        assert(s.take(0) =~= Seq::<char>::empty());
        assert(esc_str(s.take(1)) =~= esc_str(s.take(0)) + esc_char(s[0]));
    } else {
        lemma_esc_snoc(s.drop_first(), i - 1);
        assert(s.take(i + 1).drop_first() =~= s.drop_first().take(i));
        assert(s.take(i).drop_first() =~= s.drop_first().take(i - 1));
        assert(s.take(i + 1)[0] == s[0]);
        assert(s.take(i)[0] == s[0]);
        assert(s.drop_first()[i - 1] == s[i]);
        assert(esc_char(s[0]) + (esc_str(s.drop_first().take(i - 1)) + esc_char(s[i])) =~= (esc_char(
            s[0],
        ) + esc_str(s.drop_first().take(i - 1))) + esc_char(s[i]));
    }
}

/// Appends the escaped body of a string literal to `out`.
fn write_escaped(s: &str, out: &mut Vec<char>)
    ensures
        final(out)@ == old(out)@ + esc_str(s@),
{
    let n = s.unicode_len();
    let mut i: usize = 0;
    while i < n
        invariant
            i <= n,
            n == s@.len(),
            out@ == old(out)@ + esc_str(s@.take(i as int)),
        decreases n - i,
    {
        let c = s.get_char(i);
        if c == '"' {
            out.push('\\');
            out.push('"');
        } else if c == '\\' {
            out.push('\\');
            out.push('\\');
        } else if c == '\n' {
            out.push('\\');
            out.push('n');
        } else if c == '\t' {
            out.push('\\');
            out.push('t');
        } else if c == '\r' {
            out.push('\\');
            out.push('r');
        } else if c == '\u{8}' {
            out.push('\\');
            out.push('b');
        } else if c == '\u{c}' {
            out.push('\\');
            out.push('f');
        } else {
            out.push(c);
        }
        proof {
            lemma_esc_snoc(s@, i as int);
            assert(out@ =~= old(out)@ + esc_str(s@.take(i + 1 as int)));
        }
        i = i + 1;
    }
    proof {
        assert(s@.take(n as int) =~= s@);
    }
}

/// Appends the characters of `s` unchanged.
fn write_plain(s: &str, out: &mut Vec<char>)
    ensures
        final(out)@ == old(out)@ + s@,
{
    let n = s.unicode_len();
    let mut i: usize = 0;
    while i < n
        invariant
            i <= n,
            n == s@.len(),
            out@ == old(out)@ + s@.take(i as int),
        decreases n - i,
    {
        out.push(s.get_char(i));
        proof {
            assert(out@ =~= old(out)@ + s@.take(i + 1 as int));
        }
        i = i + 1;
    }
    proof {
        assert(s@.take(n as int) =~= s@);
    }
}

/// Appends the text of `v`, exactly as `json_text` states it.
pub fn write_json(v: &Json, out: &mut Vec<char>)
    ensures
        final(out)@ == old(out)@ + json_text(v@),
    decreases *v, 0int,
{
    match v {
        Json::Null => {
            out.push('n');
            out.push('u');
            out.push('l');
            out.push('l');
            proof {
                assert(out@ =~= old(out)@ + json_text(v@));
            }
        },
        Json::Bool(b) => {
            if *b {
                out.push('t');
                out.push('r');
                out.push('u');
                out.push('e');
            } else {
                out.push('f');
                out.push('a');
                out.push('l');
                out.push('s');
                out.push('e');
            }
            proof {
                assert(out@ =~= old(out)@ + json_text(v@));
            }
        },
        Json::Num(s) => {
            write_plain(s.as_str(), out);
        },
        Json::Str(s) => {
            out.push('"');
            write_escaped(s.as_str(), out);
            out.push('"');
            proof {
                assert(out@ =~= old(out)@ + json_text(v@));
            }
        },
        Json::Arr(es) => {
            out.push('[');
            write_items(es, 0, out);
            out.push(']');
            proof {
                assert(out@ =~= old(out)@ + json_text(v@));
            }
        },
        Json::Obj(fs) => {
            out.push('{');
            write_fields(fs, 0, out);
            out.push('}');
            proof {
                assert(out@ =~= old(out)@ + json_text(v@));
            }
        },
    }
}

fn write_items(es: &Vec<Json>, i: usize, out: &mut Vec<char>)
    requires
        i <= es@.len(),
    ensures
        final(out)@ == old(out)@ + items_text(arr_view(es@), i as int),
    decreases es@, es@.len() - i,
{
    proof {
        lemma_arr_view(es@);
    }
    if i < es.len() {
        if i > 0 {
            out.push(',');
        }
        write_json(&es[i], out);
        write_items(es, i + 1, out);
        proof {
            assert(out@ =~= old(out)@ + items_text(arr_view(es@), i as int));
        }
    } else {
        proof {
            assert(out@ =~= old(out)@ + items_text(arr_view(es@), i as int));
        }
    }
}

fn write_fields(fs: &Vec<(String, Json)>, i: usize, out: &mut Vec<char>)
    requires
        i <= fs@.len(),
    ensures
        final(out)@ == old(out)@ + fields_text(obj_view(fs@), i as int),
    decreases fs@, fs@.len() - i,
{
    proof {
        lemma_obj_view(fs@);
    }
    if i < fs.len() {
        if i > 0 {
            out.push(',');
        }
        out.push('"');
        write_escaped(fs[i].0.as_str(), out);
        out.push('"');
        out.push(':');
        write_json(&fs[i].1, out);
        write_fields(fs, i + 1, out);
        proof {
            assert(out@ =~= old(out)@ + fields_text(obj_view(fs@), i as int));
        }
    } else {
        proof {
            assert(out@ =~= old(out)@ + fields_text(obj_view(fs@), i as int));
        }
    }
}

/// The text of `v` as a fresh string.
pub fn json_to_string(v: &Json) -> (r: String)
    ensures
        r@ == json_text(v@),
{
    let mut out: Vec<char> = Vec::new();
    write_json(v, &mut out);
    chars_to_string(&out)
}

} // verus!

verus! {

/// JSON whitespace.
pub open spec fn is_ws(c: char) -> bool {
    c == ' ' || c == '\n' || c == '\r' || c == '\t'
}

/// What an escape letter stands for; `None` refuses the escape.
pub open spec fn unesc(c: char) -> Option<char> {
    if c == '"' {
        Some('"')
    } else if c == '\\' {
        Some('\\')
    } else if c == '/' {
        Some('/')
    } else if c == 'n' {
        Some('\n')
    } else if c == 't' {
        Some('\t')
    } else if c == 'r' {
        Some('\r')
    } else if c == 'b' {
        Some('\u{8}')
    } else if c == 'f' {
        Some('\u{c}')
    } else {
        None
    }
}

pub open spec fn spec_skip_ws(s: Seq<char>, i: nat) -> nat
    decreases s.len() - i,
    when i <= s.len()
{
    if i < s.len() && is_ws(s[i as int]) {
        spec_skip_ws(s, i + 1)
    } else {
        i
    }
}

/// A hexadecimal digit of either case.
pub open spec fn is_hex(c: char) -> bool {
    is_digit(c) || c == 'a' || c == 'b' || c == 'c' || c == 'd' || c == 'e' || c == 'f' || c == 'A'
        || c == 'B' || c == 'C' || c == 'D' || c == 'E' || c == 'F'
}

pub open spec fn hex_val(c: char) -> nat {
    if is_digit(c) {
        crate::text::char_digit(c)
    } else if c == 'a' || c == 'A' {
        10
    } else if c == 'b' || c == 'B' {
        11
    } else if c == 'c' || c == 'C' {
        12
    } else if c == 'd' || c == 'D' {
        13
    } else if c == 'e' || c == 'E' {
        14
    } else {
        15
    }
}

/// Four hexadecimal digits standing at `i`.
pub open spec fn hex4_ok(s: Seq<char>, i: nat) -> bool {
    &&& is_hex(s[i as int])
    &&& is_hex(s[i + 1 as int])
    &&& is_hex(s[i + 2 as int])
    &&& is_hex(s[i + 3 as int])
}

/// Their value, most significant digit first.
pub open spec fn hex4_val(s: Seq<char>, i: nat) -> nat {
    hex_val(s[i as int]) * 4096 + hex_val(s[i + 1 as int]) * 256 + hex_val(s[i + 2 as int]) * 16
        + hex_val(s[i + 3 as int])
}

/// Body of a string literal starting just after its opening quote: the
/// decoded characters and the position after the closing quote. A
/// `\uXXXX` escape decodes its scalar value, a high and low surrogate
/// pair decodes as one character, and a lone or malformed surrogate
/// refuses the string.
pub open spec fn spec_string(s: Seq<char>, i: nat) -> Option<(Seq<char>, nat)>
    decreases s.len() - i,
    when i <= s.len()
{
    if i >= s.len() {
        None
    } else if s[i as int] == '"' {
        Some((Seq::empty(), (i + 1) as nat))
    } else if s[i as int] == '\\' {
        if i + 1 < s.len() && s[i + 1 as int] == 'u' {
            if i + 6 <= s.len() && hex4_ok(s, i + 2) {
                let u = hex4_val(s, i + 2);
                if 0xD800 <= u < 0xDC00 {
                    if i + 12 <= s.len() && s[i + 6 as int] == '\\' && s[i + 7 as int] == 'u'
                        && hex4_ok(s, i + 8) {
                        let u2 = hex4_val(s, i + 8);
                        if 0xDC00 <= u2 < 0xE000 {
                            let code = ((0x10000 + (u - 0xD800) * 0x400 + (u2 - 0xDC00)) as u32);
                            match spec_string(s, i + 12) {
                                Some((rest, j)) => Some((seq![code as char] + rest, j)),
                                None => None,
                            }
                        } else {
                            None
                        }
                    } else {
                        None
                    }
                } else if 0xDC00 <= u < 0xE000 {
                    None
                } else {
                    match spec_string(s, i + 6) {
                        Some((rest, j)) => Some((seq![(u as u32) as char] + rest, j)),
                        None => None,
                    }
                }
            } else {
                None
            }
        } else if i + 1 < s.len() {
            match unesc(s[i + 1 as int]) {
                Some(c) => match spec_string(s, i + 2) {
                    Some((rest, j)) => Some((seq![c] + rest, j)),
                    None => None,
                },
                None => None,
            }
        } else {
            None
        }
    } else {
        match spec_string(s, i + 1) {
            Some((rest, j)) => Some((seq![s[i as int]] + rest, j)),
            None => None,
        }
    }
}

pub open spec fn spec_digits_end(s: Seq<char>, i: nat) -> nat
    decreases s.len() - i,
    when i <= s.len()
{
    if i < s.len() && is_digit(s[i as int]) {
        spec_digits_end(s, i + 1)
    } else {
        i
    }
}

/// The end of the fraction part beginning at `j`: nothing, or a dot with
/// at least one digit.
pub open spec fn json_num_frac_end(s: Seq<char>, j: nat) -> Option<nat> {
    if j < s.len() && s[j as int] == '.' {
        if j + 1 < s.len() && is_digit(s[j + 1 as int]) {
            Some(spec_digits_end(s, j + 1))
        } else {
            None
        }
    } else {
        Some(j)
    }
}

/// The end of the exponent part beginning at `j`: nothing, or an `e` or
/// `E`, an optional sign, and at least one digit.
pub open spec fn json_num_exp_end(s: Seq<char>, j: nat) -> Option<nat> {
    if j < s.len() && (s[j as int] == 'e' || s[j as int] == 'E') {
        let j2: nat = if j + 1 < s.len() && (s[j + 1 as int] == '+' || s[j + 1 as int] == '-') {
            j + 2
        } else {
            j + 1
        };
        if j2 < s.len() && is_digit(s[j2 as int]) {
            Some(spec_digits_end(s, j2))
        } else {
            None
        }
    } else {
        Some(j)
    }
}

/// The end of a number token beginning at `i`, by the JSON grammar: an
/// optional minus, an integer part without leading zeros, an optional
/// fraction and an optional exponent.
pub open spec fn json_num_end(s: Seq<char>, i: nat) -> Option<nat> {
    if i >= s.len() {
        None
    } else {
        let j0: nat = if s[i as int] == '-' {
            i + 1
        } else {
            i
        };
        if j0 >= s.len() || !is_digit(s[j0 as int]) {
            None
        } else {
            let j1: nat = if s[j0 as int] == '0' {
                j0 + 1
            } else {
                spec_digits_end(s, j0)
            };
            if j1 > s.len() {
                None
            } else {
                match json_num_frac_end(s, j1) {
                    None => None,
                    Some(j2) => {
                        if j2 > s.len() {
                            None
                        } else {
                            json_num_exp_end(s, j2)
                        }
                    },
                }
            }
        }
    }
}

/// A number token: the raw span of a numeral of the JSON grammar; any
/// other run of number characters is refused.
pub open spec fn spec_number(s: Seq<char>, i: nat) -> Option<(JsonV, nat)> {
    match json_num_end(s, i) {
        None => None,
        Some(e) => {
            if i < e <= s.len() {
                Some((JsonV::Num(s.subrange(i as int, e as int)), e))
            } else {
                None
            }
        },
    }
}

/// One JSON value beginning at `i` (leading whitespace allowed) and the
/// position just after it. The fuel bounds the recursion and is part of
/// the accepted grammar; `json_parse` allots four units for each input
/// character, ample for documents whose every nesting step and element
/// consumes at least one character.
pub open spec fn spec_value(s: Seq<char>, i: nat, fuel: nat) -> Option<(JsonV, nat)>
    decreases fuel,
    when i <= s.len()
{
    if fuel == 0 {
        None
    } else {
        let j = spec_skip_ws(s, i);
        if j >= s.len() {
            None
        } else {
            let c = s[j as int];
            if c == 'n' {
                if j + 4 <= s.len() && s[j + 1 as int] == 'u' && s[j + 2 as int] == 'l' && s[j
                    + 3 as int] == 'l' {
                    Some((JsonV::Null, (j + 4) as nat))
                } else {
                    None
                }
            } else if c == 't' {
                if j + 4 <= s.len() && s[j + 1 as int] == 'r' && s[j + 2 as int] == 'u' && s[j
                    + 3 as int] == 'e' {
                    Some((JsonV::Bool(true), (j + 4) as nat))
                } else {
                    None
                }
            } else if c == 'f' {
                if j + 5 <= s.len() && s[j + 1 as int] == 'a' && s[j + 2 as int] == 'l' && s[j
                    + 3 as int] == 's' && s[j + 4 as int] == 'e' {
                    Some((JsonV::Bool(false), (j + 5) as nat))
                } else {
                    None
                }
            } else if c == '"' {
                match spec_string(s, j + 1) {
                    Some((cs, k)) => Some((JsonV::Str(cs), k)),
                    None => None,
                }
            } else if c == '[' {
                let k = spec_skip_ws(s, j + 1);
                if k < s.len() && s[k as int] == ']' {
                    Some((JsonV::Arr(Seq::empty()), (k + 1) as nat))
                } else {
                    match spec_items(s, j + 1, (fuel - 1) as nat) {
                        Some((es, m)) => Some((JsonV::Arr(es), m)),
                        None => None,
                    }
                }
            } else if c == '{' {
                let k = spec_skip_ws(s, j + 1);
                if k < s.len() && s[k as int] == '}' {
                    Some((JsonV::Obj(Seq::empty()), (k + 1) as nat))
                } else {
                    match spec_members(s, j + 1, (fuel - 1) as nat) {
                        Some((fs, m)) => Some((JsonV::Obj(fs), m)),
                        None => None,
                    }
                }
            } else if c == '-' || is_digit(c) {
                spec_number(s, j)
            } else {
                None
            }
        }
    }
}

/// The elements of a non-empty array, up to and including its `]`.
pub open spec fn spec_items(s: Seq<char>, i: nat, fuel: nat) -> Option<(Seq<JsonV>, nat)>
    decreases fuel,
    when i <= s.len()
{
    if fuel == 0 {
        None
    } else {
        match spec_value(s, i, (fuel - 1) as nat) {
            None => None,
            Some((v, j)) => {
                if j > s.len() {
                    None
                } else {
                    let k = spec_skip_ws(s, j);
                    if k < s.len() && s[k as int] == ',' {
                        match spec_items(s, k + 1, (fuel - 1) as nat) {
                            Some((rest, m)) => Some((seq![v] + rest, m)),
                            None => None,
                        }
                    } else if k < s.len() && s[k as int] == ']' {
                        Some((seq![v], (k + 1) as nat))
                    } else {
                        None
                    }
                }
            },
        }
    }
}

/// The members of a non-empty object, up to and including its `}`.
pub open spec fn spec_members(s: Seq<char>, i: nat, fuel: nat) -> Option<
    (Seq<(Seq<char>, JsonV)>, nat),
>
    decreases fuel,
    when i <= s.len()
{
    if fuel == 0 {
        None
    } else {
        let k0 = spec_skip_ws(s, i);
        if k0 < s.len() && s[k0 as int] == '"' {
            match spec_string(s, k0 + 1) {
                None => None,
                Some((key, j)) => {
                    if j > s.len() {
                        None
                    } else {
                        let k = spec_skip_ws(s, j);
                        if k < s.len() && s[k as int] == ':' {
                            match spec_value(s, k + 1, (fuel - 1) as nat) {
                                None => None,
                                Some((v, m)) => {
                                    if m > s.len() {
                                        None
                                    } else {
                                        let k2 = spec_skip_ws(s, m);
                                        if k2 < s.len() && s[k2 as int] == ',' {
                                            match spec_members(s, k2 + 1, (fuel - 1) as nat) {
                                                Some((rest, e)) => Some((seq![(key, v)] + rest, e)),
                                                None => None,
                                            }
                                        } else if k2 < s.len() && s[k2 as int] == '}' {
                                            Some((seq![(key, v)], (k2 + 1) as nat))
                                        } else {
                                            None
                                        }
                                    }
                                },
                            }
                        } else {
                            None
                        }
                    }
                },
            }
        } else {
            None
        }
    }
}

pub open spec fn parse_fuel(n: nat) -> nat {
    4 * n + 4
}

/// The document this library reads from `s`: one JSON value surrounded by
/// nothing but whitespace. This spec function is the library's accepted
/// grammar.
pub open spec fn json_parse(s: Seq<char>) -> Option<JsonV> {
    match spec_value(s, 0, parse_fuel(s.len())) {
        None => None,
        Some((v, j)) => {
            if j <= s.len() && spec_skip_ws(s, j) == s.len() {
                Some(v)
            } else {
                None
            }
        },
    }
}

} // verus!

verus! {

fn is_ws_x(c: char) -> (r: bool)
    ensures
        r == is_ws(c),
{
    c == ' ' || c == '\n' || c == '\r' || c == '\t'
}

fn unesc_x(c: char) -> (r: Option<char>)
    ensures
        r == unesc(c),
{
    if c == '"' {
        Some('"')
    } else if c == '\\' {
        Some('\\')
    } else if c == '/' {
        Some('/')
    } else if c == 'n' {
        Some('\n')
    } else if c == 't' {
        Some('\t')
    } else if c == 'r' {
        Some('\r')
    } else if c == 'b' {
        Some('\u{8}')
    } else if c == 'f' {
        Some('\u{c}')
    } else {
        None
    }
}

fn is_hex_x(c: char) -> (r: bool)
    ensures
        r == is_hex(c),
{
    is_digit_x(c) || c == 'a' || c == 'b' || c == 'c' || c == 'd' || c == 'e' || c == 'f' || c
        == 'A' || c == 'B' || c == 'C' || c == 'D' || c == 'E' || c == 'F'
}

fn hex_val_x(c: char) -> (r: u32)
    requires
        is_hex(c),
    ensures
        r == hex_val(c),
        r <= 15,
{
    if is_digit_x(c) {
        crate::text::char_digit_x(c) as u32
    } else if c == 'a' || c == 'A' {
        10
    } else if c == 'b' || c == 'B' {
        11
    } else if c == 'c' || c == 'C' {
        12
    } else if c == 'd' || c == 'D' {
        13
    } else if c == 'e' || c == 'E' {
        14
    } else {
        15
    }
}

fn p_hex4(s: &Vec<char>, i: usize) -> (r: Option<u32>)
    requires
        i + 4 <= s@.len(),
    ensures
        r matches Some(u) ==> hex4_ok(s@, i as nat) && u == hex4_val(s@, i as nat) && u <= 0xFFFF,
        r is None ==> !hex4_ok(s@, i as nat),
{
    let n = s.len();
    proof {
        assert(i + 4 <= n);
    }
    if is_hex_x(s[i]) && is_hex_x(s[i + 1]) && is_hex_x(s[i + 2]) && is_hex_x(s[i + 3]) {
        let u = hex_val_x(s[i]) * 4096 + hex_val_x(s[i + 1]) * 256 + hex_val_x(s[i + 2]) * 16
            + hex_val_x(s[i + 3]);
        Some(u)
    } else {
        None
    }
}

/// Relies on std's `char::from_u32`: the character of a Unicode scalar
/// value, exactly when the value is one (not a surrogate and at most the
/// highest code point).
#[verifier::external_body]
fn char_from_u32(u: u32) -> (r: Option<char>)
    ensures
        r matches Some(c) ==> c as u32 == u,
        (r is Some) <==> (u < 0xD800 || (0xE000 <= u && u <= 0x10FFFF)),
{
    char::from_u32(u)
}

fn p_skip_ws(s: &Vec<char>, i: usize) -> (r: usize)
    requires
        i <= s@.len(),
    ensures
        r == spec_skip_ws(s@, i as nat),
        i <= r <= s@.len(),
{
    let mut k = i;
    while k < s.len() && is_ws_x(s[k])
        invariant
            i <= k <= s@.len(),
            spec_skip_ws(s@, i as nat) == spec_skip_ws(s@, k as nat),
        decreases s@.len() - k,
    {
        k = k + 1;
    }
    k
}

fn p_string(s: &Vec<char>, i: usize) -> (r: Option<(Vec<char>, usize)>)
    requires
        i <= s@.len(),
    ensures
        r matches Some((cs, j)) ==> spec_string(s@, i as nat) == Some((cs@, j as nat)) && i < j
            <= s@.len(),
        r is None ==> spec_string(s@, i as nat) is None,
    decreases s@.len() - i,
{
    if i >= s.len() {
        return None;
    }
    let c = s[i];
    if c == '"' {
        let cs: Vec<char> = Vec::new();
        proof {
            assert(cs@ =~= Seq::<char>::empty());
        }
        return Some((cs, i + 1));
    }
    if c == '\\' {
        if i + 1 < s.len() && s[i + 1] == 'u' {
            if s.len() - i >= 6 {
                match p_hex4(s, i + 2) {
                    None => None,
                    Some(u) => {
                        if 0xD800 <= u && u < 0xDC00 {
                            if s.len() - i >= 12 && s[i + 6] == '\\' && s[i + 7] == 'u' {
                                match p_hex4(s, i + 8) {
                                    None => None,
                                    Some(u2) => {
                                        if 0xDC00 <= u2 && u2 < 0xE000 {
                                            let code: u32 = 0x10000 + (u - 0xD800) * 0x400 + (u2
                                                - 0xDC00);
                                            match char_from_u32(code) {
                                                Some(ch) => match p_string(s, i + 12) {
                                                    Some((mut rest, j)) => {
                                                        let ghost r0 = rest@;
                                                        rest.insert(0, ch);
                                                        proof {
                                                            vstd::utf8::char_u32_cast(ch, code);
                                                            assert(rest@ =~= seq![ch] + r0);
                                                        }
                                                        Some((rest, j))
                                                    },
                                                    None => None,
                                                },
                                                None => {
                                                    proof {
                                                        assert(false);
                                                    }
                                                    None
                                                },
                                            }
                                        } else {
                                            None
                                        }
                                    },
                                }
                            } else {
                                None
                            }
                        } else if 0xDC00 <= u && u < 0xE000 {
                            None
                        } else {
                            match char_from_u32(u) {
                                Some(ch) => match p_string(s, i + 6) {
                                    Some((mut rest, j)) => {
                                        let ghost r0 = rest@;
                                        rest.insert(0, ch);
                                        proof {
                                            vstd::utf8::char_u32_cast(ch, u);
                                            assert(rest@ =~= seq![ch] + r0);
                                        }
                                        Some((rest, j))
                                    },
                                    None => None,
                                },
                                None => {
                                    proof {
                                        assert(false);
                                    }
                                    None
                                },
                            }
                        }
                    },
                }
            } else {
                None
            }
        } else if i + 1 < s.len() {
            match unesc_x(s[i + 1]) {
                Some(u) => match p_string(s, i + 2) {
                    Some((mut rest, j)) => {
                        let ghost r0 = rest@;
                        rest.insert(0, u);
                        proof {
                            assert(rest@ =~= seq![u] + r0);
                        }
                        Some((rest, j))
                    },
                    None => None,
                },
                None => None,
            }
        } else {
            None
        }
    } else {
        match p_string(s, i + 1) {
            Some((mut rest, j)) => {
                let ghost r0 = rest@;
                rest.insert(0, c);
                proof {
                    assert(rest@ =~= seq![c] + r0);
                }
                Some((rest, j))
            },
            None => None,
        }
    }
}

} // verus!

verus! {

fn p_digits_end(s: &Vec<char>, i: usize) -> (r: usize)
    requires
        i <= s@.len(),
    ensures
        r == spec_digits_end(s@, i as nat),
        i <= r <= s@.len(),
        i < s@.len() && is_digit(s@[i as int]) ==> r > i,
{
    let mut k = i;
    while k < s.len() && is_digit_x(s[k])
        invariant
            i <= k <= s@.len(),
            spec_digits_end(s@, i as nat) == spec_digits_end(s@, k as nat),
        decreases s@.len() - k,
    {
        k = k + 1;
    }
    k
}

pub fn p_num_token_end(s: &Vec<char>, i: usize) -> (r: Option<usize>)
    requires
        i <= s@.len(),
    ensures
        r matches Some(e) ==> json_num_end(s@, i as nat) == Some(e as nat) && i < e <= s@.len(),
        r is None ==> json_num_end(s@, i as nat) is None,
{
    if i >= s.len() {
        return None;
    }
    let j0 = if s[i] == '-' {
        i + 1
    } else {
        i
    };
    if j0 >= s.len() || !is_digit_x(s[j0]) {
        return None;
    }
    let j1 = if s[j0] == '0' {
        j0 + 1
    } else {
        p_digits_end(s, j0)
    };
    let j2 = if j1 < s.len() && s[j1] == '.' {
        if j1 + 1 < s.len() && is_digit_x(s[j1 + 1]) {
            p_digits_end(s, j1 + 1)
        } else {
            return None;
        }
    } else {
        j1
    };
    if j2 < s.len() && (s[j2] == 'e' || s[j2] == 'E') {
        let j3 = if j2 + 1 < s.len() && (s[j2 + 1] == '+' || s[j2 + 1] == '-') {
            j2 + 2
        } else {
            j2 + 1
        };
        if j3 < s.len() && is_digit_x(s[j3]) {
            Some(p_digits_end(s, j3))
        } else {
            None
        }
    } else {
        Some(j2)
    }
}

fn copy_range(s: &Vec<char>, i: usize, j: usize) -> (r: Vec<char>)
    requires
        i <= j <= s@.len(),
    ensures
        r@ == s@.subrange(i as int, j as int),
{
    let mut out: Vec<char> = Vec::new();
    let mut k = i;
    while k < j
        invariant
            i <= k <= j <= s@.len(),
            out@ == s@.subrange(i as int, k as int),
        decreases j - k,
    {
        out.push(s[k]);
        proof {
            assert(out@ =~= s@.subrange(i as int, k + 1 as int));
        }
        k = k + 1;
    }
    proof {
        assert(out@ =~= s@.subrange(i as int, j as int));
    }
    out
}

fn p_number(s: &Vec<char>, i: usize) -> (r: Option<(Json, usize)>)
    requires
        i < s@.len(),
    ensures
        r matches Some((v, j)) ==> spec_number(s@, i as nat) == Some((v@, j as nat)) && i < j
            <= s@.len(),
        r is None ==> spec_number(s@, i as nat) is None,
{
    match p_num_token_end(s, i) {
        None => None,
        Some(e) => {
            let raw = copy_range(s, i, e);
            let txt = chars_to_string(&raw);
            Some((Json::Num(txt), e))
        },
    }
}

fn p_value(s: &Vec<char>, i: usize, fuel: u64) -> (r: Option<(Json, usize)>)
    requires
        i <= s@.len(),
    ensures
        r matches Some((v, j)) ==> spec_value(s@, i as nat, fuel as nat) == Some((v@, j as nat))
            && i <= j <= s@.len(),
        r is None ==> spec_value(s@, i as nat, fuel as nat) is None,
    decreases fuel,
{
    if fuel == 0 {
        return None;
    }
    let j = p_skip_ws(s, i);
    if j >= s.len() {
        return None;
    }
    let c = s[j];
    if c == 'n' {
        if s.len() - j >= 4 && s[j + 1] == 'u' && s[j + 2] == 'l' && s[j + 3] == 'l' {
            Some((Json::Null, j + 4))
        } else {
            None
        }
    } else if c == 't' {
        if s.len() - j >= 4 && s[j + 1] == 'r' && s[j + 2] == 'u' && s[j + 3] == 'e' {
            Some((Json::Bool(true), j + 4))
        } else {
            None
        }
    } else if c == 'f' {
        if s.len() - j >= 5 && s[j + 1] == 'a' && s[j + 2] == 'l' && s[j + 3] == 's' && s[j + 4]
            == 'e' {
            Some((Json::Bool(false), j + 5))
        } else {
            None
        }
    } else if c == '"' {
        match p_string(s, j + 1) {
            Some((cs, k)) => {
                let txt = chars_to_string(&cs);
                Some((Json::Str(txt), k))
            },
            None => None,
        }
    } else if c == '[' {
        let k = p_skip_ws(s, j + 1);
        if k < s.len() && s[k] == ']' {
            let es: Vec<Json> = Vec::new();
            proof {
                assert(arr_view(es@) =~= Seq::<JsonV>::empty());
            }
            Some((Json::Arr(es), k + 1))
        } else {
            match p_items(s, j + 1, fuel - 1) {
                Some((es, m)) => Some((Json::Arr(es), m)),
                None => None,
            }
        }
    } else if c == '{' {
        let k = p_skip_ws(s, j + 1);
        if k < s.len() && s[k] == '}' {
            let fs: Vec<(String, Json)> = Vec::new();
            proof {
                assert(obj_view(fs@) =~= Seq::<(Seq<char>, JsonV)>::empty());
            }
            Some((Json::Obj(fs), k + 1))
        } else {
            match p_members(s, j + 1, fuel - 1) {
                Some((fs, m)) => Some((Json::Obj(fs), m)),
                None => None,
            }
        }
    } else if c == '-' || is_digit_x(c) {
        p_number(s, j)
    } else {
        None
    }
}

fn p_items(s: &Vec<char>, i: usize, fuel: u64) -> (r: Option<(Vec<Json>, usize)>)
    requires
        i <= s@.len(),
    ensures
        r matches Some((es, j)) ==> spec_items(s@, i as nat, fuel as nat) == Some((arr_view(es@),
        j as nat)) && i <= j <= s@.len(),
        r is None ==> spec_items(s@, i as nat, fuel as nat) is None,
    decreases fuel,
{
    if fuel == 0 {
        return None;
    }
    match p_value(s, i, fuel - 1) {
        None => None,
        Some((v, j)) => {
            let k = p_skip_ws(s, j);
            if k < s.len() && s[k] == ',' {
                match p_items(s, k + 1, fuel - 1) {
                    Some((mut rest, m)) => {
                        let ghost r0 = rest@;
                        rest.insert(0, v);
                        proof {
                            assert(rest@ =~= seq![v] + r0);
                            assert(rest@.drop_first() =~= r0);
                            lemma_arr_view(rest@);
                            lemma_arr_view(r0);
                            assert(arr_view(rest@) =~= seq![json_view(v)] + arr_view(r0));
                        }
                        Some((rest, m))
                    },
                    None => None,
                }
            } else if k < s.len() && s[k] == ']' {
                let mut es: Vec<Json> = Vec::new();
                es.push(v);
                proof {
                    assert(es@ =~= seq![v]);
                    assert(es@.drop_first() =~= Seq::<Json>::empty());
                    assert(arr_view(Seq::<Json>::empty()) =~= Seq::<JsonV>::empty());
                    assert(arr_view(es@) =~= seq![json_view(v)]);
                }
                Some((es, k + 1))
            } else {
                None
            }
        },
    }
}

fn p_members(s: &Vec<char>, i: usize, fuel: u64) -> (r: Option<(Vec<(String, Json)>, usize)>)
    requires
        i <= s@.len(),
    ensures
        r matches Some((fs, j)) ==> spec_members(s@, i as nat, fuel as nat) == Some((obj_view(fs@),
        j as nat)) && i <= j <= s@.len(),
        r is None ==> spec_members(s@, i as nat, fuel as nat) is None,
    decreases fuel,
{
    if fuel == 0 {
        return None;
    }
    let k0 = p_skip_ws(s, i);
    if k0 < s.len() && s[k0] == '"' {
        match p_string(s, k0 + 1) {
            None => None,
            Some((key, j)) => {
                let k = p_skip_ws(s, j);
                if k < s.len() && s[k] == ':' {
                    match p_value(s, k + 1, fuel - 1) {
                        None => None,
                        Some((v, m)) => {
                            let key_txt = chars_to_string(&key);
                            let k2 = p_skip_ws(s, m);
                            if k2 < s.len() && s[k2] == ',' {
                                match p_members(s, k2 + 1, fuel - 1) {
                                    Some((mut rest, e)) => {
                                        let ghost r0 = rest@;
                                        rest.insert(0, (key_txt, v));
                                        proof {
                                            assert(rest@ =~= seq![(key_txt, v)] + r0);
                                            assert(rest@.drop_first() =~= r0);
                                            assert(obj_view(rest@) =~= seq![(key@, json_view(v))]
                                                + obj_view(r0));
                                        }
                                        Some((rest, e))
                                    },
                                    None => None,
                                }
                            } else if k2 < s.len() && s[k2] == '}' {
                                let mut fs: Vec<(String, Json)> = Vec::new();
                                fs.push((key_txt, v));
                                proof {
                                    assert(fs@ =~= seq![(key_txt, v)]);
                                    assert(fs@.drop_first() =~= Seq::<(String, Json)>::empty());
                                    assert(obj_view(Seq::<(String, Json)>::empty()) =~= Seq::<(
                                        Seq<char>,
                                        JsonV,
                                    )>::empty());
                                    assert(obj_view(fs@) =~= seq![(key@, json_view(v))]);
                                }
                                Some((fs, k2 + 1))
                            } else {
                                None
                            }
                        },
                    }
                } else {
                    None
                }
            },
        }
    } else {
        None
    }
}

/// Reads one JSON document, exactly as `json_parse` states it. The
/// precondition is a stated resource cap: a text of at most one billion
/// characters, which keeps the recursion budget within machine integers.
pub fn parse_json(s: &str) -> (r: Option<Json>)
    requires
        s@.len() <= 1_000_000_000,
    ensures
        r matches Some(v) ==> json_parse(s@) == Some(v@),
        r is None ==> json_parse(s@) is None,
{
    let cs = crate::text::chars_of(s);
    let n = cs.len();
    let fuel: u64 = 4 * (n as u64) + 4;
    match p_value(&cs, 0, fuel) {
        None => None,
        Some((v, j)) => {
            let k = p_skip_ws(&cs, j);
            if k == cs.len() {
                Some(v)
            } else {
                None
            }
        },
    }
}

} // verus!

verus! {

/// The value under `key`, first occurrence winning, in a field list.
pub open spec fn jlookup(fs: Seq<(Seq<char>, JsonV)>, key: Seq<char>) -> Option<JsonV>
    decreases fs.len(),
{
    if fs.len() == 0 {
        None
    } else if fs[0].0 == key {
        Some(fs[0].1)
    } else {
        jlookup(fs.drop_first(), key)
    }
}

/// The value under `key` when `v` is an object.
pub open spec fn jfield(v: JsonV, key: Seq<char>) -> Option<JsonV> {
    match v {
        JsonV::Obj(fs) => jlookup(fs, key),
        _ => None,
    }
}

pub open spec fn jstr(v: JsonV, key: Seq<char>) -> Option<Seq<char>> {
    match jfield(v, key) {
        Some(JsonV::Str(s)) => Some(s),
        _ => None,
    }
}

pub open spec fn jbool(v: JsonV, key: Seq<char>) -> Option<bool> {
    match jfield(v, key) {
        Some(JsonV::Bool(b)) => Some(b),
        _ => None,
    }
}

/// The raw numeral under `key`.
pub open spec fn jnum(v: JsonV, key: Seq<char>) -> Option<Seq<char>> {
    match jfield(v, key) {
        Some(JsonV::Num(s)) => Some(s),
        _ => None,
    }
}

pub open spec fn ju64(v: JsonV, key: Seq<char>) -> Option<u64> {
    match jnum(v, key) {
        Some(raw) => crate::text::dec_u64(raw),
        None => None,
    }
}

pub open spec fn jarr(v: JsonV, key: Seq<char>) -> Option<Seq<JsonV>> {
    match jfield(v, key) {
        Some(JsonV::Arr(es)) => Some(es),
        _ => None,
    }
}

pub open spec fn jobj(v: JsonV, key: Seq<char>) -> Option<Seq<(Seq<char>, JsonV)>> {
    match jfield(v, key) {
        Some(JsonV::Obj(fs)) => Some(fs),
        _ => None,
    }
}

/// An optional numeric field: absent or null reads as `None`.
pub open spec fn jopt_u64(v: JsonV, key: Seq<char>) -> Option<Option<u64>> {
    match jfield(v, key) {
        None => Some(None),
        Some(JsonV::Null) => Some(None),
        Some(JsonV::Num(raw)) => match crate::text::dec_u64(raw) {
            Some(n) => Some(Some(n)),
            None => None,
        },
        _ => None,
    }
}

/// An optional string field: absent or null reads as `None`.
pub open spec fn jopt_str(v: JsonV, key: Seq<char>) -> Option<Option<Seq<char>>> {
    match jfield(v, key) {
        None => Some(None),
        Some(JsonV::Null) => Some(None),
        Some(JsonV::Str(s)) => Some(Some(s)),
        _ => None,
    }
}

pub fn get_field<'a>(v: &'a Json, key: &str) -> (r: Option<&'a Json>)
    ensures
        r matches Some(f) ==> jfield(v@, key@) == Some(f@),
        r is None ==> jfield(v@, key@) is None,
{
    match v {
        Json::Obj(fs) => {
            proof {
                lemma_obj_view(fs@);
                assert(obj_view(fs@).subrange(0, fs@.len() as int) =~= obj_view(fs@));
            }
            let n = fs.len();
            let mut i: usize = 0;
            while i < n
                invariant
                    i <= n,
                    n == fs@.len(),
                    v@ == JsonV::Obj(obj_view(fs@)),
                    obj_view(fs@).len() == n,
                    forall|k: int| 0 <= k < n ==> obj_view(fs@)[k] == ((#[trigger] fs@[k]).0@,
                    json_view(fs@[k].1)),
                    jlookup(obj_view(fs@), key@) == jlookup(
                        obj_view(fs@).subrange(i as int, n as int),
                        key@,
                    ),
                decreases n - i,
            {
                proof {
                    assert(obj_view(fs@).subrange(i as int, n as int)[0] == obj_view(
                        fs@,
                    )[i as int]);
                    assert(obj_view(fs@).subrange(i as int, n as int).drop_first() =~= obj_view(
                        fs@,
                    ).subrange(i + 1 as int, n as int));
                }
                if eq_str(fs[i].0.as_str(), key) {
                    proof {
                        assert(obj_view(fs@).subrange(i as int, n as int)[0].0 == key@);
                        assert(jlookup(obj_view(fs@).subrange(i as int, n as int), key@) == Some(
                            json_view(fs@[i as int].1),
                        ));
                        assert(v@ == JsonV::Obj(obj_view(fs@)));
                        assert(jfield(v@, key@) == jlookup(obj_view(fs@), key@));
                    }
                    return Some(&fs[i].1);
                }
                i = i + 1;
            }
            proof {
                assert(obj_view(fs@).subrange(n as int, n as int) =~= Seq::<
                    (Seq<char>, JsonV),
                >::empty());
            }
            None
        },
        _ => None,
    }
}

pub fn get_str<'a>(v: &'a Json, key: &str) -> (r: Option<&'a String>)
    ensures
        r matches Some(s) ==> jstr(v@, key@) == Some(s@),
        r is None ==> jstr(v@, key@) is None,
{
    match get_field(v, key) {
        Some(Json::Str(s)) => Some(s),
        _ => None,
    }
}

pub fn get_bool(v: &Json, key: &str) -> (r: Option<bool>)
    ensures
        r == jbool(v@, key@),
{
    match get_field(v, key) {
        Some(Json::Bool(b)) => Some(*b),
        _ => None,
    }
}

pub fn get_num_raw<'a>(v: &'a Json, key: &str) -> (r: Option<&'a String>)
    ensures
        r matches Some(s) ==> jnum(v@, key@) == Some(s@),
        r is None ==> jnum(v@, key@) is None,
{
    match get_field(v, key) {
        Some(Json::Num(s)) => Some(s),
        _ => None,
    }
}

pub fn get_u64(v: &Json, key: &str) -> (r: Option<u64>)
    ensures
        r == ju64(v@, key@),
{
    match get_num_raw(v, key) {
        Some(raw) => crate::text::parse_u64_str(raw.as_str()),
        None => None,
    }
}

pub fn get_arr<'a>(v: &'a Json, key: &str) -> (r: Option<&'a Vec<Json>>)
    ensures
        r matches Some(es) ==> jarr(v@, key@) == Some(arr_view(es@)),
        r is None ==> jarr(v@, key@) is None,
{
    match get_field(v, key) {
        Some(Json::Arr(es)) => Some(es),
        _ => None,
    }
}

pub fn get_obj<'a>(v: &'a Json, key: &str) -> (r: Option<&'a Vec<(String, Json)>>)
    ensures
        r matches Some(fs) ==> jobj(v@, key@) == Some(obj_view(fs@)),
        r is None ==> jobj(v@, key@) is None,
{
    match get_field(v, key) {
        Some(Json::Obj(fs)) => Some(fs),
        _ => None,
    }
}

pub fn get_opt_u64(v: &Json, key: &str) -> (r: Option<Option<u64>>)
    ensures
        r == jopt_u64(v@, key@),
{
    match get_field(v, key) {
        None => Some(None),
        Some(Json::Null) => Some(None),
        Some(Json::Num(raw)) => match crate::text::parse_u64_str(raw.as_str()) {
            Some(n) => Some(Some(n)),
            None => None,
        },
        Some(_) => None,
    }
}

pub fn get_opt_str(v: &Json, key: &str) -> (r: Option<Option<String>>)
    ensures
        r matches Some(Some(s)) ==> jopt_str(v@, key@) == Some(Some(s@)),
        r matches Some(Option::<String>::None) ==> jopt_str(v@, key@) == Some(None::<Seq<char>>),
        r is None ==> jopt_str(v@, key@) is None,
{
    match get_field(v, key) {
        None => Some(None),
        Some(Json::Null) => Some(None),
        Some(Json::Str(s)) => Some(Some(s.clone())),
        Some(_) => None,
    }
}

} // verus!

verus! {

/// A type that can be read out of a JSON document.
pub trait FromJson: Sized {
    /// Whether `v` has this type's JSON shape.
    spec fn shape(v: JsonV) -> bool;

    /// Field-for-field agreement of a decoded value with `v`.
    spec fn agrees(&self, v: JsonV) -> bool;

    /// Decodes a value; succeeds exactly on documents of this type's shape.
    fn from_json(v: &Json) -> (r: Option<Self>)
        ensures
            r is Some <==> Self::shape(v@),
            r matches Some(t) ==> t.agrees(v@),
    ;
}

/// Every element of `es` has `T`'s shape.
pub open spec fn all_shaped<T: FromJson>(es: Seq<JsonV>) -> bool {
    forall|i: int| 0 <= i < es.len() ==> T::shape(#[trigger] es[i])
}

/// `ts` agrees element for element with `es`.
pub open spec fn all_agree<T: FromJson>(ts: Seq<T>, es: Seq<JsonV>) -> bool {
    ts.len() == es.len() && (forall|i: int|
        0 <= i < es.len() ==> (#[trigger] ts[i]).agrees(es[i]))
}

/// Decodes every element of a JSON array; fails when any element fails.
pub fn from_json_arr<T: FromJson>(es: &Vec<Json>) -> (r: Option<Vec<T>>)
    ensures
        arr_view(es@).len() == es@.len(),
        forall|i: int| 0 <= i < es@.len() ==> arr_view(es@)[i] == json_view(#[trigger] es@[i]),
        r is Some <==> all_shaped::<T>(arr_view(es@)),
        r matches Some(ts) ==> all_agree(ts@, arr_view(es@)),
{
    proof {
        lemma_arr_view(es@);
    }
    let n = es.len();
    let mut out: Vec<T> = Vec::new();
    let mut i: usize = 0;
    while i < n
        invariant
            i <= n,
            n == es@.len(),
            arr_view(es@).len() == n,
            forall|k: int| 0 <= k < n ==> arr_view(es@)[k] == json_view(#[trigger] es@[k]),
            out@.len() == i,
            forall|k: int| 0 <= k < i ==> T::shape(#[trigger] arr_view(es@)[k]),
            forall|k: int| 0 <= k < i ==> (#[trigger] out@[k]).agrees(arr_view(es@)[k]),
        decreases n - i,
    {
        match T::from_json(&es[i]) {
            Some(t) => {
                out.push(t);
            },
            None => {
                proof {
                    assert(!T::shape(arr_view(es@)[i as int]));
                    assert(!all_shaped::<T>(arr_view(es@)));
                }
                return None;
            },
        }
        i = i + 1;
    }
    Some(out)
}

impl Clone for Json {
    /// A deep copy whose view is unchanged.
    fn clone(&self) -> (r: Self)
        ensures
            r@ == self@,
    {
        clone_json(self)
    }
}

/// A deep copy whose view is unchanged.
pub fn clone_json(v: &Json) -> (r: Json)
    ensures
        r@ == v@,
    decreases *v, 0int,
{
    match v {
        Json::Null => Json::Null,
        Json::Bool(b) => Json::Bool(*b),
        Json::Num(s) => Json::Num(s.clone()),
        Json::Str(s) => Json::Str(s.clone()),
        Json::Arr(es) => Json::Arr(clone_json_arr(es)),
        Json::Obj(fs) => Json::Obj(clone_json_obj(fs)),
    }
}

pub fn clone_json_arr(es: &Vec<Json>) -> (r: Vec<Json>)
    ensures
        arr_view(r@) == arr_view(es@),
    decreases es@, 1int,
{
    let n = es.len();
    let mut out: Vec<Json> = Vec::new();
    let mut i: usize = 0;
    while i < n
        invariant
            i <= n,
            n == es@.len(),
            out@.len() == i,
            forall|k: int| 0 <= k < i ==> json_view(#[trigger] out@[k]) == json_view(es@[k]),
        decreases n - i,
    {
        let c = clone_json(&es[i]);
        out.push(c);
        i = i + 1;
    }
    proof {
        lemma_arr_view(out@);
        lemma_arr_view(es@);
        assert forall|k: int| 0 <= k < arr_view(out@).len() implies arr_view(out@)[k] == arr_view(
            es@,
        )[k] by {
            assert(arr_view(out@)[k] == json_view(out@[k]));
            assert(arr_view(es@)[k] == json_view(es@[k]));
        }
        assert(arr_view(out@) =~= arr_view(es@));
    }
    out
}

pub fn clone_json_obj(fs: &Vec<(String, Json)>) -> (r: Vec<(String, Json)>)
    ensures
        obj_view(r@) == obj_view(fs@),
    decreases fs@, 1int,
{
    let n = fs.len();
    let mut out: Vec<(String, Json)> = Vec::new();
    let mut i: usize = 0;
    while i < n
        invariant
            i <= n,
            n == fs@.len(),
            out@.len() == i,
            forall|k: int| 0 <= k < i ==> (#[trigger] out@[k]).0@ == fs@[k].0@ && json_view(
                out@[k].1,
            ) == json_view(fs@[k].1),
        decreases n - i,
    {
        let key = fs[i].0.clone();
        let val = clone_json(&fs[i].1);
        out.push((key, val));
        i = i + 1;
    }
    proof {
        lemma_obj_view(out@);
        lemma_obj_view(fs@);
        assert forall|k: int| 0 <= k < obj_view(out@).len() implies obj_view(out@)[k] == obj_view(
            fs@,
        )[k] by {
            assert(obj_view(out@)[k] == (out@[k].0@, json_view(out@[k].1)));
            assert(obj_view(fs@)[k] == (fs@[k].0@, json_view(fs@[k].1)));
        }
        assert(obj_view(out@) =~= obj_view(fs@));
    }
    out
}

} // verus!
