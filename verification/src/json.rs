//! The JSON values that the library puts on the wire and reads back, and the
//! verified printer that turns a value into its exact wire text.
use vstd::prelude::*;
use crate::ext::push_char;

verus! {

broadcast use vstd::seq::axiom_seq_index_decreases, vstd::seq::axiom_seq_subrange_decreases, vstd::std_specs::vec::axiom_vec_decreases_to_view, vstd::std_specs::vec::axiom_vec_index_decreases;

/// A JSON value, as this library puts it on the wire and reads it back.
///
/// Every numeric field of the data model is an integer: a non-negative one
/// stands under `UInt`, a negative one as its magnitude under `NInt`, and any
/// other number only as its literal text under `Num`, which no record field
/// accepts.
pub enum Json {
    Null,
    Bool(bool),
    UInt(u64),
    /// The negative integer `-(magnitude)`; the magnitude is at least 1.
    NInt(u64),
    /// A number that fits no 64-bit integer (fractional, or out of range),
    /// held as its literal text. The reader produces it so that a record
    /// field expecting an integer refuses it, while an ignored field
    /// tolerates it; the encoders never produce one.
    Num(String),
    Str(String),
    Arr(Vec<Json>),
    Obj(Vec<(String, Json)>),
}

/// Spec-level JSON value: the mathematical model of `Json`.
#[verifier::ext_equal]
pub enum JsonV {
    Null,
    Bool(bool),
    UInt(u64),
    NInt(u64),
    Num(Seq<char>),
    Str(Seq<char>),
    Arr(Seq<JsonV>),
    Obj(Seq<(Seq<char>, JsonV)>),
}

/// The mathematical value of a `Json` tree.
pub open spec fn json_view(j: Json) -> JsonV
    decreases j,
{
    match j {
        Json::Null => JsonV::Null,
        Json::Bool(b) => JsonV::Bool(b),
        Json::UInt(n) => JsonV::UInt(n),
        Json::NInt(n) => JsonV::NInt(n),
        Json::Num(t) => JsonV::Num(t@),
        Json::Str(s) => JsonV::Str(s@),
        Json::Arr(items) => JsonV::Arr(
            Seq::new(
                items@.len(),
                |i: int|
                    if 0 <= i < items@.len() {
                        json_view(items@[i])
                    } else {
                        JsonV::Null
                    },
            ),
        ),
        Json::Obj(fields) => JsonV::Obj(
            Seq::new(
                fields@.len(),
                |i: int|
                    if 0 <= i < fields@.len() {
                        (fields@[i].0@, json_view(fields@[i].1))
                    } else {
                        (Seq::empty(), JsonV::Null)
                    },
            ),
        ),
    }
}

impl View for Json {
    type V = JsonV;

    open spec fn view(&self) -> JsonV {
        json_view(*self)
    }
}

/// Looks a key up in the fields of a JSON object: the value of its first
/// occurrence, or `None` when the key does not occur.
pub open spec fn obj_get(fields: Seq<(Seq<char>, JsonV)>, key: Seq<char>) -> Option<JsonV>
    decreases fields.len(),
{
    if fields.len() == 0 {
        None
    } else if fields[0].0 == key {
        Some(fields[0].1)
    } else {
        obj_get(fields.skip(1), key)
    }
}

/// The views of the fields of an object held as an executable vector.
pub open spec fn fields_view(fields: Seq<(String, Json)>) -> Seq<(Seq<char>, JsonV)> {
    Seq::new(fields.len(), |i: int| (fields[i].0@, json_view(fields[i].1)))
}

/// An object's view is the view of its field vector.
pub proof fn lemma_obj_view(fields: Vec<(String, Json)>)
    ensures
        json_view(Json::Obj(fields)) == JsonV::Obj(fields_view(fields@)),
{
    assert(json_view(Json::Obj(fields))->Obj_0 =~= fields_view(fields@));
}

/// `obj_get` after skipping `i` fields either finds field `i` or keeps looking.
proof fn lemma_obj_get_step(s: Seq<(Seq<char>, JsonV)>, i: int, key: Seq<char>)
    requires
        0 <= i < s.len(),
    ensures
        obj_get(s.skip(i), key) == if s[i].0 == key {
            Some(s[i].1)
        } else {
            obj_get(s.skip(i + 1), key)
        },
{
    assert(s.skip(i).len() == s.len() - i);
    assert(s.skip(i)[0] == s[i]);
    assert(s.skip(i).skip(1) =~= s.skip(i + 1));
}

/// Looks a key up among an object's fields: the value of its first
/// occurrence, or `None` when the key does not occur.
pub fn obj_field<'a>(fields: &'a Vec<(String, Json)>, key: &str) -> (r: Option<&'a Json>)
    ensures
        match r {
            Some(j) => obj_get(fields_view(fields@), key@) == Some(j@),
            None => obj_get(fields_view(fields@), key@) is None,
        },
{
    let k = String::from_str(key);
    let ghost fv = fields_view(fields@);
    proof {
        assert(fv.skip(0) =~= fv);
    }
    let mut i: usize = 0;
    while i < fields.len()
        invariant
            k@ == key@,
            fv == fields_view(fields@),
            fv.len() == fields@.len(),
            i <= fields.len(),
            obj_get(fv, key@) == obj_get(fv.skip(i as int), key@),
        decreases fields.len() - i,
    {
        proof {
            lemma_obj_get_step(fv, i as int, key@);
            assert(fv[i as int] == (fields@[i as int].0@, json_view(fields@[i as int].1)));
        }
        if fields[i].0 == k {
            proof {
                assert(fv[i as int].0 == key@);
            }
            return Some(&fields[i].1);
        }
        i = i + 1;
    }
    proof {
        assert(fv.skip(fields@.len() as int) =~= Seq::empty());
        assert(obj_get(fv, key@) is None);
    }
    None
}

/// The decimal digit `d` (`d` at most 9) as a character.
pub open spec fn dec_digit(d: nat) -> char {
    if d == 0 {
        '0'
    } else if d == 1 {
        '1'
    } else if d == 2 {
        '2'
    } else if d == 3 {
        '3'
    } else if d == 4 {
        '4'
    } else if d == 5 {
        '5'
    } else if d == 6 {
        '6'
    } else if d == 7 {
        '7'
    } else if d == 8 {
        '8'
    } else {
        '9'
    }
}

/// The hexadecimal digit `d` (`d` at most 15) as a lowercase character.
pub open spec fn hex_digit(d: nat) -> char {
    if d < 10 {
        dec_digit(d)
    } else if d == 10 {
        'a'
    } else if d == 11 {
        'b'
    } else if d == 12 {
        'c'
    } else if d == 13 {
        'd'
    } else if d == 14 {
        'e'
    } else {
        'f'
    }
}

/// The decimal digits of `n`, most significant first, with no leading zero
/// (a single `'0'` for zero).
pub open spec fn dec_digits(n: nat) -> Seq<char>
    decreases n,
{
    if n < 10 {
        seq![dec_digit(n)]
    } else {
        dec_digits(n / 10) + seq![dec_digit(n % 10)]
    }
}

/// The last `count` hexadecimal digits of `n`, most significant first,
/// zero-padded to exactly `count` characters.
pub open spec fn hex_digits(n: nat, count: nat) -> Seq<char>
    decreases count,
{
    if count == 0 {
        Seq::empty()
    } else {
        hex_digits(n / 16, (count - 1) as nat) + seq![hex_digit(n % 16)]
    }
}

/// How one character stands inside a JSON string literal: quote and backslash
/// escaped, control characters as `\u00` plus two hex digits, all others as
/// themselves.
pub open spec fn esc_char(c: char) -> Seq<char> {
    if c == '"' {
        seq!['\\', '"']
    } else if c == '\\' {
        seq!['\\', '\\']
    } else if (c as u32) < 32 {
        seq!['\\', 'u', '0', '0', hex_digit((c as u32 / 16) as nat), hex_digit((c as u32 % 16) as nat)]
    } else {
        seq![c]
    }
}

/// The body of a JSON string literal for the text `s` (without the quotes).
pub open spec fn escaped(s: Seq<char>) -> Seq<char>
    decreases s.len(),
{
    if s.len() == 0 {
        Seq::empty()
    } else {
        escaped(s.drop_last()) + esc_char(s.last())
    }
}

/// The exact wire text of a JSON value, in compact form: no spaces, object
/// fields and array items separated by single commas.
pub open spec fn json_text(v: JsonV) -> Seq<char>
    decreases v,
{
    match v {
        JsonV::Null => seq!['n', 'u', 'l', 'l'],
        JsonV::Bool(b) => if b {
            seq!['t', 'r', 'u', 'e']
        } else {
            seq!['f', 'a', 'l', 's', 'e']
        },
        JsonV::UInt(n) => dec_digits(n as nat),
        JsonV::NInt(n) => seq!['-'] + dec_digits(n as nat),
        JsonV::Num(t) => t,
        JsonV::Str(s) => seq!['"'] + escaped(s) + seq!['"'],
        JsonV::Arr(items) => seq!['['] + arr_text(items) + seq![']'],
        JsonV::Obj(fields) => seq!['{'] + obj_text(fields) + seq!['}'],
    }
}

/// The comma-separated texts of the items of a JSON array.
pub open spec fn arr_text(items: Seq<JsonV>) -> Seq<char>
    decreases items,
{
    if items.len() == 0 {
        Seq::empty()
    } else if items.len() == 1 {
        json_text(items[0])
    } else {
        arr_text(items.drop_last()) + seq![','] + json_text(items.last())
    }
}

/// The text of one object field: quoted escaped key, a colon, the value.
pub open spec fn field_text(f: (Seq<char>, JsonV)) -> Seq<char>
    decreases f,
{
    seq!['"'] + escaped(f.0) + seq!['"', ':'] + json_text(f.1)
}

/// The comma-separated texts of the fields of a JSON object.
pub open spec fn obj_text(fields: Seq<(Seq<char>, JsonV)>) -> Seq<char>
    decreases fields,
{
    if fields.len() == 0 {
        Seq::empty()
    } else if fields.len() == 1 {
        field_text(fields[0])
    } else {
        obj_text(fields.drop_last()) + seq![','] + field_text(fields.last())
    }
}

/// The decimal digit `d` as a character.
fn dec_digit_char(d: u64) -> (c: char)
    requires
        d < 10,
    ensures
        c == dec_digit(d as nat),
{
    if d == 0 {
        '0'
    } else if d == 1 {
        '1'
    } else if d == 2 {
        '2'
    } else if d == 3 {
        '3'
    } else if d == 4 {
        '4'
    } else if d == 5 {
        '5'
    } else if d == 6 {
        '6'
    } else if d == 7 {
        '7'
    } else if d == 8 {
        '8'
    } else {
        '9'
    }
}

/// The hexadecimal digit `d` as a lowercase character.
pub fn hex_digit_char(d: u64) -> (c: char)
    requires
        d < 16,
    ensures
        c == hex_digit(d as nat),
{
    if d < 10 {
        dec_digit_char(d)
    } else if d == 10 {
        'a'
    } else if d == 11 {
        'b'
    } else if d == 12 {
        'c'
    } else if d == 13 {
        'd'
    } else if d == 14 {
        'e'
    } else {
        'f'
    }
}

/// Appends the decimal digits of `n` to `out`.
pub fn push_uint(out: &mut String, n: u64)
    ensures
        final(out)@ == old(out)@ + dec_digits(n as nat),
    decreases n,
{
    if n < 10 {
        push_char(out, dec_digit_char(n));
        assert(out@ =~= old(out)@ + dec_digits(n as nat));
    } else {
        push_uint(out, n / 10);
        push_char(out, dec_digit_char(n % 10));
        assert(out@ =~= old(out)@ + dec_digits(n as nat));
    }
}

/// Appends the body of the JSON string literal for `s` to `out`.
fn push_escaped(out: &mut String, s: &str)
    ensures
        final(out)@ == old(out)@ + escaped(s@),
{
    let len = s.unicode_len();
    let mut i: usize = 0;
    while i < len
        invariant
            len == s@.len(),
            i <= len,
            out@ == old(out)@ + escaped(s@.take(i as int)),
        decreases len - i,
    {
        let c = s.get_char(i);
        let ghost pre = out@;
        if c == '"' {
            out.append("\\\"");
            proof {
                reveal_strlit("\\\"");
                assert(out@ =~= pre + esc_char(c));
            }
        } else if c == '\\' {
            out.append("\\\\");
            proof {
                reveal_strlit("\\\\");
                assert(out@ =~= pre + esc_char(c));
            }
        } else if (c as u32) < 32 {
            out.append("\\u00");
            proof {
                reveal_strlit("\\u00");
            }
            let code = c as u32;
            push_char(out, hex_digit_char((code / 16) as u64));
            push_char(out, hex_digit_char((code % 16) as u64));
            proof {
                assert(out@ =~= pre + esc_char(c));
            }
        } else {
            push_char(out, c);
            proof {
                assert(out@ =~= pre + esc_char(c));
            }
        }
        proof {
            assert(s@.take(i + 1).drop_last() =~= s@.take(i as int));
            assert(s@.take(i + 1).last() == s@[i as int]);
            assert(escaped(s@.take(i + 1)) == escaped(s@.take(i as int)) + esc_char(s@[i as int]));
            assert(out@ =~= old(out)@ + escaped(s@.take(i + 1)));
        }
        i = i + 1;
    }
    proof {
        assert(s@.take(len as int) =~= s@);
    }
}

/// Appends the wire text of `v` to `out`.
fn push_json(out: &mut String, v: &Json)
    ensures
        final(out)@ == old(out)@ + json_text(v@),
    decreases v,
{
    match v {
        Json::Null => {
            out.append("null");
            proof {
                reveal_strlit("null");
                assert(out@ =~= old(out)@ + json_text(v@));
            }
        },
        Json::Bool(b) => {
            if *b {
                out.append("true");
                proof {
                    reveal_strlit("true");
                    assert(out@ =~= old(out)@ + json_text(v@));
                }
            } else {
                out.append("false");
                proof {
                    reveal_strlit("false");
                    assert(out@ =~= old(out)@ + json_text(v@));
                }
            }
        },
        Json::UInt(n) => {
            push_uint(out, *n);
        },
        Json::NInt(n) => {
            push_char(out, '-');
            push_uint(out, *n);
            assert(out@ =~= old(out)@ + json_text(v@));
        },
        Json::Num(t) => {
            out.append(t.as_str());
            assert(out@ =~= old(out)@ + json_text(v@));
        },
        Json::Str(s) => {
            push_char(out, '"');
            push_escaped(out, s.as_str());
            push_char(out, '"');
            assert(out@ =~= old(out)@ + json_text(v@));
        },
        Json::Arr(items) => {
            let ghost iv: Seq<JsonV> = v@->Arr_0;
            proof {
                assert(v@ == JsonV::Arr(iv));
                assert(iv.len() == items@.len());
                assert(forall|k: int| 0 <= k < iv.len() ==> iv[k] == items@[k]@);
            }
            push_char(out, '[');
            let mut i: usize = 0;
            while i < items.len()
                invariant
                    *v == Json::Arr(*items),
                    v@ == JsonV::Arr(iv),
                    iv.len() == items@.len(),
                    forall|k: int| 0 <= k < iv.len() ==> iv[k] == items@[k]@,
                    i <= items.len(),
                    out@ == old(out)@ + seq!['['] + arr_text(iv.take(i as int)),
                decreases items.len() - i,
            {
                if i > 0 {
                    push_char(out, ',');
                }
                proof {
                    assert(decreases_to!(*v => *items));
                    assert(decreases_to!(*items => items@[i as int]));
                }
                push_json(out, &items[i]);
                proof {
                    let t = iv.take(i + 1);
                    if i == 0 {
                        assert(arr_text(t) == json_text(iv[0]));
                        assert(out@ =~= old(out)@ + seq!['['] + arr_text(t));
                    } else {
                        assert(t.drop_last() =~= iv.take(i as int));
                        assert(t.last() == iv[i as int]);
                        assert(arr_text(t) == arr_text(iv.take(i as int)) + seq![','] + json_text(
                            iv[i as int],
                        ));
                        assert(out@ =~= old(out)@ + seq!['['] + arr_text(t));
                    }
                }
                i = i + 1;
            }
            push_char(out, ']');
            proof {
                assert(iv.take(iv.len() as int) =~= iv);
                assert(out@ =~= old(out)@ + json_text(v@));
            }
        },
        Json::Obj(fields) => {
            let ghost fv: Seq<(Seq<char>, JsonV)> = v@->Obj_0;
            proof {
                assert(v@ == JsonV::Obj(fv));
                assert(fv.len() == fields@.len());
                assert(forall|k: int|
                    0 <= k < fv.len() ==> fv[k] == (fields@[k].0@, fields@[k].1@));
            }
            push_char(out, '{');
            let mut i: usize = 0;
            while i < fields.len()
                invariant
                    *v == Json::Obj(*fields),
                    v@ == JsonV::Obj(fv),
                    fv.len() == fields@.len(),
                    forall|k: int|
                        0 <= k < fv.len() ==> fv[k] == (fields@[k].0@, fields@[k].1@),
                    i <= fields.len(),
                    out@ == old(out)@ + seq!['{'] + obj_text(fv.take(i as int)),
                decreases fields.len() - i,
            {
                if i > 0 {
                    push_char(out, ',');
                }
                push_char(out, '"');
                push_escaped(out, fields[i].0.as_str());
                push_char(out, '"');
                push_char(out, ':');
                proof {
                    assert(decreases_to!(*v => *fields));
                    assert(decreases_to!(*fields => fields@[i as int]));
                    assert(decreases_to!(fields@[i as int] => fields@[i as int].1));
                }
                push_json(out, &fields[i].1);
                proof {
                    let t = fv.take(i + 1);
                    assert(fv[i as int] == (fields@[i as int].0@, fields@[i as int].1@));
                    if i == 0 {
                        assert(obj_text(t) == field_text(fv[0]));
                        assert(out@ =~= old(out)@ + seq!['{'] + obj_text(t));
                    } else {
                        assert(t.drop_last() =~= fv.take(i as int));
                        assert(t.last() == fv[i as int]);
                        assert(obj_text(t) == obj_text(fv.take(i as int)) + seq![','] + field_text(
                            fv[i as int],
                        ));
                        assert(out@ =~= old(out)@ + seq!['{'] + obj_text(t));
                    }
                }
                i = i + 1;
            }
            push_char(out, '}');
            proof {
                assert(fv.take(fv.len() as int) =~= fv);
                assert(out@ =~= old(out)@ + json_text(v@));
            }
        },
    }
}

/// The exact wire text of `v`.
pub fn to_text(v: &Json) -> (r: String)
    ensures
        r@ == json_text(v@),
{
    let mut out = String::new();
    push_json(&mut out, v);
    proof {
        assert(out@ =~= json_text(v@));
    }
    out
}

} // verus!
