//! The data records exchanged with the permissions service, their
//! mathematical views, and the canonical text of the identifiers and
//! enumerations that appear inside them.
use vstd::prelude::*;
use crate::ext::push_char;
use crate::json::{hex_digit, hex_digits, hex_digit_char};

verus! {

/// A universally unique identifier, held as its 128-bit value.
///
/// Its canonical text is 32 lowercase hexadecimal digits in five
/// hyphen-separated groups of 8, 4, 4, 4 and 12.
#[derive(Clone, Copy, PartialEq, Eq, Structural, Debug)]
pub struct Uuid {
    pub value: u128,
}

impl DeepView for Uuid {
    type V = u128;

    open spec fn deep_view(&self) -> u128 {
        self.value
    }
}

/// The canonical hyphenated text of the UUID with value `n`.
pub open spec fn uuid_text(n: u128) -> Seq<char> {
    let d = hex_digits(n as nat, 32);
    d.subrange(0, 8) + seq!['-'] + d.subrange(8, 12) + seq!['-'] + d.subrange(12, 16)
        + seq!['-'] + d.subrange(16, 20) + seq!['-'] + d.subrange(20, 32)
}

/// `hex_digits` yields exactly as many characters as were asked for.
pub proof fn lemma_hex_digits_len(n: nat, count: nat)
    ensures
        hex_digits(n, count).len() == count,
    decreases count,
{
    if count > 0 {
        lemma_hex_digits_len(n / 16, (count - 1) as nat);
    }
}

/// Appends the last `count` hexadecimal digits of `n`, zero-padded.
fn push_hex(out: &mut String, n: u128, count: usize)
    ensures
        final(out)@ == old(out)@ + hex_digits(n as nat, count as nat),
    decreases count,
{
    if count > 0 {
        push_hex(out, n / 16, count - 1);
        push_char(out, hex_digit_char((n % 16) as u64));
        assert(out@ =~= old(out)@ + hex_digits(n as nat, count as nat));
    } else {
        assert(out@ =~= old(out)@ + hex_digits(n as nat, 0));
    }
}

impl Uuid {
    /// The canonical hyphenated text of this UUID.
    pub fn to_string(&self) -> (r: String)
        ensures
            r@ == uuid_text(self.value),
    {
        let mut d = String::new();
        push_hex(&mut d, self.value, 32);
        proof {
            lemma_hex_digits_len(self.value as nat, 32);
        }
        let ds = d.as_str();
        let mut out = String::new();
        out.append(ds.substring_char(0, 8));
        push_char(&mut out, '-');
        out.append(ds.substring_char(8, 12));
        push_char(&mut out, '-');
        out.append(ds.substring_char(12, 16));
        push_char(&mut out, '-');
        out.append(ds.substring_char(16, 20));
        push_char(&mut out, '-');
        out.append(ds.substring_char(20, 32));
        proof {
            assert(out@ =~= uuid_text(self.value));
        }
        out
    }
}

/// The numeric value of a hexadecimal digit, lowercase or uppercase;
/// 16 when the character is no such digit.
pub open spec fn hex_value(c: char) -> nat {
    if '0' <= c && c <= '9' {
        (c as int - 48) as nat
    } else if 'a' <= c && c <= 'f' {
        (c as int - 97 + 10) as nat
    } else if 'A' <= c && c <= 'F' {
        (c as int - 65 + 10) as nat
    } else {
        16
    }
}

/// Whether `c` is a hexadecimal digit, lowercase or uppercase.
pub open spec fn is_hex_digit(c: char) -> bool {
    hex_value(c) < 16
}

/// The number written by the hexadecimal digits `s`, most significant first.
pub open spec fn hex_num(s: Seq<char>) -> nat
    decreases s.len(),
{
    if s.len() == 0 {
        0
    } else {
        hex_num(s.drop_last()) * 16 + hex_value(s.last())
    }
}

/// The 32 hexadecimal digits of a hyphenated UUID text, hyphens removed;
/// meaningful only when the text has the canonical shape.
pub open spec fn uuid_digit_seq(s: Seq<char>) -> Seq<char> {
    s.subrange(0, 8) + s.subrange(9, 13) + s.subrange(14, 18) + s.subrange(19, 23) + s.subrange(
        24,
        36,
    )
}

/// Whether `s` has the canonical hyphenated UUID shape: 36 characters,
/// hyphens at positions 8, 13, 18 and 23, hexadecimal digits elsewhere.
pub open spec fn is_uuid_text(s: Seq<char>) -> bool {
    &&& s.len() == 36
    &&& s[8] == '-'
    &&& s[13] == '-'
    &&& s[18] == '-'
    &&& s[23] == '-'
    &&& forall|i: int|
        0 <= i < 36 && i != 8 && i != 13 && i != 18 && i != 23 ==> is_hex_digit(#[trigger] s[i])
}

/// The UUID written by `s`, when `s` has the canonical hyphenated shape.
pub open spec fn spec_parse_hyphenated(s: Seq<char>) -> Option<u128> {
    if is_uuid_text(s) {
        Some(hex_num(uuid_digit_seq(s)) as u128)
    } else {
        None
    }
}

/// Whether `s` is the simple UUID form: 32 hexadecimal digits, no hyphens.
pub open spec fn is_simple_uuid_text(s: Seq<char>) -> bool {
    &&& s.len() == 32
    &&& forall|i: int| 0 <= i < 32 ==> is_hex_digit(#[trigger] s[i])
}

/// Whether `s` opens with `urn:uuid:`, letters in either case.
pub open spec fn is_urn_uuid_prefix(s: Seq<char>) -> bool {
    &&& s.len() >= 9
    &&& (s[0] == 'u' || s[0] == 'U')
    &&& (s[1] == 'r' || s[1] == 'R')
    &&& (s[2] == 'n' || s[2] == 'N')
    &&& s[3] == ':'
    &&& (s[4] == 'u' || s[4] == 'U')
    &&& (s[5] == 'u' || s[5] == 'U')
    &&& (s[6] == 'i' || s[6] == 'I')
    &&& (s[7] == 'd' || s[7] == 'D')
    &&& s[8] == ':'
}

/// The UUID written by `s`, in any of the four accepted forms: simple
/// (32 digits), hyphenated, braced hyphenated, or a `urn:uuid:` URN.
pub open spec fn spec_parse_uuid(s: Seq<char>) -> Option<u128> {
    if s.len() == 32 {
        if is_simple_uuid_text(s) {
            Some(hex_num(s) as u128)
        } else {
            None
        }
    } else if s.len() == 36 {
        spec_parse_hyphenated(s)
    } else if s.len() == 38 {
        if s[0] == '{' && s[37] == '}' {
            spec_parse_hyphenated(s.subrange(1, 37))
        } else {
            None
        }
    } else if s.len() == 45 {
        if is_urn_uuid_prefix(s) {
            spec_parse_hyphenated(s.subrange(9, 45))
        } else {
            None
        }
    } else {
        None
    }
}

/// 16 to the power `k`.
pub open spec fn pow16(k: nat) -> nat
    decreases k,
{
    if k == 0 {
        1
    } else {
        16 * pow16((k - 1) as nat)
    }
}

/// `16^32` is `2^128`.
proof fn lemma_pow16_32()
    ensures
        pow16(32) == 0x100000000000000000000000000000000,
{
    reveal_with_fuel(pow16, 33);
    assert(pow16(32) == 0x100000000000000000000000000000000);
}

/// The numeric value of the hexadecimal digit `c`, or `None` when `c` is
/// no such digit.
fn hex_value_of(c: char) -> (r: Option<u64>)
    ensures
        match r {
            Some(v) => is_hex_digit(c) && v == hex_value(c),
            None => !is_hex_digit(c),
        },
{
    let code = c as u32;
    if 48 <= code && code <= 57 {
        Some((code - 48) as u64)
    } else if 97 <= code && code <= 102 {
        Some((code - 97 + 10) as u64)
    } else if 65 <= code && code <= 70 {
        Some((code - 65 + 10) as u64)
    } else {
        None
    }
}

/// Reads a UUID from its canonical hyphenated text: `None` when the text
/// does not have that shape.
fn parse_hyphenated(s: &str) -> (r: Option<Uuid>)
    ensures
        match r {
            Some(u) => spec_parse_hyphenated(s@) == Some(u.value),
            None => spec_parse_hyphenated(s@) is None,
        },
{
    let len = s.unicode_len();
    if len != 36 {
        return None;
    }
    let mut acc: u128 = 0;
    let ghost mut digits: Seq<char> = Seq::empty();
    let mut i: usize = 0;
    while i < 36
        invariant
            s@.len() == 36,
            i <= 36,
            digits.len() <= i,
            forall|j: int|
                0 <= j < i && j != 8 && j != 13 && j != 18 && j != 23 ==> is_hex_digit(
                    #[trigger] s@[j],
                ),
            i > 8 ==> s@[8] == '-',
            i > 13 ==> s@[13] == '-',
            i > 18 ==> s@[18] == '-',
            i > 23 ==> s@[23] == '-',
            digits == uuid_digit_prefix(s@, i as int),
            acc == hex_num(digits),
            acc < pow16(digits.len()),
        decreases 36 - i,
    {
        let c = s.get_char(i);
        if i == 8 || i == 13 || i == 18 || i == 23 {
            if c != '-' {
                return None;
            }
        } else {
            match hex_value_of(c) {
                None => {
                    return None;
                },
                Some(v) => {
                    proof {
                        lemma_pow16_32();
                        lemma_uuid_digit_prefix_len(s@, i as int);
                        assert(digits.len() < 32);
                        assert(acc * 16 + v < pow16((digits.len() + 1) as nat)) by (nonlinear_arith)
                            requires
                                acc < pow16(digits.len() as nat),
                                v < 16,
                                pow16((digits.len() + 1) as nat) == 16 * pow16(digits.len() as nat),
                        ;
                        lemma_pow16_le((digits.len() + 1) as nat, 32);
                        assert(acc * 16 + v < 0x100000000000000000000000000000000);
                    }
                    acc = acc * 16 + (v as u128);
                    proof {
                        let nd = digits.push(c);
                        assert(nd.drop_last() =~= digits);
                        assert(nd.last() == c);
                        assert(hex_num(nd) == hex_num(digits) * 16 + hex_value(c));
                        lemma_pow16_le((digits.len() + 1) as nat, 32);
                        digits = nd;
                    }
                },
            }
        }
        proof {
            assert(uuid_digit_prefix(s@, i + 1) =~= digits);
        }
        i = i + 1;
    }
    proof {
        lemma_prefix_whole(s@);
        assert(is_uuid_text(s@));
    }
    Some(Uuid { value: acc })
}

/// Reads a UUID from its simple text: exactly 32 hexadecimal digits.
fn parse_simple(s: &str) -> (r: Option<Uuid>)
    ensures
        match r {
            Some(u) => is_simple_uuid_text(s@) && hex_num(s@) == u.value as nat,
            None => !is_simple_uuid_text(s@),
        },
{
    let len = s.unicode_len();
    if len != 32 {
        return None;
    }
    let mut acc: u128 = 0;
    proof {
        assert(s@.take(0) =~= Seq::<char>::empty());
    }
    let mut i: usize = 0;
    while i < 32
        invariant
            s@.len() == 32,
            i <= 32,
            forall|j: int| 0 <= j < i ==> is_hex_digit(#[trigger] s@[j]),
            acc == hex_num(s@.take(i as int)),
            acc < pow16(i as nat),
        decreases 32 - i,
    {
        let c = s.get_char(i);
        match hex_value_of(c) {
            None => {
                return None;
            },
            Some(v) => {
                proof {
                    lemma_pow16_32();
                    assert(acc * 16 + v < pow16((i + 1) as nat)) by (nonlinear_arith)
                        requires
                            acc < pow16(i as nat),
                            v < 16,
                            pow16((i + 1) as nat) == 16 * pow16(i as nat),
                    ;
                    lemma_pow16_le((i + 1) as nat, 32);
                }
                acc = acc * 16 + (v as u128);
                proof {
                    assert(s@.take(i + 1).drop_last() =~= s@.take(i as int));
                    assert(s@.take(i + 1).last() == s@[i as int]);
                }
            },
        }
        i = i + 1;
    }
    proof {
        assert(s@.take(32) =~= s@);
    }
    Some(Uuid { value: acc })
}

/// Reads a UUID from text, in any of the four accepted forms: the simple
/// 32-digit text, the canonical hyphenated text, that text in braces, or a
/// `urn:uuid:` URN, hexadecimal digits and the URN letters in either case.
pub fn parse_uuid(s: &str) -> (r: Option<Uuid>)
    ensures
        match r {
            Some(u) => spec_parse_uuid(s@) == Some(u.value),
            None => spec_parse_uuid(s@) is None,
        },
{
    let len = s.unicode_len();
    if len == 32 {
        parse_simple(s)
    } else if len == 36 {
        parse_hyphenated(s)
    } else if len == 38 {
        if s.get_char(0) == '{' && s.get_char(37) == '}' {
            parse_hyphenated(s.substring_char(1, 37))
        } else {
            None
        }
    } else if len == 45 {
        let c0 = s.get_char(0);
        let c1 = s.get_char(1);
        let c2 = s.get_char(2);
        let c4 = s.get_char(4);
        let c5 = s.get_char(5);
        let c6 = s.get_char(6);
        let c7 = s.get_char(7);
        let urn = (c0 == 'u' || c0 == 'U') && (c1 == 'r' || c1 == 'R') && (c2 == 'n' || c2 == 'N')
            && s.get_char(3) == ':' && (c4 == 'u' || c4 == 'U') && (c5 == 'u' || c5 == 'U') && (c6
            == 'i' || c6 == 'I') && (c7 == 'd' || c7 == 'D') && s.get_char(8) == ':';
        if urn {
            parse_hyphenated(s.substring_char(9, 45))
        } else {
            None
        }
    } else {
        None
    }
}

/// The hexadecimal digits among the first `i` characters of a hyphenated
/// UUID text: all of them but the four hyphen positions.
pub open spec fn uuid_digit_prefix(s: Seq<char>, i: int) -> Seq<char>
    decreases i,
{
    if i <= 0 {
        Seq::empty()
    } else if i - 1 == 8 || i - 1 == 13 || i - 1 == 18 || i - 1 == 23 {
        uuid_digit_prefix(s, i - 1)
    } else {
        uuid_digit_prefix(s, i - 1).push(s[i - 1])
    }
}

/// Among the first `i` characters of a canonical UUID text, all but the
/// passed hyphen positions are digits: that many characters were kept.
proof fn lemma_uuid_digit_prefix_len(s: Seq<char>, i: int)
    requires
        0 <= i <= 36,
    ensures
        uuid_digit_prefix(s, i).len() == i - (if i > 8 { 1int } else { 0 }) - (if i > 13 {
            1int
        } else {
            0
        }) - (if i > 18 { 1int } else { 0 }) - (if i > 23 { 1int } else { 0 }),
    decreases i,
{
    if i > 0 {
        lemma_uuid_digit_prefix_len(s, i - 1);
    }
}

/// Over a stretch of a UUID text with no hyphen position, the kept digits
/// grow by exactly that stretch.
proof fn lemma_prefix_seg(s: Seq<char>, a: int, b: int)
    requires
        s.len() == 36,
        0 <= a <= b <= 36,
        8 < a || b <= 8,
        13 < a || b <= 13,
        18 < a || b <= 18,
        23 < a || b <= 23,
    ensures
        uuid_digit_prefix(s, b) == uuid_digit_prefix(s, a) + s.subrange(a, b),
    decreases b - a,
{
    if a == b {
        assert(uuid_digit_prefix(s, a) + s.subrange(a, a) =~= uuid_digit_prefix(s, a));
    } else {
        lemma_prefix_seg(s, a, b - 1);
        assert(uuid_digit_prefix(s, b) == uuid_digit_prefix(s, b - 1).push(s[b - 1]));
        assert(uuid_digit_prefix(s, a) + s.subrange(a, b) =~= (uuid_digit_prefix(s, a)
            + s.subrange(a, b - 1)).push(s[b - 1]));
    }
}

/// The digits kept from a whole canonical UUID text are its five
/// hyphen-separated groups, in order.
proof fn lemma_prefix_whole(s: Seq<char>)
    requires
        s.len() == 36,
    ensures
        uuid_digit_prefix(s, 36) == uuid_digit_seq(s),
{
    lemma_prefix_seg(s, 0, 8);
    assert(uuid_digit_prefix(s, 9) == uuid_digit_prefix(s, 8));
    lemma_prefix_seg(s, 9, 13);
    assert(uuid_digit_prefix(s, 14) == uuid_digit_prefix(s, 13));
    lemma_prefix_seg(s, 14, 18);
    assert(uuid_digit_prefix(s, 19) == uuid_digit_prefix(s, 18));
    lemma_prefix_seg(s, 19, 23);
    assert(uuid_digit_prefix(s, 24) == uuid_digit_prefix(s, 23));
    lemma_prefix_seg(s, 24, 36);
    assert(uuid_digit_prefix(s, 0) + s.subrange(0, 8) =~= s.subrange(0, 8));
    assert(uuid_digit_prefix(s, 36) =~= uuid_digit_seq(s));
}

/// `pow16` grows with its argument.
proof fn lemma_pow16_le(a: nat, b: nat)
    requires
        a <= b,
    ensures
        pow16(a) <= pow16(b),
    decreases b,
{
    if a < b {
        lemma_pow16_le(a, (b - 1) as nat);
        assert(pow16(b) == 16 * pow16((b - 1) as nat));
        assert(pow16((b - 1) as nat) <= 16 * pow16((b - 1) as nat)) by (nonlinear_arith)
            requires
                pow16((b - 1) as nat) >= 0,
        ;
    }
}

/// Reading back a single hexadecimal digit yields its value.
proof fn lemma_hex_value_of_digit(d: nat)
    requires
        d < 16,
    ensures
        hex_value(hex_digit(d)) == d,
{
}

/// Every character `hex_digits` writes is a hexadecimal digit.
proof fn lemma_hex_digits_are_hex(n: nat, c: nat)
    ensures
        forall|k: int| 0 <= k < c ==> is_hex_digit(#[trigger] hex_digits(n, c)[k]),
    decreases c,
{
    lemma_hex_digits_len(n, c);
    if c > 0 {
        lemma_hex_digits_are_hex(n / 16, (c - 1) as nat);
        lemma_hex_digits_len(n / 16, (c - 1) as nat);
        lemma_hex_value_of_digit(n % 16);
        assert forall|k: int| 0 <= k < c implies is_hex_digit(#[trigger] hex_digits(n, c)[k]) by {
            if k < c - 1 {
                assert(hex_digits(n, c)[k] == hex_digits(n / 16, (c - 1) as nat)[k]);
            } else {
                assert(hex_digits(n, c)[k] == hex_digit(n % 16));
            }
        }
    }
}

/// The number the digits of `hex_digits(m, c)` write is `m` modulo `16^c`.
proof fn lemma_hex_num_digits(m: nat, c: nat)
    ensures
        hex_num(hex_digits(m, c)) == m % pow16(c),
    decreases c,
{
    if c == 0 {
        assert(m % pow16(0) == 0) by {
            vstd::arithmetic::div_mod::lemma_mod_self_0(1);
            vstd::arithmetic::div_mod::lemma_small_mod(0, 1);
            assert(m % 1 == 0) by (nonlinear_arith);
        }
    } else {
        lemma_hex_num_digits(m / 16, (c - 1) as nat);
        lemma_hex_digits_len(m / 16, (c - 1) as nat);
        lemma_hex_value_of_digit(m % 16);
        let a = hex_digits(m / 16, (c - 1) as nat);
        let x = hex_digits(m, c);
        assert(x == a + seq![hex_digit(m % 16)]);
        assert(x.drop_last() =~= a);
        assert(x.last() == hex_digit(m % 16));
        assert(hex_num(x) == hex_num(a) * 16 + (m % 16));
        let p = pow16((c - 1) as nat);
        assert(p > 0) by {
            lemma_pow16_le(0, (c - 1) as nat);
        }
        let mi = m as int;
        let pi = p as int;
        let qi = mi / 16;
        vstd::arithmetic::div_mod::lemma_fundamental_div_mod(mi, 16);
        vstd::arithmetic::div_mod::lemma_fundamental_div_mod(qi, pi);
        vstd::arithmetic::div_mod::lemma_div_denominator(mi, 16, pi);
        vstd::arithmetic::div_mod::lemma_fundamental_div_mod(mi, 16 * pi);
        assert(pow16(c) == 16 * p);
        assert(m / 16 == qi && (m / 16) % p == qi % pi && m % 16 == mi % 16);
        assert((qi % pi) * 16 + mi % 16 == mi % (16 * pi)) by (nonlinear_arith)
            requires
                pi > 0,
                mi >= 0,
                mi == 16 * qi + mi % 16,
                qi == pi * (qi / pi) + qi % pi,
                (mi / 16) / pi == mi / (16 * pi),
                qi == mi / 16,
                mi == (16 * pi) * (mi / (16 * pi)) + mi % (16 * pi),
        ;
        assert(hex_num(x) == m % pow16(c));
    }
}

/// Reading the canonical text of a UUID yields the UUID back, unchanged.
pub proof fn lemma_uuid_text_round_trip(n: u128)
    ensures
        spec_parse_uuid(uuid_text(n)) == Some(n),
{
    let d = hex_digits(n as nat, 32);
    lemma_hex_digits_len(n as nat, 32);
    lemma_hex_digits_are_hex(n as nat, 32);
    let s = uuid_text(n);
    assert(s.len() == 36);
    assert(s[8] == '-');
    assert(s[13] == '-');
    assert(s[18] == '-');
    assert(s[23] == '-');
    assert(s.subrange(0, 8) =~= d.subrange(0, 8));
    assert(s.subrange(9, 13) =~= d.subrange(8, 12));
    assert(s.subrange(14, 18) =~= d.subrange(12, 16));
    assert(s.subrange(19, 23) =~= d.subrange(16, 20));
    assert(s.subrange(24, 36) =~= d.subrange(20, 32));
    assert(uuid_digit_seq(s) =~= d);
    assert(is_uuid_text(s)) by {
        assert forall|i: int|
            0 <= i < 36 && i != 8 && i != 13 && i != 18 && i != 23 implies is_hex_digit(
            #[trigger] s[i],
        ) by {
            if i < 8 {
                assert(s[i] == d[i]);
            } else if i < 13 {
                assert(s[i] == d[i - 1]);
            } else if i < 18 {
                assert(s[i] == d[i - 2]);
            } else if i < 23 {
                assert(s[i] == d[i - 3]);
            } else {
                assert(s[i] == d[i - 4]);
            }
        }
    }
    lemma_hex_num_digits(n as nat, 32);
    lemma_pow16_32();
    vstd::arithmetic::div_mod::lemma_small_mod(n as nat, pow16(32));
    assert(hex_num(d) == n as nat);
}

/// The kinds of permission node the service knows.
#[derive(Clone, Copy, PartialEq, Eq, Structural, Debug)]
pub enum NodeType {
    RegexPermission,
    Inheritance,
    Prefix,
    Suffix,
    Meta,
    Weight,
    DisplayName,
}

/// The canonical wire name of a node type: a fixed lowercase token with
/// underscores, used both in JSON and in query-string filters.
pub open spec fn node_type_name(t: NodeType) -> Seq<char> {
    match t {
        NodeType::RegexPermission => "regex_permission"@,
        NodeType::Inheritance => "inheritance"@,
        NodeType::Prefix => "prefix"@,
        NodeType::Suffix => "suffix"@,
        NodeType::Meta => "meta"@,
        NodeType::Weight => "weight"@,
        NodeType::DisplayName => "display_name"@,
    }
}

/// The node type with the given canonical wire name, or `None` when no
/// variant carries that name.
pub open spec fn node_type_of_name(s: Seq<char>) -> Option<NodeType> {
    if s == "regex_permission"@ {
        Some(NodeType::RegexPermission)
    } else if s == "inheritance"@ {
        Some(NodeType::Inheritance)
    } else if s == "prefix"@ {
        Some(NodeType::Prefix)
    } else if s == "suffix"@ {
        Some(NodeType::Suffix)
    } else if s == "meta"@ {
        Some(NodeType::Meta)
    } else if s == "weight"@ {
        Some(NodeType::Weight)
    } else if s == "display_name"@ {
        Some(NodeType::DisplayName)
    } else {
        None
    }
}

impl NodeType {
    /// The canonical wire name of this node type.
    pub fn to_string(&self) -> (r: String)
        ensures
            r@ == node_type_name(*self),
    {
        match self {
            NodeType::RegexPermission => String::from_str("regex_permission"),
            NodeType::Inheritance => String::from_str("inheritance"),
            NodeType::Prefix => String::from_str("prefix"),
            NodeType::Suffix => String::from_str("suffix"),
            NodeType::Meta => String::from_str("meta"),
            NodeType::Weight => String::from_str("weight"),
            NodeType::DisplayName => String::from_str("display_name"),
        }
    }

    /// The node type with the given canonical wire name.
    pub fn from_name(s: &str) -> (r: Option<NodeType>)
        ensures
            r == node_type_of_name(s@),
    {
        let n = String::from_str(s);
        if n == String::from_str("regex_permission") {
            Some(NodeType::RegexPermission)
        } else if n == String::from_str("inheritance") {
            Some(NodeType::Inheritance)
        } else if n == String::from_str("prefix") {
            Some(NodeType::Prefix)
        } else if n == String::from_str("suffix") {
            Some(NodeType::Suffix)
        } else if n == String::from_str("meta") {
            Some(NodeType::Meta)
        } else if n == String::from_str("weight") {
            Some(NodeType::Weight)
        } else if n == String::from_str("display_name") {
            Some(NodeType::DisplayName)
        } else {
            None
        }
    }
}

/// The canonical wire names of the node types are pairwise distinct, and
/// reading a name back yields the variant it came from.
pub proof fn lemma_node_type_name_round_trip(t: NodeType)
    ensures
        node_type_of_name(node_type_name(t)) == Some(t),
{
    reveal_strlit("regex_permission");
    reveal_strlit("inheritance");
    reveal_strlit("prefix");
    reveal_strlit("suffix");
    reveal_strlit("meta");
    reveal_strlit("weight");
    reveal_strlit("display_name");
    assert(!("inheritance"@ =~= "regex_permission"@));
    assert(!("prefix"@ =~= "regex_permission"@));
    assert(!("prefix"@ =~= "inheritance"@));
    assert(!("suffix"@ =~= "regex_permission"@));
    assert(!("suffix"@ =~= "inheritance"@));
    assert("suffix"@[0] != "prefix"@[0]);
    assert(!("suffix"@ =~= "prefix"@));
    assert(!("meta"@ =~= "regex_permission"@));
    assert(!("meta"@ =~= "inheritance"@));
    assert(!("meta"@ =~= "prefix"@));
    assert(!("meta"@ =~= "suffix"@));
    assert(!("weight"@ =~= "regex_permission"@));
    assert(!("weight"@ =~= "inheritance"@));
    assert("weight"@[0] != "prefix"@[0]);
    assert(!("weight"@ =~= "prefix"@));
    assert("weight"@[0] != "suffix"@[0]);
    assert(!("weight"@ =~= "suffix"@));
    assert(!("weight"@ =~= "meta"@));
    assert(!("display_name"@ =~= "regex_permission"@));
    assert(!("display_name"@ =~= "inheritance"@));
    assert(!("display_name"@ =~= "prefix"@));
    assert(!("display_name"@ =~= "suffix"@));
    assert(!("display_name"@ =~= "meta"@));
    assert(!("display_name"@ =~= "weight"@));
}

/// An atomic permission grant or denial attached to a user or group.
#[derive(Clone, Debug)]
pub struct Node {
    pub key: String,
    pub type_: NodeType,
    pub value: bool,
    pub context: Vec<String>,
    pub expiry: Option<u64>,
}

/// Mathematical view of a `Node`.
#[verifier::ext_equal]
pub struct NodeV {
    pub key: Seq<char>,
    pub type_: NodeType,
    pub value: bool,
    pub context: Seq<Seq<char>>,
    pub expiry: Option<u64>,
}

impl DeepView for Node {
    type V = NodeV;

    open spec fn deep_view(&self) -> NodeV {
        NodeV {
            key: self.key@,
            type_: self.type_,
            value: self.value,
            context: self.context.deep_view(),
            expiry: self.expiry,
        }
    }
}

/// A user as the service identifies one: UUID and username.
#[derive(Clone, Debug)]
pub struct UserIdentifier {
    pub unique_id: Uuid,
    pub username: String,
}

/// Mathematical view of a `UserIdentifier`.
#[verifier::ext_equal]
pub struct UserIdentifierV {
    pub unique_id: u128,
    pub username: Seq<char>,
}

impl DeepView for UserIdentifier {
    type V = UserIdentifierV;

    open spec fn deep_view(&self) -> UserIdentifierV {
        UserIdentifierV { unique_id: self.unique_id.value, username: self.username@ }
    }
}

/// Full user state as the service returns it.
#[derive(Clone, Debug)]
pub struct User {
    pub unique_id: Uuid,
    pub username: String,
    pub parent_groups: Vec<String>,
    pub nodes: Vec<Node>,
}

/// Mathematical view of a `User`.
#[verifier::ext_equal]
pub struct UserV {
    pub unique_id: u128,
    pub username: Seq<char>,
    pub parent_groups: Seq<Seq<char>>,
    pub nodes: Seq<NodeV>,
}

impl DeepView for User {
    type V = UserV;

    open spec fn deep_view(&self) -> UserV {
        UserV {
            unique_id: self.unique_id.value,
            username: self.username@,
            parent_groups: self.parent_groups.deep_view(),
            nodes: self.nodes.deep_view(),
        }
    }
}

/// Metadata attached to a user or group: free-form string pairs with unique
/// keys, and the resolved prefix, suffix and primary group.
#[derive(Clone, Debug)]
pub struct Metadata {
    pub meta: Vec<(String, String)>,
    pub prefix: Option<String>,
    pub suffix: Option<String>,
    pub primary_group: Option<String>,
}

/// Mathematical view of a `Metadata`.
#[verifier::ext_equal]
pub struct MetadataV {
    pub meta: Seq<(Seq<char>, Seq<char>)>,
    pub prefix: Option<Seq<char>>,
    pub suffix: Option<Seq<char>>,
    pub primary_group: Option<Seq<char>>,
}

impl DeepView for Metadata {
    type V = MetadataV;

    open spec fn deep_view(&self) -> MetadataV {
        MetadataV {
            meta: self.meta.deep_view(),
            prefix: self.prefix.deep_view(),
            suffix: self.suffix.deep_view(),
            primary_group: self.primary_group.deep_view(),
        }
    }
}

/// A group permission record.
#[derive(Clone, Debug)]
pub struct Group {
    pub name: String,
    pub display_name: Option<String>,
    pub weight: Option<i64>,
    pub nodes: Vec<Node>,
    pub metadata: Metadata,
}

/// Mathematical view of a `Group`.
#[verifier::ext_equal]
pub struct GroupV {
    pub name: Seq<char>,
    pub display_name: Option<Seq<char>>,
    pub weight: Option<i64>,
    pub nodes: Seq<NodeV>,
    pub metadata: MetadataV,
}

impl DeepView for Group {
    type V = GroupV;

    open spec fn deep_view(&self) -> GroupV {
        GroupV {
            name: self.name@,
            display_name: self.display_name.deep_view(),
            weight: self.weight,
            nodes: self.nodes.deep_view(),
            metadata: self.metadata.deep_view(),
        }
    }
}

/// The body of a group-creation request.
#[derive(Clone, Debug)]
pub struct GroupCreateRequest {
    pub name: String,
}

/// One match of a user search: the user and the nodes that matched.
#[derive(Clone, Debug)]
pub struct UserSearchResult {
    pub unique_id: Uuid,
    pub results: Vec<Node>,
}

/// Mathematical view of a `UserSearchResult`.
#[verifier::ext_equal]
pub struct UserSearchResultV {
    pub unique_id: u128,
    pub results: Seq<NodeV>,
}

impl DeepView for UserSearchResult {
    type V = UserSearchResultV;

    open spec fn deep_view(&self) -> UserSearchResultV {
        UserSearchResultV { unique_id: self.unique_id.value, results: self.results.deep_view() }
    }
}

/// One match of a group search: the group and the nodes that matched.
#[derive(Clone, Debug)]
pub struct GroupSearchResult {
    pub name: String,
    pub results: Vec<Node>,
}

/// Mathematical view of a `GroupSearchResult`.
#[verifier::ext_equal]
pub struct GroupSearchResultV {
    pub name: Seq<char>,
    pub results: Seq<NodeV>,
}

impl DeepView for GroupSearchResult {
    type V = GroupSearchResultV;

    open spec fn deep_view(&self) -> GroupSearchResultV {
        GroupSearchResultV { name: self.name@, results: self.results.deep_view() }
    }
}

/// The body of a username-update request.
#[derive(Clone, Debug)]
pub struct UsernameUpdateRequest {
    pub username: String,
}

/// The outcome of a permission check: whether it passed, and the node that
/// decided it, if any.
#[derive(Clone, Debug)]
pub struct PermissionCheckResult {
    pub result: bool,
    pub node: Option<Node>,
}

/// Mathematical view of a `PermissionCheckResult`.
#[verifier::ext_equal]
pub struct PermissionCheckResultV {
    pub result: bool,
    pub node: Option<NodeV>,
}

impl DeepView for PermissionCheckResult {
    type V = PermissionCheckResultV;

    open spec fn deep_view(&self) -> PermissionCheckResultV {
        PermissionCheckResultV { result: self.result, node: self.node.deep_view() }
    }
}

/// The body of a promotion or demotion request: the track to move along.
#[derive(Clone, Debug)]
pub struct TrackMoveRequest {
    pub track: String,
}

/// The outcome of a promotion or demotion.
#[derive(Clone, Debug)]
pub struct TrackMoveResponse {
    pub success: bool,
    pub status: String,
    pub group_from: String,
    pub group_to: String,
}

/// Mathematical view of a `TrackMoveResponse`.
#[verifier::ext_equal]
pub struct TrackMoveResponseV {
    pub success: bool,
    pub status: Seq<char>,
    pub group_from: Seq<char>,
    pub group_to: Seq<char>,
}

impl DeepView for TrackMoveResponse {
    type V = TrackMoveResponseV;

    open spec fn deep_view(&self) -> TrackMoveResponseV {
        TrackMoveResponseV {
            success: self.success,
            status: self.status@,
            group_from: self.group_from@,
            group_to: self.group_to@,
        }
    }
}

/// What an audit-log action was done to.
#[derive(Clone, Copy, PartialEq, Eq, Structural, Debug)]
pub enum ActionTargetType {
    User,
    Group,
    Track,
}

/// The canonical wire name of an action target type.
pub open spec fn action_target_type_name(t: ActionTargetType) -> Seq<char> {
    match t {
        ActionTargetType::User => "user"@,
        ActionTargetType::Group => "group"@,
        ActionTargetType::Track => "track"@,
    }
}

/// Who performed an audit-log action.
#[derive(Clone, Debug)]
pub struct ActionSource {
    pub unique_id: Uuid,
    pub name: String,
}

/// What an audit-log action was performed on.
#[derive(Clone, Debug)]
pub struct ActionTarget {
    pub unique_id: Option<Uuid>,
    pub name: String,
    pub target_type: ActionTargetType,
}

/// An audit-log entry submitted by the caller.
#[derive(Clone, Debug)]
pub struct Action {
    pub timestamp: Option<u64>,
    pub source: ActionSource,
    pub target: ActionTarget,
    pub description: String,
}


/// Mathematical view of an `ActionSource`.
#[verifier::ext_equal]
pub struct ActionSourceV {
    pub unique_id: u128,
    pub name: Seq<char>,
}

impl DeepView for ActionSource {
    type V = ActionSourceV;

    open spec fn deep_view(&self) -> ActionSourceV {
        ActionSourceV { unique_id: self.unique_id.value, name: self.name@ }
    }
}

/// Mathematical view of an `ActionTarget`.
#[verifier::ext_equal]
pub struct ActionTargetV {
    pub unique_id: Option<u128>,
    pub name: Seq<char>,
    pub target_type: ActionTargetType,
}

impl DeepView for ActionTarget {
    type V = ActionTargetV;

    open spec fn deep_view(&self) -> ActionTargetV {
        ActionTargetV {
            unique_id: self.unique_id.deep_view(),
            name: self.name@,
            target_type: self.target_type,
        }
    }
}

/// Mathematical view of an `Action`.
#[verifier::ext_equal]
pub struct ActionV {
    pub timestamp: Option<u64>,
    pub source: ActionSourceV,
    pub target: ActionTargetV,
    pub description: Seq<char>,
}

impl DeepView for Action {
    type V = ActionV;

    open spec fn deep_view(&self) -> ActionV {
        ActionV {
            timestamp: self.timestamp,
            source: self.source.deep_view(),
            target: self.target.deep_view(),
            description: self.description@,
        }
    }
}

} // verus!
