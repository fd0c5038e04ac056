//! The canonical bytes over which envelopes are signed: a compact JSON
//! object, and the text form of job identifiers.

use vstd::prelude::*;
use crate::hexcode::{hex_digit_char, hex_lower, lemma_hex_round_trip};

verus! {

/// How `serde_json` writes one byte of a string's UTF-8 bytes inside the
/// quotes: `"` and `\\` behind a backslash, the five control bytes with a
/// short escape as `\\b \\t \\n \\f \\r`, the other bytes below 0x20 as
/// `\\u00` and two lowercase hex digits, every other byte as it is.
pub open spec fn json_escape_byte(b: u8) -> Seq<u8> {
    if b == 0x22 {
        seq![0x5cu8, 0x22u8]
    } else if b == 0x5c {
        seq![0x5cu8, 0x5cu8]
    } else if b == 0x08 {
        seq![0x5cu8, 0x62u8]
    } else if b == 0x09 {
        seq![0x5cu8, 0x74u8]
    } else if b == 0x0a {
        seq![0x5cu8, 0x6eu8]
    } else if b == 0x0c {
        seq![0x5cu8, 0x66u8]
    } else if b == 0x0d {
        seq![0x5cu8, 0x72u8]
    } else if b < 0x20 {
        seq![
            0x5cu8,
            0x75u8,
            0x30u8,
            0x30u8,
            hex_digit_char(b as int / 16) as u8,
            hex_digit_char(b as int % 16) as u8,
        ]
    } else {
        seq![b]
    }
}

/// The escaped bytes of a string, byte by byte.
pub open spec fn json_escaped(bytes: Seq<u8>) -> Seq<u8>
    decreases bytes.len(),
{
    if bytes.len() == 0 {
        Seq::empty()
    } else {
        json_escaped(bytes.drop_last()) + json_escape_byte(bytes.last())
    }
}

/// The JSON string literal that `serde_json` writes for a text: a quote,
/// the escaped UTF-8 bytes, a quote.
pub open spec fn json_string_literal(text: Seq<char>) -> Seq<u8> {
    seq![0x22u8] + json_escaped(vstd::utf8::encode_utf8(text)) + seq![0x22u8]
}

/// The decimal digits of a number, without leading zeros.
pub open spec fn decimal_digits(n: nat) -> Seq<u8>
    decreases n,
{
    if n < 10 {
        seq![(48 + n) as u8]
    } else {
        decimal_digits(n / 10) + seq![(48 + n % 10) as u8]
    }
}

/// Calls `serde_json::to_vec` on a string slice. It writes the string
/// literal into a `Vec<u8>` (`format_escaped_str` with the `ESCAPE` table
/// and `write_char_escape` of the compact formatter); writing into a `Vec`
/// does not fail.
#[verifier::external_body]
fn serde_json_str(text: &str) -> (r: Result<Vec<u8>, serde_json::Error>)
    ensures
        match r {
            Ok(v) => v@ == json_string_literal(text@),
            Err(_) => false,
        },
{
    serde_json::to_vec(text)
}

/// Calls `serde_json::to_vec` on a `u64`. It writes the number's decimal
/// digits (`write_u64` of the compact formatter) into a `Vec<u8>`, which
/// does not fail.
#[verifier::external_body]
fn serde_json_u64(n: u64) -> (r: Result<Vec<u8>, serde_json::Error>)
    ensures
        match r {
            Ok(v) => v@ == decimal_digits(n as nat),
            Err(_) => false,
        },
{
    serde_json::to_vec(&n)
}

/// The JSON string literal of a text.
pub fn json_text(text: &str) -> (r: Vec<u8>)
    ensures
        r@ == json_string_literal(text@),
{
    match serde_json_str(text) {
        Ok(v) => v,
        Err(_) => {
            proof {
                assert(false);
            }
            Vec::new()
        },
    }
}

/// The JSON number of an unsigned integer.
pub fn json_number(n: u64) -> (r: Vec<u8>)
    ensures
        r@ == decimal_digits(n as nat),
{
    match serde_json_u64(n) {
        Ok(v) => v,
        Err(_) => {
            proof {
                assert(false);
            }
            Vec::new()
        },
    }
}

/// One member `"key":value` of an object, the value already written as JSON.
pub open spec fn json_member(key: Seq<char>, value: Seq<u8>) -> Seq<u8> {
    json_string_literal(key) + seq![58u8] + value
}

/// The members of an object in order, separated by commas.
pub open spec fn json_members(members: Seq<(Seq<char>, Seq<u8>)>) -> Seq<u8>
    decreases members.len(),
{
    if members.len() == 0 {
        Seq::empty()
    } else if members.len() == 1 {
        json_member(members[0].0, members[0].1)
    } else {
        json_members(members.drop_last()) + seq![44u8] + json_member(
            members.last().0,
            members.last().1,
        )
    }
}

/// A compact JSON object, as `serde_json` writes a struct: `{`, the members,
/// `}`.
pub open spec fn json_object(members: Seq<(Seq<char>, Seq<u8>)>) -> Seq<u8> {
    seq![123u8] + json_members(members) + seq![125u8]
}

/// Escaping works byte by byte from the front as well.
proof fn lemma_escaped_cons(b: u8, rest: Seq<u8>)
    ensures
        json_escaped(seq![b] + rest) == json_escape_byte(b) + json_escaped(rest),
    decreases rest.len(),
{
    let s = seq![b] + rest;
    if rest.len() == 0 {
        assert(s.drop_last() =~= Seq::<u8>::empty());
        assert(json_escaped(Seq::<u8>::empty()) == Seq::<u8>::empty());
        assert(json_escape_byte(b) + json_escaped(rest) =~= json_escape_byte(b));
        assert(json_escaped(s) =~= json_escape_byte(b));
    } else {
        assert(s.drop_last() =~= seq![b] + rest.drop_last());
        lemma_escaped_cons(b, rest.drop_last());
        assert(json_escaped(s) =~= json_escape_byte(b) + json_escaped(rest));
    }
}

/// The escape of a byte never starts with a quote, and it is either the
/// byte itself or starts with a backslash.
proof fn lemma_escape_byte_shape(b: u8)
    ensures
        json_escape_byte(b).len() >= 1,
        json_escape_byte(b)[0] != 0x22u8,
        json_escape_byte(b)[0] == 0x5cu8 || (json_escape_byte(b) == seq![b] && b != 0x5cu8),
{
}

/// The escape of a byte is found again at the front of any text that
/// starts with it.
proof fn lemma_escape_unit_unique(a: u8, b: u8, r1: Seq<u8>, r2: Seq<u8>)
    requires
        json_escape_byte(a) + r1 == json_escape_byte(b) + r2,
    ensures
        a == b,
        r1 == r2,
{
    let s = json_escape_byte(a) + r1;
    let ea = json_escape_byte(a);
    let eb = json_escape_byte(b);
    lemma_escape_byte_shape(a);
    lemma_escape_byte_shape(b);
    assert(s[0] == ea[0]);
    assert(s[0] == eb[0]);
    if ea[0] != 0x5cu8 {
        assert(ea == seq![a]);
        assert(eb == seq![b]);
        assert(a == s[0]);
        assert(b == s[0]);
    } else {
        assert(eb[0] == 0x5cu8);
        assert(ea.len() >= 2 && eb.len() >= 2);
        assert(s[1] == ea[1] && s[1] == eb[1]);
        if ea[1] == 0x75u8 {
            assert(ea.len() == 6 && eb.len() == 6);
            assert(s[4] == ea[4] && s[4] == eb[4]);
            assert(s[5] == ea[5] && s[5] == eb[5]);
            assert(a < 0x20 && b < 0x20);
            assert(a as int / 16 == b as int / 16);
            assert(a as int % 16 == b as int % 16);
        }
    }
    assert(ea == eb);
    assert(r1 =~= s.skip(ea.len() as int));
    assert(r2 =~= s.skip(eb.len() as int));
}

/// An escaped text ends at the first unescaped quote.
proof fn lemma_escaped_delimited(x: Seq<u8>, y: Seq<u8>, r1: Seq<u8>, r2: Seq<u8>)
    requires
        json_escaped(x) + (seq![0x22u8] + r1) == json_escaped(y) + (seq![0x22u8] + r2),
    ensures
        x == y,
        r1 == r2,
    decreases x.len() + y.len(),
{
    let s = json_escaped(x) + (seq![0x22u8] + r1);
    if x.len() == 0 {
        assert(x =~= Seq::<u8>::empty());
        if y.len() > 0 {
            assert(y =~= seq![y[0]] + y.skip(1));
            lemma_escaped_cons(y[0], y.skip(1));
            lemma_escape_byte_shape(y[0]);
            assert(s[0] == 0x22u8);
            assert(s[0] == json_escape_byte(y[0])[0]);
        }
        assert(y =~= Seq::<u8>::empty());
        assert(r1 =~= s.skip(1));
        assert(r2 =~= s.skip(1));
    } else if y.len() == 0 {
        assert(x =~= seq![x[0]] + x.skip(1));
        lemma_escaped_cons(x[0], x.skip(1));
        lemma_escape_byte_shape(x[0]);
        assert(s[0] == json_escape_byte(x[0])[0]);
        assert(s =~= seq![0x22u8] + r2);
    } else {
        assert(x =~= seq![x[0]] + x.skip(1));
        assert(y =~= seq![y[0]] + y.skip(1));
        lemma_escaped_cons(x[0], x.skip(1));
        lemma_escaped_cons(y[0], y.skip(1));
        assert(s =~= json_escape_byte(x[0]) + (json_escaped(x.skip(1)) + (seq![0x22u8] + r1)));
        assert(s =~= json_escape_byte(y[0]) + (json_escaped(y.skip(1)) + (seq![0x22u8] + r2)));
        lemma_escape_unit_unique(
            x[0],
            y[0],
            json_escaped(x.skip(1)) + (seq![0x22u8] + r1),
            json_escaped(y.skip(1)) + (seq![0x22u8] + r2),
        );
        lemma_escaped_delimited(x.skip(1), y.skip(1), r1, r2);
    }
}

/// A JSON string literal ends where it ends: what follows it, and the
/// text it stands for, are found again.
pub proof fn lemma_string_literal_delimited(x: Seq<char>, y: Seq<char>, r1: Seq<u8>, r2: Seq<u8>)
    requires
        json_string_literal(x) + r1 == json_string_literal(y) + r2,
    ensures
        x == y,
        r1 == r2,
{
    let ex = vstd::utf8::encode_utf8(x);
    let ey = vstd::utf8::encode_utf8(y);
    let s = json_string_literal(x) + r1;
    assert(s.skip(1) =~= json_escaped(ex) + (seq![0x22u8] + r1));
    assert(s.skip(1) =~= json_escaped(ey) + (seq![0x22u8] + r2));
    lemma_escaped_delimited(ex, ey, r1, r2);
    vstd::utf8::encode_utf8_decode_utf8(x);
    vstd::utf8::encode_utf8_decode_utf8(y);
}

/// The number that a run of decimal digits writes.
pub open spec fn digits_value(d: Seq<u8>) -> int
    decreases d.len(),
{
    if d.len() == 0 {
        0
    } else {
        digits_value(d.drop_last()) * 10 + (d.last() - 48)
    }
}

/// The decimal digits of `n` are digits, and they write `n`.
proof fn lemma_decimal_digits(n: nat)
    ensures
        decimal_digits(n).len() >= 1,
        forall|i: int| 0 <= i < decimal_digits(n).len() ==> 48 <= #[trigger] decimal_digits(n)[i] <= 57,
        digits_value(decimal_digits(n)) == n,
    decreases n,
{
    if n >= 10 {
        lemma_decimal_digits(n / 10);
        let d = decimal_digits(n);
        assert(d.drop_last() =~= decimal_digits(n / 10));
        assert(d.last() == (48 + n % 10) as u8);
        assert(d.last() - 48 == n % 10);
        assert((n / 10) * 10 + n % 10 == n) by (nonlinear_arith);
        assert(digits_value(d) == digits_value(d.drop_last()) * 10 + (d.last() - 48));
    } else {
        let d = decimal_digits(n);
        assert(d.drop_last() =~= Seq::<u8>::empty());
        assert(digits_value(Seq::<u8>::empty()) == 0);
        assert(d.last() - 48 == n);
        assert(digits_value(d) == digits_value(d.drop_last()) * 10 + (d.last() - 48));
    }
}

/// A decimal number ends at the first byte that is no digit.
pub proof fn lemma_decimal_delimited(m: nat, n: nat, c: u8, r1: Seq<u8>, r2: Seq<u8>)
    requires
        !(48 <= c <= 57),
        decimal_digits(m) + (seq![c] + r1) == decimal_digits(n) + (seq![c] + r2),
    ensures
        m == n,
        r1 == r2,
{
    lemma_decimal_digits(m);
    lemma_decimal_digits(n);
    let dm = decimal_digits(m);
    let dn = decimal_digits(n);
    let s = dm + (seq![c] + r1);
    assert(s[dm.len() as int] == c);
    assert(s[dn.len() as int] == c);
    if dm.len() < dn.len() {
        assert(s[dm.len() as int] == dn[dm.len() as int]);
    }
    if dn.len() < dm.len() {
        assert(s[dn.len() as int] == dm[dn.len() as int]);
    }
    assert(dm.len() == dn.len());
    assert(dm =~= s.take(dm.len() as int));
    assert(dn =~= s.take(dn.len() as int));
    assert(r1 =~= s.skip(dm.len() as int + 1));
    assert(r2 =~= s.skip(dn.len() as int + 1));
}

/// A member value of a canonical object: a text or an unsigned number.
pub ghost enum JsonField {
    Text(Seq<char>),
    Number(nat),
}

/// How a member value is written.
pub open spec fn json_field_bytes(f: JsonField) -> Seq<u8> {
    match f {
        JsonField::Text(t) => json_string_literal(t),
        JsonField::Number(n) => decimal_digits(n),
    }
}

/// Members with their values written as JSON.
pub open spec fn encode_fields(fields: Seq<(Seq<char>, JsonField)>) -> Seq<(Seq<char>, Seq<u8>)> {
    Seq::new(fields.len(), |i: int| (fields[i].0, json_field_bytes(fields[i].1)))
}

/// Two member lists with the same keys and the same kind of value at each
/// place.
pub open spec fn same_shape(a: Seq<(Seq<char>, JsonField)>, b: Seq<(Seq<char>, JsonField)>) -> bool {
    &&& a.len() == b.len()
    &&& forall|i: int|
        0 <= i < a.len() ==> (#[trigger] a[i]).0 == b[i].0 && (a[i].1 is Text <==> b[i].1 is Text)
}

/// The members of an object, taken from the front.
proof fn lemma_members_cons(m: (Seq<char>, Seq<u8>), rest: Seq<(Seq<char>, Seq<u8>)>)
    requires
        rest.len() > 0,
    ensures
        json_members(seq![m] + rest) == json_member(m.0, m.1) + seq![44u8] + json_members(rest),
    decreases rest.len(),
{
    let s = seq![m] + rest;
    assert(s.len() > 1);
    assert(s.last() == rest.last());
    if rest.len() == 1 {
        assert(s.drop_last() =~= seq![m]);
        assert(rest[0] == rest.last());
        assert(seq![m].len() == 1 && seq![m][0] == m);
        assert(json_members(seq![m]) == json_member(m.0, m.1));
        assert(json_members(rest) == json_member(rest[0].0, rest[0].1));
        assert(json_members(s) == json_members(s.drop_last()) + seq![44u8] + json_member(
            s.last().0,
            s.last().1,
        ));
    } else {
        assert(s.drop_last() =~= seq![m] + rest.drop_last());
        lemma_members_cons(m, rest.drop_last());
        assert(json_members(s) =~= json_member(m.0, m.1) + seq![44u8] + json_members(rest));
    }
}

/// A member value ends at the byte that follows it when that byte is no
/// digit.
proof fn lemma_field_delimited(x: JsonField, y: JsonField, c: u8, r1: Seq<u8>, r2: Seq<u8>)
    requires
        x is Text <==> y is Text,
        !(48 <= c <= 57),
        json_field_bytes(x) + (seq![c] + r1) == json_field_bytes(y) + (seq![c] + r2),
    ensures
        x == y,
        r1 == r2,
{
    match (x, y) {
        (JsonField::Text(tx), JsonField::Text(ty)) => {
            lemma_string_literal_delimited(tx, ty, seq![c] + r1, seq![c] + r2);
            assert(r1 =~= (seq![c] + r1).skip(1));
            assert(r2 =~= (seq![c] + r2).skip(1));
        },
        (JsonField::Number(m), JsonField::Number(n)) => {
            lemma_decimal_delimited(m, n, c, r1, r2);
        },
        _ => {},
    }
}

proof fn lemma_members_delimited(
    a: Seq<(Seq<char>, JsonField)>,
    b: Seq<(Seq<char>, JsonField)>,
    c: u8,
    r1: Seq<u8>,
    r2: Seq<u8>,
)
    requires
        same_shape(a, b),
        a.len() > 0,
        !(48 <= c <= 57),
        json_members(encode_fields(a)) + (seq![c] + r1) == json_members(encode_fields(b)) + (seq![c] + r2),
    ensures
        a == b,
        r1 == r2,
    decreases a.len(),
{
    let ea = encode_fields(a);
    let eb = encode_fields(b);
    let k = a[0].0;
    assert(b[0].0 == k);
    let p = json_string_literal(k) + seq![58u8];
    if a.len() == 1 {
        assert(json_members(ea) == json_member(k, json_field_bytes(a[0].1)));
        assert(json_members(eb) == json_member(k, json_field_bytes(b[0].1)));
        let s = json_members(ea) + (seq![c] + r1);
        assert(s.skip(p.len() as int) =~= json_field_bytes(a[0].1) + (seq![c] + r1));
        assert(s.skip(p.len() as int) =~= json_field_bytes(b[0].1) + (seq![c] + r2));
        lemma_field_delimited(a[0].1, b[0].1, c, r1, r2);
        assert(a =~= b);
    } else {
        let ta = a.skip(1);
        let tb = b.skip(1);
        assert(ea =~= seq![ea[0]] + encode_fields(ta));
        assert(eb =~= seq![eb[0]] + encode_fields(tb));
        lemma_members_cons(ea[0], encode_fields(ta));
        lemma_members_cons(eb[0], encode_fields(tb));
        let ra = json_members(encode_fields(ta)) + (seq![c] + r1);
        let rb = json_members(encode_fields(tb)) + (seq![c] + r2);
        let s = json_members(ea) + (seq![c] + r1);
        assert(s =~= p + (json_field_bytes(a[0].1) + (seq![44u8] + ra)));
        assert(s =~= p + (json_field_bytes(b[0].1) + (seq![44u8] + rb)));
        assert(s.skip(p.len() as int) =~= json_field_bytes(a[0].1) + (seq![44u8] + ra));
        assert(s.skip(p.len() as int) =~= json_field_bytes(b[0].1) + (seq![44u8] + rb));
        lemma_field_delimited(a[0].1, b[0].1, 44u8, ra, rb);
        assert(same_shape(ta, tb)) by {
            assert forall|i: int| 0 <= i < ta.len() implies (#[trigger] ta[i]).0 == tb[i].0 && (ta[i].1 is Text
                <==> tb[i].1 is Text) by {
                assert(ta[i] == a[i + 1]);
                assert(tb[i] == b[i + 1]);
            }
        }
        lemma_members_delimited(ta, tb, c, r1, r2);
        assert(a =~= seq![a[0]] + ta);
        assert(b =~= seq![b[0]] + tb);
    }
}

/// Two canonical objects of the same shape are the same bytes only when
/// all their members are the same.
pub proof fn lemma_json_object_injective(a: Seq<(Seq<char>, JsonField)>, b: Seq<(Seq<char>, JsonField)>)
    requires
        same_shape(a, b),
        a.len() > 0,
        json_object(encode_fields(a)) == json_object(encode_fields(b)),
    ensures
        a == b,
{
    let s = json_object(encode_fields(a));
    assert(s.skip(1) =~= json_members(encode_fields(a)) + (seq![125u8] + Seq::<u8>::empty()));
    assert(s.skip(1) =~= json_members(encode_fields(b)) + (seq![125u8] + Seq::<u8>::empty()));
    lemma_members_delimited(a, b, 125u8, Seq::empty(), Seq::empty());
}

pub open spec fn member_views(members: Seq<(&str, Vec<u8>)>) -> Seq<(Seq<char>, Seq<u8>)> {
    members.map_values(|m: (&str, Vec<u8>)| (m.0@, m.1@))
}

/// Appends `src` to `out`.
fn append_bytes(out: &mut Vec<u8>, src: &Vec<u8>)
    ensures
        final(out)@ == old(out)@ + src@,
{
    let mut i: usize = 0;
    while i < src.len()
        invariant
            0 <= i <= src@.len(),
            out@ == old(out)@ + src@.subrange(0, i as int),
        decreases src@.len() - i,
    {
        out.push(src[i]);
        i = i + 1;
        assert(src@.subrange(0, i as int) =~= src@.subrange(0, i - 1) + seq![src@[i - 1]]);
    }
    assert(src@.subrange(0, src@.len() as int) =~= src@);
}

/// The compact JSON object of the given members, each value already
/// written as JSON.
pub fn encode_json_object(members: &Vec<(&str, Vec<u8>)>) -> (r: Vec<u8>)
    ensures
        r@ == json_object(member_views(members@)),
{
    let ghost views = member_views(members@);
    let mut out: Vec<u8> = Vec::new();
    out.push(123u8);
    let mut i: usize = 0;
    while i < members.len()
        invariant
            0 <= i <= members@.len(),
            views == member_views(members@),
            out@ == seq![123u8] + json_members(views.take(i as int)),
        decreases members@.len() - i,
    {
        let (k, v) = &members[i];
        proof {
            let t = views.take(i + 1);
            assert(t.drop_last() =~= views.take(i as int));
            assert(t.last() == (k@, v@));
        }
        let kb = json_text(k);
        if i > 0 {
            out.push(44u8);
        }
        append_bytes(&mut out, &kb);
        out.push(58u8);
        append_bytes(&mut out, v);
        proof {
            let t = views.take(i + 1);
            if i == 0 {
                assert(views.take(0) =~= Seq::<(Seq<char>, Seq<u8>)>::empty());
                assert(t.len() == 1);
            }
            assert(out@ =~= seq![123u8] + json_members(t));
        }
        i = i + 1;
    }
    out.push(125u8);
    proof {
        assert(views.take(members@.len() as int) =~= views);
        assert(out@ =~= seq![123u8] + json_members(views) + seq![125u8]);
    }
    out
}

/// The hyphenated lowercase text of a 16-byte identifier:
/// 8-4-4-4-12 hexadecimal digits.
pub open spec fn uuid_hyphenated(id: Seq<u8>) -> Seq<char> {
    hex_lower(id.subrange(0, 4)) + seq!['-'] + hex_lower(id.subrange(4, 6)) + seq!['-']
        + hex_lower(id.subrange(6, 8)) + seq!['-'] + hex_lower(id.subrange(8, 10)) + seq!['-']
        + hex_lower(id.subrange(10, 16))
}

/// Two byte strings with the same hex text are the same.
pub proof fn lemma_hex_lower_injective(x: Seq<u8>, y: Seq<u8>)
    requires
        hex_lower(x) == hex_lower(y),
    ensures
        x == y,
{
    lemma_hex_round_trip(x);
    lemma_hex_round_trip(y);
}

/// Two identifiers with the same hyphenated text are the same.
pub proof fn lemma_uuid_injective(a: Seq<u8>, b: Seq<u8>)
    requires
        a.len() == 16,
        b.len() == 16,
        uuid_hyphenated(a) == uuid_hyphenated(b),
    ensures
        a == b,
{
    let u = uuid_hyphenated(a);
    assert(hex_lower(a.subrange(0, 4)) =~= u.subrange(0, 8));
    assert(hex_lower(b.subrange(0, 4)) =~= u.subrange(0, 8));
    assert(hex_lower(a.subrange(4, 6)) =~= u.subrange(9, 13));
    assert(hex_lower(b.subrange(4, 6)) =~= u.subrange(9, 13));
    assert(hex_lower(a.subrange(6, 8)) =~= u.subrange(14, 18));
    assert(hex_lower(b.subrange(6, 8)) =~= u.subrange(14, 18));
    assert(hex_lower(a.subrange(8, 10)) =~= u.subrange(19, 23));
    assert(hex_lower(b.subrange(8, 10)) =~= u.subrange(19, 23));
    assert(hex_lower(a.subrange(10, 16)) =~= u.subrange(24, 36));
    assert(hex_lower(b.subrange(10, 16)) =~= u.subrange(24, 36));
    lemma_hex_lower_injective(a.subrange(0, 4), b.subrange(0, 4));
    lemma_hex_lower_injective(a.subrange(4, 6), b.subrange(4, 6));
    lemma_hex_lower_injective(a.subrange(6, 8), b.subrange(6, 8));
    lemma_hex_lower_injective(a.subrange(8, 10), b.subrange(8, 10));
    lemma_hex_lower_injective(a.subrange(10, 16), b.subrange(10, 16));
    assert forall|i: int| 0 <= i < 16 implies a[i] == b[i] by {
        if i < 4 {
            assert(a[i] == a.subrange(0, 4)[i] && b[i] == b.subrange(0, 4)[i]);
        } else if i < 6 {
            assert(a[i] == a.subrange(4, 6)[i - 4] && b[i] == b.subrange(4, 6)[i - 4]);
        } else if i < 8 {
            assert(a[i] == a.subrange(6, 8)[i - 6] && b[i] == b.subrange(6, 8)[i - 6]);
        } else if i < 10 {
            assert(a[i] == a.subrange(8, 10)[i - 8] && b[i] == b.subrange(8, 10)[i - 8]);
        } else {
            assert(a[i] == a.subrange(10, 16)[i - 10] && b[i] == b.subrange(10, 16)[i - 10]);
        }
    }
    assert(a =~= b);
}

/// Calls `Uuid::to_string` on the identifier with these bytes, which writes
/// its hyphenated lowercase form (the form its `Serialize` writes in JSON).
#[verifier::external_body]
fn uuid_text(id: &[u8; 16]) -> (r: String)
    ensures
        r@ == uuid_hyphenated(id@),
{
    uuid::Uuid::from_bytes(*id).to_string()
}

/// Calls `Uuid::new_v4`: random bytes except that the version nibble is 4
/// and the variant bits are `10`.
#[verifier::external_body]
pub(crate) fn random_uuid_v4() -> (r: [u8; 16])
    ensures
        r@[6] / 16 == 4,
        r@[8] / 64 == 2,
{
    *uuid::Uuid::new_v4().as_bytes()
}

/// The hyphenated text of a job identifier.
pub fn job_id_text(id: &[u8; 16]) -> (r: String)
    ensures
        r@ == uuid_hyphenated(id@),
        r@.len() == 36,
{
    uuid_text(id)
}

} // verus!
