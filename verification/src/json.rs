//! JSON framing of the wire bodies. Emission is verified code: strings are
//! escaped character for character (every non-ASCII character as a `\u`
//! escape, astral ones as a surrogate pair), numbers in decimal, byte
//! strings as arrays of numbers. Parsing of incoming bodies goes through
//! serde_json behind trusted items whose results carry names.
use vstd::prelude::*;
use vstd::string::StringSliceAdditionalSpecFns;

verus! {

broadcast use vstd::string::group_string_axioms;

/// The lowercase hex digit of a nibble.
pub open spec fn spec_hex_digit(n: int) -> u8 {
    if n < 10 {
        (0x30 + n) as u8
    } else {
        (0x57 + n) as u8
    }
}

/// Four lowercase hex digits of a 16-bit value.
pub open spec fn spec_hex4(n: int) -> Seq<u8> {
    seq![
        spec_hex_digit((n / 0x1000) % 0x10),
        spec_hex_digit((n / 0x100) % 0x10),
        spec_hex_digit((n / 0x10) % 0x10),
        spec_hex_digit(n % 0x10),
    ]
}

/// The bytes a character contributes inside a JSON string: quote and
/// backslash escaped, other printable ASCII verbatim, everything else as
/// `\u` escapes (a surrogate pair above the basic plane).
pub open spec fn spec_esc_char(c: char) -> Seq<u8> {
    let u = c as u32;
    if c == '"' {
        seq![0x5Cu8, 0x22u8]
    } else if c == '\\' {
        seq![0x5Cu8, 0x5Cu8]
    } else if 0x20 <= u && u < 0x80 {
        seq![u as u8]
    } else if u < 0x10000 {
        seq![0x5Cu8, 0x75u8] + spec_hex4(u as int)
    } else {
        seq![0x5Cu8, 0x75u8] + spec_hex4(0xD800 + (u - 0x10000) / 0x400) + seq![0x5Cu8, 0x75u8]
            + spec_hex4(0xDC00 + (u - 0x10000) % 0x400)
    }
}

/// The escaped body of a JSON string.
pub open spec fn spec_str_body(s: Seq<char>) -> Seq<u8>
    decreases s.len(),
{
    if s.len() == 0 {
        Seq::empty()
    } else {
        spec_str_body(s.drop_last()) + spec_esc_char(s.last())
    }
}

/// A JSON string: the escaped body in quotes.
pub open spec fn spec_json_string(s: Seq<char>) -> Seq<u8> {
    seq![0x22u8] + spec_str_body(s) + seq![0x22u8]
}

/// The decimal digits of a natural number.
pub open spec fn spec_dec(n: nat) -> Seq<u8>
    decreases n,
{
    if n < 10 {
        seq![(0x30 + n) as u8]
    } else {
        spec_dec(n / 10) + seq![(0x30 + n % 10) as u8]
    }
}

/// A JSON number for a possibly negative integer.
pub open spec fn spec_dec_i64(n: int) -> Seq<u8> {
    if n < 0 {
        seq![0x2Du8] + spec_dec((-n) as nat)
    } else {
        spec_dec(n as nat)
    }
}

/// The comma-separated body of a JSON array of numbers.
pub open spec fn spec_bytes_body(b: Seq<u8>) -> Seq<u8>
    decreases b.len(),
{
    if b.len() == 0 {
        Seq::empty()
    } else if b.len() == 1 {
        spec_dec(b[0] as nat)
    } else {
        spec_bytes_body(b.drop_last()) + seq![0x2Cu8] + spec_dec(b.last() as nat)
    }
}

/// A byte string as a JSON array of numbers.
pub open spec fn spec_json_bytes(b: Seq<u8>) -> Seq<u8> {
    seq![0x5Bu8] + spec_bytes_body(b) + seq![0x5Du8]
}

/// Appends the UTF-8 bytes of a literal.
pub fn push_lit(out: &mut Vec<u8>, lit: &str)
    ensures
        final(out)@ == old(out)@ + vstd::utf8::encode_utf8(lit@),
{
    let mut bs = lit.as_bytes_vec();
    out.append(&mut bs);
}

/// Appends four lowercase hex digits of `n % 0x10000`.
fn push_hex4(out: &mut Vec<u8>, n: u32)
    requires
        n < 0x10000,
    ensures
        final(out)@ == old(out)@ + spec_hex4(n as int),
{
    let d0 = hex_digit((n / 0x1000) % 0x10);
    let d1 = hex_digit((n / 0x100) % 0x10);
    let d2 = hex_digit((n / 0x10) % 0x10);
    let d3 = hex_digit(n % 0x10);
    out.push(d0);
    out.push(d1);
    out.push(d2);
    out.push(d3);
    proof {
        assert(out@ =~= old(out)@ + spec_hex4(n as int));
    }
}

/// The lowercase hex digit of a nibble.
fn hex_digit(n: u32) -> (r: u8)
    requires
        n < 0x10,
    ensures
        r == spec_hex_digit(n as int),
{
    if n < 10 {
        (0x30 + n) as u8
    } else {
        (0x57 + n) as u8
    }
}

/// Appends the escape of one character.
fn push_esc_char(out: &mut Vec<u8>, c: char)
    ensures
        final(out)@ == old(out)@ + spec_esc_char(c),
{
    let u = c as u32;
    if c == '"' {
        out.push(0x5C);
        out.push(0x22);
        proof {
            assert(out@ =~= old(out)@ + spec_esc_char(c));
        }
    } else if c == '\\' {
        out.push(0x5C);
        out.push(0x5C);
        proof {
            assert(out@ =~= old(out)@ + spec_esc_char(c));
        }
    } else if 0x20 <= u && u < 0x80 {
        out.push(u as u8);
        proof {
            assert(out@ =~= old(out)@ + spec_esc_char(c));
        }
    } else if u < 0x10000 {
        out.push(0x5C);
        out.push(0x75);
        push_hex4(out, u);
        proof {
            assert(out@ =~= old(out)@ + spec_esc_char(c));
        }
    } else {
        proof {
            vstd::utf8::char_is_scalar(c);
        }
        out.push(0x5C);
        out.push(0x75);
        push_hex4(out, 0xD800 + (u - 0x10000) / 0x400);
        out.push(0x5C);
        out.push(0x75);
        push_hex4(out, 0xDC00 + (u - 0x10000) % 0x400);
        proof {
            assert(out@ =~= old(out)@ + spec_esc_char(c));
        }
    }
}

/// Appends a JSON string: `s` escaped, in quotes.
pub fn push_json_string(out: &mut Vec<u8>, s: &str)
    ensures
        final(out)@ == old(out)@ + spec_json_string(s@),
{
    let len = s.unicode_len();
    out.push(0x22);
    let ghost base = out@;
    let mut i: usize = 0;
    proof {
        assert(s@.take(0) =~= Seq::<char>::empty());
    }
    while i < len
        invariant
            i <= len,
            len == s@.len(),
            out@ == base + spec_str_body(s@.take(i as int)),
        decreases len - i,
    {
        let c = s.get_char(i);
        push_esc_char(out, c);
        proof {
            assert(s@.take(i + 1).drop_last() =~= s@.take(i as int));
            assert(s@.take(i + 1).last() == s@[i as int]);
        }
        i += 1;
    }
    out.push(0x22);
    proof {
        assert(s@.take(len as int) =~= s@);
        assert(out@ =~= old(out)@ + spec_json_string(s@));
    }
}

/// Appends the decimal digits of `n`.
pub fn push_dec_u64(out: &mut Vec<u8>, n: u64)
    ensures
        final(out)@ == old(out)@ + spec_dec(n as nat),
    decreases n,
{
    if n < 10 {
        out.push(0x30 + n as u8);
        proof {
            assert(out@ =~= old(out)@ + spec_dec(n as nat));
        }
    } else {
        push_dec_u64(out, n / 10);
        out.push(0x30 + (n % 10) as u8);
        proof {
            assert(out@ =~= old(out)@ + spec_dec(n as nat));
        }
    }
}

/// Appends a possibly negative decimal number.
pub fn push_dec_i64(out: &mut Vec<u8>, n: i64)
    ensures
        final(out)@ == old(out)@ + spec_dec_i64(n as int),
{
    if n < 0 {
        out.push(0x2D);
        let m: u64 = if n == i64::MIN {
            0x8000_0000_0000_0000u64
        } else {
            (-n) as u64
        };
        push_dec_u64(out, m);
        proof {
            assert(out@ =~= old(out)@ + spec_dec_i64(n as int));
        }
    } else {
        push_dec_u64(out, n as u64);
    }
}

/// Extending a byte string extends its array body.
proof fn lemma_bytes_body_push(b: Seq<u8>, v: u8)
    ensures
        spec_bytes_body(b.push(v)) == if b.len() == 0 {
            spec_dec(v as nat)
        } else {
            spec_bytes_body(b) + seq![0x2Cu8] + spec_dec(v as nat)
        },
{
    assert(b.push(v).drop_last() =~= b);
    assert(b.push(v).last() == v);
    if b.len() == 0 {
        assert(spec_bytes_body(b.push(v)) == spec_dec(v as nat));
    }
}

/// Appends a byte string as a JSON array of numbers.
pub fn push_json_bytes(out: &mut Vec<u8>, b: &Vec<u8>)
    ensures
        final(out)@ == old(out)@ + spec_json_bytes(b@),
{
    let len = b.len();
    out.push(0x5B);
    let ghost base = out@;
    let mut i: usize = 0;
    proof {
        assert(b@.take(0) =~= Seq::<u8>::empty());
    }
    while i < len
        invariant
            i <= len,
            len == b@.len(),
            out@ == base + spec_bytes_body(b@.take(i as int)),
        decreases len - i,
    {
        if i > 0 {
            out.push(0x2C);
        }
        push_dec_u64(out, b[i] as u64);
        proof {
            assert(b@.take(i + 1) =~= b@.take(i as int).push(b@[i as int]));
            lemma_bytes_body_push(b@.take(i as int), b@[i as int]);
            assert(out@ =~= base + spec_bytes_body(b@.take(i + 1)));
        }
        i += 1;
    }
    out.push(0x5D);
    proof {
        assert(b@.take(len as int) =~= b@);
        assert(out@ =~= old(out)@ + spec_json_bytes(b@));
    }
}


/// What serde_json yields for a JSON object of string fields: the entries,
/// sorted by key. Deterministic in the input bytes.
pub uninterp spec fn json_string_map_of(data: Seq<u8>) -> Option<Seq<(Seq<char>, Seq<char>)>>;

/// Relies on serde_json::from_slice into a string-to-string BTreeMap: the
/// result depends on the input bytes alone, the entries come out with unique
/// keys, and any input that is not a JSON object of string fields fails.
#[verifier::external_body]
pub(crate) fn parse_string_map(data: &Vec<u8>) -> (r: Option<Vec<(String, String)>>)
    ensures
        match r {
            Some(v) => {
                &&& json_string_map_of(data@) matches Some(s)
                &&& s.len() == v@.len()
                &&& (forall|i: int| 0 <= i < v@.len() ==> s[i] == (#[trigger] v@[i].0@, v@[i].1@))
                &&& (forall|i: int, j: int| 0 <= i < j < v@.len() ==> v@[i].0@ != v@[j].0@)
            },
            None => json_string_map_of(data@) is None,
        },
{
    let m: std::collections::BTreeMap<String, String> = serde_json::from_slice(
        data.as_slice(),
    ).ok()?;
    Some(m.into_iter().collect())
}

/// What serde_json yields for a JSON object of byte-array fields: the
/// entries, sorted by key. Deterministic in the input bytes.
pub uninterp spec fn json_bytes_map_of(data: Seq<u8>) -> Option<Seq<(Seq<char>, Seq<u8>)>>;

/// Relies on serde_json::from_slice into a string-to-bytes BTreeMap: the
/// result depends on the input bytes alone, the entries come out with unique
/// keys, and any input that is not a JSON object of arrays of numbers in
/// byte range fails.
#[verifier::external_body]
pub(crate) fn parse_bytes_map(data: &Vec<u8>) -> (r: Option<Vec<(String, Vec<u8>)>>)
    ensures
        match r {
            Some(v) => {
                &&& json_bytes_map_of(data@) matches Some(s)
                &&& s.len() == v@.len()
                &&& (forall|i: int| 0 <= i < v@.len() ==> s[i] == (#[trigger] v@[i].0@, v@[i].1@))
                &&& (forall|i: int, j: int| 0 <= i < j < v@.len() ==> v@[i].0@ != v@[j].0@)
            },
            None => json_bytes_map_of(data@) is None,
        },
{
    let m: std::collections::BTreeMap<String, Vec<u8>> = serde_json::from_slice(
        data.as_slice(),
    ).ok()?;
    Some(m.into_iter().collect())
}

/// The entries of a parsed object, by view.
pub open spec fn pairs_view<V: View>(s: Seq<(String, V)>) -> Seq<(Seq<char>, V::V)> {
    Seq::new(s.len(), |i: int| (s[i].0@, s[i].1@))
}

/// The first value stored under `k` in an entry sequence.
pub open spec fn field_of<T>(s: Seq<(Seq<char>, T)>, k: Seq<char>) -> Option<T>
    decreases s.len(),
{
    if s.len() == 0 {
        None
    } else if s[0].0 == k {
        Some(s[0].1)
    } else {
        field_of(s.drop_first(), k)
    }
}

fn find_field_from<'a, V: View>(v: &'a Vec<(String, V)>, key: &String, i: usize) -> (r: Option<
    &'a V,
>)
    requires
        i <= v@.len(),
    ensures
        match r {
            Some(val) => field_of(pairs_view(v@).skip(i as int), key@) == Some(val@),
            None => field_of(pairs_view(v@).skip(i as int), key@) is None,
        },
    decreases v@.len() - i,
{
    if i == v.len() {
        proof {
            assert(pairs_view(v@).skip(i as int) =~= Seq::<(Seq<char>, V::V)>::empty());
        }
        None
    } else if v[i].0.eq(key) {
        proof {
            assert(pairs_view(v@).skip(i as int)[0] == (v@[i as int].0@, v@[i as int].1@));
        }
        Some(&v[i].1)
    } else {
        let r = find_field_from(v, key, i + 1);
        proof {
            assert(pairs_view(v@).skip(i as int)[0] == (v@[i as int].0@, v@[i as int].1@));
            assert(pairs_view(v@).skip(i as int).drop_first() =~= pairs_view(v@).skip(i + 1));
        }
        r
    }
}

/// Looks up the first entry stored under `key`.
pub fn find_field<'a, V: View>(v: &'a Vec<(String, V)>, key: &String) -> (r: Option<&'a V>)
    ensures
        match r {
            Some(val) => field_of(pairs_view(v@), key@) == Some(val@),
            None => field_of(pairs_view(v@), key@) is None,
        },
{
    proof {
        assert(pairs_view(v@).skip(0) =~= pairs_view(v@));
    }
    find_field_from(v, key, 0)
}

} // verus!

