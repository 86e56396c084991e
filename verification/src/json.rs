use vstd::prelude::*;

verus! {

/// The lowercase hexadecimal digit for a value below 16.
pub open spec fn hex_digit(n: u8) -> u8
    recommends
        n < 16,
{
    if n < 10 {
        (48 + n) as u8
    } else {
        (87 + n) as u8
    }
}

/// How one byte of a string is rendered inside a JSON string literal:
/// `"` and `\` get a backslash escape, the control characters with a short
/// form use it (`\b`, `\t`, `\n`, `\f`, `\r`), every other control character
/// becomes `\u00XX` with lowercase hex digits, and all remaining bytes
/// (multi-byte UTF-8 sequences included) pass through unchanged.
pub open spec fn escaped_byte(b: u8) -> Seq<u8> {
    if b == 0x22 {
        seq![0x5cu8, 0x22u8]
    } else if b == 0x5c {
        seq![0x5cu8, 0x5cu8]
    } else if b == 0x08 {
        seq![0x5cu8, 0x62u8]
    } else if b == 0x09 {
        seq![0x5cu8, 0x74u8]
    } else if b == 0x0a {
        seq![0x5cu8, 0x6eu8]
    } else if b == 0x0c {
        seq![0x5cu8, 0x66u8]
    } else if b == 0x0d {
        seq![0x5cu8, 0x72u8]
    } else if b < 0x20 {
        seq![0x5cu8, 0x75u8, 0x30u8, 0x30u8, hex_digit(b / 16), hex_digit(b % 16)]
    } else {
        seq![b]
    }
}

/// The escaped rendering of a whole string, byte by byte.
pub open spec fn escape_bytes(s: Seq<u8>) -> Seq<u8>
    decreases s.len(),
{
    if s.len() == 0 {
        Seq::empty()
    } else {
        escaped_byte(s[0]) + escape_bytes(s.drop_first())
    }
}

/// A JSON string literal: the escaped bytes between double quotes.
pub open spec fn json_string(s: Seq<u8>) -> Seq<u8> {
    seq![0x22u8] + escape_bytes(s) + seq![0x22u8]
}

/// A JSON object with a single string-valued field, rendered without
/// whitespace: `{"key":"value"}`.
pub open spec fn json_one_field(key: Seq<u8>, value: Seq<u8>) -> Seq<u8> {
    seq![0x7bu8] + json_string(key) + seq![0x3au8] + json_string(value) + seq![0x7du8]
}

/// Escaping distributes over appending one byte at the end.
proof fn lemma_escape_bytes_push(s: Seq<u8>, b: u8)
    ensures
        escape_bytes(s.push(b)) == escape_bytes(s) + escaped_byte(b),
    decreases s.len(),
{
    if s.len() == 0 {
        assert(s =~= Seq::<u8>::empty());
        assert(escape_bytes(s) =~= Seq::<u8>::empty());
        assert(s.push(b)[0] == b);
        assert(s.push(b).drop_first() =~= Seq::<u8>::empty());
        assert(escape_bytes(s.push(b).drop_first()) =~= Seq::<u8>::empty());
        assert(escape_bytes(s.push(b)) =~= escape_bytes(s) + escaped_byte(b));
    } else {
        lemma_escape_bytes_push(s.drop_first(), b);
        assert(s.push(b).drop_first() =~= s.drop_first().push(b));
        assert(escape_bytes(s.push(b)) =~= escape_bytes(s) + escaped_byte(b));
    }
}

fn push_escaped_byte(out: &mut Vec<u8>, b: u8)
    ensures
        final(out)@ == old(out)@ + escaped_byte(b),
{
    if b == 0x22 {
        out.push(0x5c);
        out.push(0x22);
    } else if b == 0x5c {
        out.push(0x5c);
        out.push(0x5c);
    } else if b == 0x08 {
        out.push(0x5c);
        out.push(0x62);
    } else if b == 0x09 {
        out.push(0x5c);
        out.push(0x74);
    } else if b == 0x0a {
        out.push(0x5c);
        out.push(0x6e);
    } else if b == 0x0c {
        out.push(0x5c);
        out.push(0x66);
    } else if b == 0x0d {
        out.push(0x5c);
        out.push(0x72);
    } else if b < 0x20 {
        out.push(0x5c);
        out.push(0x75);
        out.push(0x30);
        out.push(0x30);
        let hi = b / 16;
        let lo = b % 16;
        out.push(if hi < 10 { 48 + hi } else { 87 + hi });
        out.push(if lo < 10 { 48 + lo } else { 87 + lo });
    } else {
        out.push(b);
    }
    proof {
        assert(final(out)@ =~= old(out)@ + escaped_byte(b));
    }
}

/// Appends a JSON string literal holding `s` to `out`.
fn push_json_string(out: &mut Vec<u8>, s: &[u8])
    ensures
        final(out)@ == old(out)@ + json_string(s@),
{
    out.push(0x22);
    let ghost mid = out@;
    let n = s.len();
    let mut i: usize = 0;
    while i < n
        invariant
            n == s@.len(),
            i <= n,
            out@ == mid + escape_bytes(s@.subrange(0, i as int)),
        decreases n - i,
    {
        proof {
            assert(s@.subrange(0, i as int).push(s@[i as int]) =~= s@.subrange(0, i + 1));
            lemma_escape_bytes_push(s@.subrange(0, i as int), s@[i as int]);
        }
        push_escaped_byte(out, s[i]);
        i = i + 1;
    }
    proof {
        assert(s@.subrange(0, n as int) =~= s@);
    }
    out.push(0x22);
    proof {
        assert(final(out)@ =~= old(out)@ + json_string(s@));
    }
}

/// Encodes a JSON object with one string-valued field, exactly as
/// `{"key":"value"}` with the value escaped.
pub fn encode_one_field(key: &[u8], value: &[u8]) -> (r: Vec<u8>)
    ensures
        r@ == json_one_field(key@, value@),
{
    let mut out: Vec<u8> = Vec::new();
    out.push(0x7b);
    push_json_string(&mut out, key);
    out.push(0x3a);
    push_json_string(&mut out, value);
    out.push(0x7d);
    proof {
        assert(out@ =~= json_one_field(key@, value@));
    }
    out
}

} // verus!
