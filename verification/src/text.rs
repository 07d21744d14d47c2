//! Canonical text forms of the primitive fields of the document: hexadecimal
//! byte buffers, minimal hexadecimal integers, decimal integers, little-endian
//! integer buffers, length-prefixed buffers, and JSON string escaping.

use crate::Error;
use vstd::prelude::*;
use vstd::slice::{slice_index_get, slice_subrange, slice_to_vec};
use vstd::string::StringExecFns;

verus! {

/// Relies on std's String::push: it appends the given character to the end
/// of the string.
pub assume_specification[ String::push ](s: &mut String, c: char)
    ensures
        final(s)@ == old(s)@.push(c),
;

/// The lowercase hexadecimal digit of a value below sixteen.
pub open spec fn hex_char(n: int) -> char {
    if n == 0 {
        '0'
    } else if n == 1 {
        '1'
    } else if n == 2 {
        '2'
    } else if n == 3 {
        '3'
    } else if n == 4 {
        '4'
    } else if n == 5 {
        '5'
    } else if n == 6 {
        '6'
    } else if n == 7 {
        '7'
    } else if n == 8 {
        '8'
    } else if n == 9 {
        '9'
    } else if n == 10 {
        'a'
    } else if n == 11 {
        'b'
    } else if n == 12 {
        'c'
    } else if n == 13 {
        'd'
    } else if n == 14 {
        'e'
    } else {
        'f'
    }
}

/// Two lowercase hexadecimal digits of one byte, high nibble first.
pub open spec fn hex_of_byte(b: u8) -> Seq<char> {
    seq![hex_char(b as int / 16), hex_char(b as int % 16)]
}

/// Two lowercase hexadecimal digits per byte, in buffer order, so that
/// leading zero bytes are preserved.
pub open spec fn hex_of_bytes(s: Seq<u8>) -> Seq<char>
    decreases s.len(),
{
    if s.len() == 0 {
        Seq::empty()
    } else {
        hex_of_bytes(s.drop_last()) + hex_of_byte(s.last())
    }
}

/// The canonical text of an opaque byte buffer: `0x` followed by exactly two
/// lowercase hexadecimal digits per byte.
pub open spec fn hex_field(s: Seq<u8>) -> Seq<char> {
    "0x"@ + hex_of_bytes(s)
}

/// The shortest lowercase hexadecimal digit run of a numeric value: no
/// leading zero digits beyond the one digit that zero itself needs.
pub open spec fn min_hex(n: nat) -> Seq<char>
    decreases n,
{
    if n < 16 {
        seq![hex_char(n as int)]
    } else {
        min_hex(n / 16) + seq![hex_char(n as int % 16)]
    }
}

/// The canonical text of an unsigned integer field: `0x` followed by the
/// numeric value in minimal lowercase hexadecimal.
pub open spec fn uint_field(n: nat) -> Seq<char> {
    "0x"@ + min_hex(n)
}

/// The decimal digit run of a numeric value, without leading zeros.
pub open spec fn dec_of(n: nat) -> Seq<char>
    decreases n,
{
    if n < 10 {
        seq![hex_char(n as int)]
    } else {
        dec_of(n / 10) + seq![hex_char(n as int % 10)]
    }
}

/// The numeric value of a little-endian byte buffer: the first byte is the
/// least significant.
pub open spec fn le_value(s: Seq<u8>) -> nat
    decreases s.len(),
{
    if s.len() == 0 {
        0
    } else {
        s[0] as nat + 256 * le_value(s.drop_first())
    }
}

/// The payload of a length-prefixed buffer: everything after the four
/// prefix bytes.
pub open spec fn payload_of(s: Seq<u8>) -> Seq<u8> {
    s.subrange(4, s.len() as int)
}

/// Whether a buffer is a well-formed length-prefixed buffer: at least four
/// bytes long, and its little-endian prefix counts exactly the payload.
pub open spec fn prefixed_wf(s: Seq<u8>) -> bool {
    s.len() >= 4 && le_value(s.subrange(0, 4)) == s.len() - 4
}

/// How one character appears inside a JSON string: quotes and backslashes
/// are escaped, control characters become `\u00..`, all else stands as is.
pub open spec fn esc_char(c: char) -> Seq<char> {
    if c == '"' {
        seq!['\\', '"']
    } else if c == '\\' {
        seq!['\\', '\\']
    } else if (c as int) < 0x20 {
        seq!['\\', 'u', '0', '0', hex_char(c as int / 16), hex_char(c as int % 16)]
    } else {
        seq![c]
    }
}

/// A character run escaped for use inside a JSON string.
pub open spec fn escaped(s: Seq<char>) -> Seq<char>
    decreases s.len(),
{
    if s.len() == 0 {
        Seq::empty()
    } else {
        escaped(s.drop_last()) + esc_char(s.last())
    }
}

/// 256 to the given power: the count of byte buffers of that length, and
/// the strict bound on their little-endian values.
pub open spec fn pow256(n: nat) -> nat
    decreases n,
{
    if n == 0 {
        1
    } else {
        256 * pow256((n - 1) as nat)
    }
}

proof fn lemma_le_value_bound(s: Seq<u8>)
    ensures
        le_value(s) < pow256(s.len()),
    decreases s.len(),
{
    if s.len() > 0 {
        lemma_le_value_bound(s.drop_first());
    }
}

/// Extending a buffer by one byte extends its digit run by that byte's two
/// digits.
proof fn lemma_hex_of_bytes_snoc(s: Seq<u8>, i: int)
    requires
        0 <= i < s.len(),
    ensures
        hex_of_bytes(s.subrange(0, i + 1)) == hex_of_bytes(s.subrange(0, i)) + hex_of_byte(s[i]),
{
    let t = s.subrange(0, i + 1);
    assert(t.drop_last() =~= s.subrange(0, i));
    assert(t.last() == s[i]);
}

/// A buffer's digit run holds exactly two digits per byte. With the `0x`
/// prefix, a rendered byte-buffer field of n bytes is 2n + 2 characters, so
/// the decoded payload length of a rendered 32-byte hash is exactly 32.
pub proof fn lemma_hex_of_bytes_len(s: Seq<u8>)
    ensures
        hex_of_bytes(s).len() == 2 * s.len(),
    decreases s.len(),
{
    if s.len() > 0 {
        lemma_hex_of_bytes_len(s.drop_last());
    }
}

/// The length of a rendered byte-buffer field, counting the `0x` prefix.
pub proof fn lemma_hex_field_len(s: Seq<u8>)
    ensures
        hex_field(s).len() == 2 + 2 * s.len(),
{
    reveal_strlit("0x");
    lemma_hex_of_bytes_len(s);
}

/// The lowercase hexadecimal digit of a nibble.
pub(crate) fn hex_char_of(n: u8) -> (c: char)
    requires
        n < 16,
    ensures
        c == hex_char(n as int),
{
    if n == 0 {
        '0'
    } else if n == 1 {
        '1'
    } else if n == 2 {
        '2'
    } else if n == 3 {
        '3'
    } else if n == 4 {
        '4'
    } else if n == 5 {
        '5'
    } else if n == 6 {
        '6'
    } else if n == 7 {
        '7'
    } else if n == 8 {
        '8'
    } else if n == 9 {
        '9'
    } else if n == 10 {
        'a'
    } else if n == 11 {
        'b'
    } else if n == 12 {
        'c'
    } else if n == 13 {
        'd'
    } else if n == 14 {
        'e'
    } else {
        'f'
    }
}

/// Appends the digit run of a byte buffer: two lowercase digits per byte.
pub(crate) fn push_hex_bytes(out: &mut String, data: &[u8])
    ensures
        final(out)@ == old(out)@ + hex_of_bytes(data@),
{
    let ghost prefix: Seq<char> = out@;
    let n = data.len();
    assert(data@.subrange(0, 0) =~= Seq::<u8>::empty());
    for i in 0..n
        invariant
            n == data@.len(),
            out@ == prefix + hex_of_bytes(data@.subrange(0, i as int)),
    {
        let b = *slice_index_get(data, i);
        out.push(hex_char_of(b / 16));
        out.push(hex_char_of(b % 16));
        proof {
            lemma_hex_of_bytes_snoc(data@, i as int);
            assert(out@ =~= prefix + hex_of_bytes(data@.subrange(0, i + 1)));
        }
    }
    assert(data@.subrange(0, n as int) =~= data@);
}

/// Appends a whole byte-buffer field: `0x`, then two digits per byte.
pub(crate) fn push_hex_field(out: &mut String, data: &[u8])
    ensures
        final(out)@ == old(out)@ + hex_field(data@),
{
    out.append("0x");
    push_hex_bytes(out, data);
    assert(final(out)@ =~= old(out)@ + hex_field(data@));
}

/// Appends the minimal hexadecimal digit run of a numeric value.
pub(crate) fn push_min_hex(out: &mut String, n: u128)
    ensures
        final(out)@ == old(out)@ + min_hex(n as nat),
    decreases n,
{
    if n >= 16 {
        push_min_hex(out, n / 16);
        out.push(hex_char_of((n % 16) as u8));
        assert(final(out)@ =~= old(out)@ + min_hex(n as nat));
    } else {
        out.push(hex_char_of(n as u8));
        assert(final(out)@ =~= old(out)@ + min_hex(n as nat));
    }
}

/// Appends a whole unsigned-integer field: `0x`, then the value in minimal
/// lowercase hexadecimal.
pub(crate) fn push_uint_field(out: &mut String, n: u128)
    ensures
        final(out)@ == old(out)@ + uint_field(n as nat),
{
    out.append("0x");
    push_min_hex(out, n);
    assert(final(out)@ =~= old(out)@ + uint_field(n as nat));
}

/// Appends the decimal digit run of a numeric value.
pub(crate) fn push_dec(out: &mut String, n: u64)
    ensures
        final(out)@ == old(out)@ + dec_of(n as nat),
    decreases n,
{
    if n >= 10 {
        push_dec(out, n / 10);
        out.push(hex_char_of((n % 10) as u8));
        assert(final(out)@ =~= old(out)@ + dec_of(n as nat));
    } else {
        out.push(hex_char_of(n as u8));
        assert(final(out)@ =~= old(out)@ + dec_of(n as nat));
    }
}

/// Appends a character run escaped for use inside a JSON string.
pub(crate) fn push_escaped(out: &mut String, s: &str)
    ensures
        final(out)@ == old(out)@ + escaped(s@),
{
    let ghost prefix: Seq<char> = out@;
    let n = s.unicode_len();
    assert(escaped(s@.subrange(0, 0)) =~= Seq::<char>::empty());
    for i in 0..n
        invariant
            n == s@.len(),
            out@ == prefix + escaped(s@.subrange(0, i as int)),
    {
        let c = s.get_char(i);
        if c == '"' {
            out.push('\\');
            out.push('"');
        } else if c == '\\' {
            out.push('\\');
            out.push('\\');
        } else if (c as u32) < 0x20 {
            let low: u8 = (c as u32 % 16) as u8;
            let high: u8 = (c as u32 / 16) as u8;
            out.push('\\');
            out.push('u');
            out.push('0');
            out.push('0');
            out.push(hex_char_of(high));
            out.push(hex_char_of(low));
        } else {
            out.push(c);
        }
        proof {
            let t = s@.subrange(0, i + 1);
            assert(t.drop_last() =~= s@.subrange(0, i as int));
            assert(t.last() == s@[i as int]);
            assert(out@ =~= prefix + escaped(s@.subrange(0, i + 1)));
        }
    }
    assert(s@.subrange(0, n as int) =~= s@);
}

/// Reads an unsigned integer field from its little-endian byte buffer.
/// Exactly the buffers of four (32-bit) or eight (64-bit) bytes are
/// accepted; any other length is a fatal encoding violation.
pub fn decode_uint_le(buf: &[u8]) -> (r: Result<u64, Error>)
    ensures
        r is Ok <==> (buf@.len() == 4 || buf@.len() == 8),
        r is Ok ==> r->Ok_0 == le_value(buf@),
        r is Err ==> r->Err_0 == Error::EncodingViolation,
{
    let n = buf.len();
    if n != 4 && n != 8 {
        return Err(Error::EncodingViolation);
    }
    let mut value: u64 = 0;
    let mut i: usize = n;
    while i > 0
        invariant
            i <= n == buf@.len(),
            n == 4 || n == 8,
            value == le_value(buf@.subrange(i as int, n as int)),
        decreases i,
    {
        i = i - 1;
        let b = *slice_index_get(buf, i);
        proof {
            let suffix = buf@.subrange(i as int, n as int);
            let rest = buf@.subrange(i + 1, n as int);
            assert(suffix.drop_first() =~= rest);
            lemma_le_value_bound(rest);
            lemma_pow256_mono((n - i) as nat, n as nat);
            lemma_pow256_values();
            assert(pow256((n - i) as nat) == 256 * pow256((n - i - 1) as nat));
        }
        value = b as u64 + 256 * value;
    }
    assert(buf@.subrange(0, n as int) =~= buf@);
    Ok(value)
}

proof fn lemma_pow256_pos(n: nat)
    ensures
        pow256(n) >= 1,
    decreases n,
{
    if n > 0 {
        lemma_pow256_pos((n - 1) as nat);
    }
}

/// A longer buffer admits at least as many values.
proof fn lemma_pow256_mono(a: nat, b: nat)
    requires
        a <= b,
    ensures
        pow256(a) <= pow256(b),
    decreases b,
{
    if a < b {
        lemma_pow256_mono(a, (b - 1) as nat);
        lemma_pow256_pos((b - 1) as nat);
    }
}

/// The byte-count bounds of the two accepted integer widths.
proof fn lemma_pow256_values()
    ensures
        pow256(4) == 0x1_0000_0000,
        pow256(8) == 0x1_0000_0000_0000_0000,
{
    assert(pow256(0) == 1);
    assert(pow256(1) == 256);
    assert(pow256(2) == 0x1_0000);
    assert(pow256(3) == 0x100_0000);
    assert(pow256(4) == 0x1_0000_0000);
    assert(pow256(5) == 0x100_0000_0000);
    assert(pow256(6) == 0x1_0000_0000_0000);
    assert(pow256(7) == 0x100_0000_0000_0000);
    assert(pow256(8) == 0x1_0000_0000_0000_0000);
}

/// Strips the four-byte little-endian length prefix from a serialized
/// buffer, leaving only the payload. A buffer shorter than its prefix
/// demands, or one whose prefix does not count its payload, is a fatal
/// encoding violation.
pub fn strip_length_prefix(buf: &Vec<u8>) -> (r: Result<Vec<u8>, Error>)
    ensures
        r is Ok <==> prefixed_wf(buf@),
        r is Ok ==> r->Ok_0@ == payload_of(buf@),
        r is Err ==> r->Err_0 == Error::EncodingViolation,
{
    let n = buf.len();
    if n < 4 {
        return Err(Error::EncodingViolation);
    }
    let prefix = slice_subrange(buf.as_slice(), 0, 4);
    let declared = match decode_uint_le(prefix) {
        Ok(v) => v,
        Err(e) => {
            return Err(e);
        },
    };
    if declared != (n - 4) as u64 {
        return Err(Error::EncodingViolation);
    }
    Ok(slice_to_vec(slice_subrange(buf.as_slice(), 4, n)))
}

} // verus!
