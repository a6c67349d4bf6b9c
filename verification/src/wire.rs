use vstd::prelude::*;

verus! {

/// The ASCII decimal digits of `n`, most significant first, with no sign,
/// no padding and no leading zero (a single `0` for zero).
pub open spec fn dec_digits(n: nat) -> Seq<u8>
    decreases n,
{
    if n < 10 {
        seq![(48 + n) as u8]
    } else {
        dec_digits(n / 10).push((48 + n % 10) as u8)
    }
}

/// Appends the decimal digits of `n` to `out`.
pub(crate) fn push_decimal(n: u64, out: &mut Vec<u8>)
    ensures
        final(out)@ == old(out)@ + dec_digits(n as nat),
    decreases n,
{
    if n < 10 {
        out.push(48 + n as u8);
        proof {
            assert(out@ =~= old(out)@ + dec_digits(n as nat));
        }
    } else {
        push_decimal(n / 10, out);
        out.push(48 + (n % 10) as u8);
        proof {
            assert(out@ =~= old(out)@ + dec_digits(n as nat));
        }
    }
}

/// The decimal digits of `n`, as ASCII bytes.
pub fn encode_decimal(n: u64) -> (r: Vec<u8>)
    ensures
        r@ == dec_digits(n as nat),
{
    let mut out: Vec<u8> = Vec::new();
    push_decimal(n, &mut out);
    proof {
        assert(out@ =~= dec_digits(n as nat));
    }
    out
}

/// The character for one decimal digit value.
pub open spec fn digit_char(d: nat) -> char {
    if d == 0 {
        '0'
    } else if d == 1 {
        '1'
    } else if d == 2 {
        '2'
    } else if d == 3 {
        '3'
    } else if d == 4 {
        '4'
    } else if d == 5 {
        '5'
    } else if d == 6 {
        '6'
    } else if d == 7 {
        '7'
    } else if d == 8 {
        '8'
    } else {
        '9'
    }
}

/// The decimal rendering of `n` as characters, most significant first,
/// with no sign, no padding and no leading zero.
pub open spec fn dec_chars(n: nat) -> Seq<char>
    decreases n,
{
    if n < 10 {
        seq![digit_char(n)]
    } else {
        dec_chars(n / 10).push(digit_char(n % 10))
    }
}

/// Appends the single decimal digit `d` to `out`.
fn push_digit_char(d: u64, out: &mut String)
    requires
        d < 10,
    ensures
        final(out)@ == old(out)@ + seq![digit_char(d as nat)],
{
    let s: &str = if d == 0 {
        "0"
    } else if d == 1 {
        "1"
    } else if d == 2 {
        "2"
    } else if d == 3 {
        "3"
    } else if d == 4 {
        "4"
    } else if d == 5 {
        "5"
    } else if d == 6 {
        "6"
    } else if d == 7 {
        "7"
    } else if d == 8 {
        "8"
    } else {
        "9"
    };
    proof {
        reveal_strlit("0");
        reveal_strlit("1");
        reveal_strlit("2");
        reveal_strlit("3");
        reveal_strlit("4");
        reveal_strlit("5");
        reveal_strlit("6");
        reveal_strlit("7");
        reveal_strlit("8");
        reveal_strlit("9");
        assert(s@ =~= seq![digit_char(d as nat)]);
    }
    out.append(s);
}

/// Appends the decimal rendering of `n` to `out`.
fn push_decimal_chars(n: u64, out: &mut String)
    ensures
        final(out)@ == old(out)@ + dec_chars(n as nat),
    decreases n,
{
    if n < 10 {
        push_digit_char(n, out);
    } else {
        push_decimal_chars(n / 10, out);
        push_digit_char(n % 10, out);
        proof {
            assert(old(out)@ + dec_chars((n / 10) as nat) + seq![digit_char((n % 10) as nat)]
                =~= old(out)@ + dec_chars(n as nat));
        }
    }
}

/// Renders `n` in decimal, the form device addresses take when they are
/// derived from a numeric identifier.
pub fn decimal_string(n: u64) -> (r: String)
    ensures
        r@ == dec_chars(n as nat),
{
    let mut out = String::new();
    push_decimal_chars(n, &mut out);
    proof {
        assert(out@ =~= dec_chars(n as nat));
    }
    out
}

/// Whether `b` is an ASCII decimal digit.
pub open spec fn is_digit(b: u8) -> bool {
    48 <= b <= 57
}

/// The number the digit string `s` denotes, most significant digit first.
/// Meaningful only when every byte of `s` is an ASCII digit.
pub open spec fn digits_value(s: Seq<u8>) -> nat
    decreases s.len(),
{
    if s.len() == 0 {
        0
    } else {
        digits_value(s.drop_last()) * 10 + (if is_digit(s.last()) {
            (s.last() - 48) as nat
        } else {
            0
        })
    }
}

/// A digit string denotes at least as much as any of its prefixes.
proof fn lemma_digits_value_prefix(s: Seq<u8>, k: int)
    requires
        0 <= k <= s.len(),
    ensures
        digits_value(s) >= digits_value(s.subrange(0, k)),
    decreases s.len(),
{
    if k < s.len() {
        lemma_digits_value_prefix(s.drop_last(), k);
        assert(s.drop_last().subrange(0, k) =~= s.subrange(0, k));
    } else {
        assert(s.subrange(0, k) =~= s);
    }
}

/// What a battery-level response means: all bytes before the final
/// delimiter byte must be ASCII digits denoting a value that fits in a
/// `u8`. The final byte is the terminator of the raw ASCII response and is
/// discarded without inspection.
pub open spec fn parse_battery_spec(data: Seq<u8>) -> Option<u8> {
    if data.len() >= 2 && (forall|i: int| 0 <= i < data.len() - 1 ==> is_digit(#[trigger] data[i]))
        && digits_value(data.subrange(0, data.len() - 1)) <= 255 {
        Some(digits_value(data.subrange(0, data.len() - 1)) as u8)
    } else {
        None
    }
}

/// Parses a battery-level response: the decimal percentage before the
/// trailing delimiter. Returns `None` on anything malformed — a response
/// too short to hold a digit and the delimiter, a non-digit byte, or a
/// value that does not fit in a `u8`.
#[verifier::loop_isolation(false)]
pub fn parse_battery_response(data: &[u8]) -> (r: Option<u8>)
    ensures
        r == parse_battery_spec(data@),
{
    let n = data.len();
    if n < 2 {
        return None;
    }
    let mut acc: u32 = 0;
    let mut i: usize = 0;
    while i < n - 1
        invariant
            0 <= i <= n - 1,
            n == data@.len(),
            acc <= 255,
            acc == digits_value(data@.subrange(0, i as int)),
            forall|j: int| 0 <= j < i ==> is_digit(#[trigger] data@[j]),
        decreases n - 1 - i,
    {
        let b = data[i];
        if b < 48 || b > 57 {
            return None;
        }
        proof {
            assert(data@.subrange(0, i + 1).drop_last() =~= data@.subrange(0, i as int));
            assert(data@.subrange(0, i + 1).last() == data@[i as int]);
        }
        acc = acc * 10 + (b - 48) as u32;
        i += 1;
        if acc > 255 {
            proof {
                if forall|j: int| 0 <= j < n - 1 ==> is_digit(#[trigger] data@[j]) {
                    lemma_digits_value_prefix(data@.subrange(0, n - 1), i as int);
                    assert(data@.subrange(0, n - 1).subrange(0, i as int) =~= data@.subrange(
                        0,
                        i as int,
                    ));
                }
            }
            return None;
        }
    }
    proof {
        assert(data@.subrange(0, n - 1) =~= data@.subrange(0, i as int));
    }
    Some(acc as u8)
}

/// Extracts the identifier token from an identification response: the
/// longest prefix holding no `:` delimiter. The device reports its
/// sub-type as the first `:`-separated field of the response.
pub fn parse_identifier(data: &[u8]) -> (r: Vec<u8>)
    ensures
        r@.len() <= data@.len(),
        r@ == data@.subrange(0, r@.len() as int),
        forall|j: int| 0 <= j < r@.len() ==> data@[j] != 58,
        r@.len() < data@.len() ==> data@[r@.len() as int] == 58,
{
    let mut out: Vec<u8> = Vec::new();
    let mut i: usize = 0;
    while i < data.len()
        invariant
            0 <= i <= data@.len(),
            out@.len() == i,
            out@ =~= data@.subrange(0, i as int),
            forall|j: int| 0 <= j < i ==> data@[j] != 58,
        decreases data@.len() - i,
    {
        let b = data[i];
        if b == 58 {
            proof {
                assert(out@ == data@.subrange(0, out@.len() as int));
            }
            return out;
        }
        out.push(b);
        i += 1;
    }
    proof {
        assert(out@ == data@.subrange(0, out@.len() as int));
    }
    out
}

/// The low 16 bits of `v`, little-endian: low byte first.
pub open spec fn le16_bytes(v: u32) -> Seq<u8> {
    seq![(v % 256) as u8, ((v / 256) % 256) as u8]
}

/// The value read little-endian from the first two bytes of `data`.
pub open spec fn le16_value(data: Seq<u8>) -> u16 {
    (data[0] + data[1] * 256) as u16
}

/// Encodes the low 16 bits of `v` as two little-endian bytes, with no
/// framing: the fixed-width form force-feedback style actuators take.
pub fn encode_le16(v: u32) -> (r: Vec<u8>)
    ensures
        r@ == le16_bytes(v),
{
    let mut out: Vec<u8> = Vec::new();
    out.push((v % 256) as u8);
    out.push(((v / 256) % 256) as u8);
    proof {
        assert(out@ =~= le16_bytes(v));
    }
    out
}

/// Reads a 16-bit value, little-endian, from the head of a packed
/// magnitude payload.
pub fn decode_le16(data: &[u8]) -> (r: u16)
    requires
        data@.len() >= 2,
    ensures
        r == le16_value(data@),
{
    data[0] as u16 + data[1] as u16 * 256
}

} // verus!
