//! Character-level building blocks shared by the request signer and the
//! payload encoders: decimal formatting, JSON string escaping,
//! form-urlencoding of query values, header-value validation, and the
//! deterministic identity hash used to fingerprint clients.

use vstd::prelude::*;
use vstd::string::*;

verus! {

/// Relies on `String`'s `FromIterator<char>` impl: collecting characters
/// yields the string of exactly those characters, in order.
#[verifier::external_body]
pub(crate) fn chars_to_string(v: Vec<char>) -> (r: String)
    ensures
        r@ == v@,
{
    v.into_iter().collect()
}

/// Appends every character of `s` to `out`.
pub(crate) fn push_str_chars(out: &mut Vec<char>, s: &str)
    ensures
        final(out)@ == old(out)@ + s@,
{
    let n: usize = s.unicode_len();
    let mut i: usize = 0;
    while i < n
        invariant
            i <= n,
            n == s@.len(),
            out@ == old(out)@ + s@.take(i as int),
        decreases n - i,
    {
        out.push(s.get_char(i));
        proof {
            assert(s@.take(i as int + 1).drop_last() =~= s@.take(i as int));
            assert(out@ =~= old(out)@ + s@.take(i as int + 1));
        }
        i = i + 1;
    }
    proof {
        assert(s@.take(n as int) =~= s@);
    }
}

// ---------------------------------------------------------------------------
// Decimal formatting
// ---------------------------------------------------------------------------

/// The character for a single decimal or hexadecimal digit (upper case).
pub open spec fn spec_digit_char(d: nat) -> char {
    if d == 0 { '0' } else if d == 1 { '1' } else if d == 2 { '2' } else if d == 3 { '3' }
    else if d == 4 { '4' } else if d == 5 { '5' } else if d == 6 { '6' } else if d == 7 { '7' }
    else if d == 8 { '8' } else if d == 9 { '9' } else if d == 10 { 'A' } else if d == 11 { 'B' }
    else if d == 12 { 'C' } else if d == 13 { 'D' } else if d == 14 { 'E' } else { 'F' }
}

pub(crate) fn digit_char(d: u8) -> (c: char)
    requires
        d < 16,
    ensures
        c == spec_digit_char(d as nat),
{
    match d {
        0 => '0', 1 => '1', 2 => '2', 3 => '3', 4 => '4', 5 => '5', 6 => '6', 7 => '7',
        8 => '8', 9 => '9', 10 => 'A', 11 => 'B', 12 => 'C', 13 => 'D', 14 => 'E', _ => 'F',
    }
}

/// The decimal representation of `n`, most significant digit first.
pub open spec fn spec_dec(n: nat) -> Seq<char>
    decreases n,
{
    if n < 10 {
        seq![spec_digit_char(n)]
    } else {
        spec_dec(n / 10).push(spec_digit_char(n % 10))
    }
}

/// Appends the decimal representation of `n` to `out`.
pub(crate) fn push_dec(out: &mut Vec<char>, n: u64)
    ensures
        final(out)@ == old(out)@ + spec_dec(n as nat),
    decreases n,
{
    if n < 10 {
        out.push(digit_char(n as u8));
        proof {
            assert(out@ =~= old(out)@ + spec_dec(n as nat));
        }
    } else {
        push_dec(out, n / 10);
        out.push(digit_char((n % 10) as u8));
        proof {
            assert(out@ =~= old(out)@ + spec_dec(n as nat));
        }
    }
}

/// The decimal representation of `n`, left-padded with zeros to `width`.
pub open spec fn spec_dec_pad(n: nat, width: nat) -> Seq<char>
    decreases width,
{
    if spec_dec(n).len() >= width {
        spec_dec(n)
    } else {
        seq!['0'] + spec_dec_pad(n, (width - 1) as nat)
    }
}

/// Appends the zero-padded decimal representation of `n` to `out`.
pub(crate) fn push_dec_pad(out: &mut Vec<char>, n: u64, width: usize)
    ensures
        final(out)@ == old(out)@ + spec_dec_pad(n as nat, width as nat),
    decreases width,
{
    let mut digits: Vec<char> = Vec::new();
    push_dec(&mut digits, n);
    if digits.len() >= width {
        push_dec(out, n);
    } else {
        out.push('0');
        push_dec_pad(out, n, width - 1);
        proof {
            assert(out@ =~= old(out)@ + spec_dec_pad(n as nat, width as nat));
        }
    }
}

// ---------------------------------------------------------------------------
// Header-value validation
// ---------------------------------------------------------------------------

/// Whether a character may appear in an HTTP header value: horizontal tab or
/// a visible ASCII character (including space). Control characters and
/// non-ASCII characters are rejected.
pub open spec fn valid_header_char(c: char) -> bool {
    c == '\t' || (32 <= (c as u32) && (c as u32) < 127)
}

/// Whether every character of `s` may appear in an HTTP header value.
pub open spec fn valid_header_text(s: Seq<char>) -> bool {
    forall|i: int| 0 <= i < s.len() ==> valid_header_char(s[i])
}

/// Checks that every character of `s` may appear in an HTTP header value.
pub fn check_header_text(s: &str) -> (r: bool)
    ensures
        r == valid_header_text(s@),
{
    let n: usize = s.unicode_len();
    let mut i: usize = 0;
    while i < n
        invariant
            i <= n,
            n == s@.len(),
            forall|j: int| 0 <= j < i ==> valid_header_char(s@[j]),
        decreases n - i,
    {
        let c: char = s.get_char(i);
        let code: u32 = c as u32;
        if !(c == '\t' || (32 <= code && code < 127)) {
            return false;
        }
        i = i + 1;
    }
    true
}

// ---------------------------------------------------------------------------
// JSON string escaping
// ---------------------------------------------------------------------------

/// How a single character appears inside a JSON string literal.
pub open spec fn spec_json_escape_char(c: char) -> Seq<char> {
    if c == '"' {
        seq!['\\', '"']
    } else if c == '\\' {
        seq!['\\', '\\']
    } else if c == '\n' {
        seq!['\\', 'n']
    } else if c == '\r' {
        seq!['\\', 'r']
    } else if c == '\t' {
        seq!['\\', 't']
    } else if (c as u32) < 32 {
        seq!['\\', 'u', '0', '0', spec_digit_char((c as u32 / 16) as nat), spec_digit_char(
            (c as u32 % 16) as nat,
        )]
    } else {
        seq![c]
    }
}

/// The body of a JSON string literal holding the text `s`.
pub open spec fn spec_json_escape(s: Seq<char>) -> Seq<char>
    decreases s.len(),
{
    if s.len() == 0 {
        Seq::empty()
    } else {
        spec_json_escape(s.drop_last()) + spec_json_escape_char(s.last())
    }
}

/// Appends the escaped body of a JSON string literal holding `s` to `out`.
pub(crate) fn push_json_escaped(out: &mut Vec<char>, s: &str)
    ensures
        final(out)@ == old(out)@ + spec_json_escape(s@),
{
    let n: usize = s.unicode_len();
    let mut i: usize = 0;
    while i < n
        invariant
            i <= n,
            n == s@.len(),
            out@ == old(out)@ + spec_json_escape(s@.take(i as int)),
        decreases n - i,
    {
        let c: char = s.get_char(i);
        let code: u32 = c as u32;
        if c == '"' {
            out.push('\\');
            out.push('"');
        } else if c == '\\' {
            out.push('\\');
            out.push('\\');
        } else if c == '\n' {
            out.push('\\');
            out.push('n');
        } else if c == '\r' {
            out.push('\\');
            out.push('r');
        } else if c == '\t' {
            out.push('\\');
            out.push('t');
        } else if code < 32 {
            out.push('\\');
            out.push('u');
            out.push('0');
            out.push('0');
            out.push(digit_char((code / 16) as u8));
            out.push(digit_char((code % 16) as u8));
        } else {
            out.push(c);
        }
        proof {
            assert(s@.take(i as int + 1).drop_last() =~= s@.take(i as int));
            assert(s@.take(i as int + 1).last() == s@[i as int]);
            assert(out@ =~= old(out)@ + spec_json_escape(s@.take(i as int + 1)));
        }
        i = i + 1;
    }
    proof {
        assert(s@.take(n as int) =~= s@);
    }
}

// ---------------------------------------------------------------------------
// Form-urlencoding of query values
// ---------------------------------------------------------------------------

/// Bytes that pass through form-urlencoding unchanged: ASCII alphanumerics
/// and `*`, `-`, `.`, `_`.
pub open spec fn unreserved_byte(b: u8) -> bool {
    (97 <= b && b <= 122)  // a-z
     || (65 <= b && b <= 90)  // A-Z
     || (48 <= b && b <= 57)  // 0-9
     || b == 42 || b == 45 || b == 46 || b == 95
}

/// How a single byte appears in a form-urlencoded string: unchanged,
/// as `+` for a space, or percent-encoded with upper-case hex digits.
pub open spec fn spec_urlencode_byte(b: u8) -> Seq<char> {
    if unreserved_byte(b) {
        seq![b as char]
    } else if b == 32 {
        seq!['+']
    } else {
        seq!['%', spec_digit_char((b / 16) as nat), spec_digit_char((b % 16) as nat)]
    }
}

/// The form-urlencoding of the byte sequence `bs`.
pub open spec fn spec_urlencode(bs: Seq<u8>) -> Seq<char>
    decreases bs.len(),
{
    if bs.len() == 0 {
        Seq::empty()
    } else {
        spec_urlencode(bs.drop_last()) + spec_urlencode_byte(bs.last())
    }
}

/// Appends the form-urlencoding of the UTF-8 bytes of `s` to `out`.
pub(crate) fn push_urlencoded(out: &mut Vec<char>, s: &str)
    ensures
        final(out)@ == old(out)@ + spec_urlencode(s.spec_bytes()),
{
    let bytes: Vec<u8> = s.as_bytes_vec();
    let n: usize = bytes.len();
    let mut i: usize = 0;
    while i < n
        invariant
            i <= n,
            n == bytes@.len(),
            bytes@ == s.spec_bytes(),
            out@ == old(out)@ + spec_urlencode(bytes@.take(i as int)),
        decreases n - i,
    {
        let b: u8 = bytes[i];
        if (97 <= b && b <= 122) || (65 <= b && b <= 90) || (48 <= b && b <= 57) || b == 42
            || b == 45 || b == 46 || b == 95 {
            out.push(b as char);
        } else if b == 32 {
            out.push('+');
        } else {
            out.push('%');
            out.push(digit_char(b / 16));
            out.push(digit_char(b % 16));
        }
        proof {
            assert(bytes@.take(i as int + 1).drop_last() =~= bytes@.take(i as int));
            assert(bytes@.take(i as int + 1).last() == bytes@[i as int]);
            assert(out@ =~= old(out)@ + spec_urlencode(bytes@.take(i as int + 1)));
        }
        i = i + 1;
    }
    proof {
        assert(bytes@.take(n as int) =~= bytes@);
    }
}

// ---------------------------------------------------------------------------
// Identity hashing
// ---------------------------------------------------------------------------

/// Offset basis of the 64-bit FNV-1a hash.
pub const FNV_OFFSET: u64 = 0xcbf29ce484222325;

/// Prime of the 64-bit FNV-1a hash.
pub const FNV_PRIME: u64 = 0x100000001b3;

/// One FNV-1a mixing step.
pub open spec fn spec_fnv_step(h: u64, x: u64) -> u64 {
    vstd::wrapping::u64_specs::wrapping_mul(h ^ x, FNV_PRIME)
}

/// The fold of the FNV-1a step over the code points of `s`.
pub open spec fn spec_fnv_raw(h: u64, s: Seq<char>) -> u64
    decreases s.len(),
{
    if s.len() == 0 {
        h
    } else {
        spec_fnv_step(spec_fnv_raw(h, s.drop_last()), (s.last() as u32) as u64)
    }
}

/// Mixes a whole text field into `h`: its code points, then a terminator
/// that no code point can equal, so that adjacent fields cannot run together.
pub open spec fn spec_fnv_text(h: u64, s: Seq<char>) -> u64 {
    spec_fnv_step(spec_fnv_raw(h, s), 0x110000)
}

/// One executable FNV-1a mixing step.
pub(crate) fn fnv_step(h: u64, x: u64) -> (r: u64)
    ensures
        r == spec_fnv_step(h, x),
{
    (h ^ x).wrapping_mul(FNV_PRIME)
}

/// Mixes the characters of `s`, then a field terminator, into `h`.
pub(crate) fn fnv_text(h: u64, s: &str) -> (r: u64)
    ensures
        r == spec_fnv_text(h, s@),
{
    let n: usize = s.unicode_len();
    let mut i: usize = 0;
    let mut acc: u64 = h;
    while i < n
        invariant
            i <= n,
            n == s@.len(),
            acc == spec_fnv_raw(h, s@.take(i as int)),
        decreases n - i,
    {
        let c: char = s.get_char(i);
        acc = fnv_step(acc, (c as u32) as u64);
        proof {
            assert(s@.take(i as int + 1).drop_last() =~= s@.take(i as int));
            assert(s@.take(i as int + 1).last() == s@[i as int]);
        }
        i = i + 1;
    }
    proof {
        assert(s@.take(n as int) =~= s@);
    }
    fnv_step(acc, 0x110000)
}

} // verus!
