//! Decimal and hexadecimal text of numbers and hashes, as the RPC answers
//! and error messages show them.
use vstd::prelude::*;

verus! {

/// The hexadecimal digit of `d` (below 16), a letter in upper or lower case.
pub open spec fn hex_digit(d: nat, upper: bool) -> char {
    if d < 10 {
        (48 + d) as char
    } else if upper {
        (55 + d) as char
    } else {
        (87 + d) as char
    }
}

/// `n` in upper-case hexadecimal, without leading zeros: "0" for zero.
pub open spec fn upper_hex(n: nat) -> Seq<char>
    decreases n,
{
    if n < 16 {
        seq![hex_digit(n, true)]
    } else {
        upper_hex(n / 16).push(hex_digit(n % 16, true))
    }
}

/// The bytes of `bytes` in lower-case hexadecimal, two digits each.
pub open spec fn lower_hex_bytes(bytes: Seq<u8>) -> Seq<char>
    decreases bytes.len(),
{
    if bytes.len() == 0 {
        Seq::empty()
    } else {
        lower_hex_bytes(bytes.drop_last()).push(hex_digit(bytes.last() as nat / 16, false)).push(
            hex_digit(bytes.last() as nat % 16, false),
        )
    }
}

/// A hash as text: "0x" and its bytes in lower-case hexadecimal.
pub open spec fn hash_text(h: [u8; 32]) -> Seq<char> {
    seq!['0', 'x'] + lower_hex_bytes(h@)
}

/// Appends `c` to `s`.
///
/// Trusted: `String::push` of std, documented to append the given char to the
/// end of the string.
#[verifier::external_body]
fn push_char(s: &mut String, c: char)
    ensures
        final(s)@ == old(s)@.push(c),
{
    s.push(c);
}

/// The hexadecimal digit of `d`.
fn digit_char(d: u8, upper: bool) -> (c: char)
    requires
        d < 16,
    ensures
        c == hex_digit(d as nat, upper),
{
    if d < 10 {
        (48 + d) as char
    } else if upper {
        (55 + d) as char
    } else {
        (87 + d) as char
    }
}

/// `n` in upper-case hexadecimal, without leading zeros.
pub fn upper_hex_string(n: u64) -> (s: String)
    ensures
        s@ == upper_hex(n as nat),
    decreases n,
{
    if n < 16 {
        let mut s = String::new();
        push_char(&mut s, digit_char(n as u8, true));
        s
    } else {
        let mut s = upper_hex_string(n / 16);
        push_char(&mut s, digit_char((n % 16) as u8, true));
        s
    }
}

/// A hash as text: "0x" and its bytes in lower-case hexadecimal.
pub fn hash_string(h: &[u8; 32]) -> (s: String)
    ensures
        s@ == hash_text(*h),
{
    let mut s = String::new();
    push_char(&mut s, '0');
    push_char(&mut s, 'x');
    let mut i: usize = 0;
    while i < 32
        invariant
            i <= 32,
            s@ == seq!['0', 'x'] + lower_hex_bytes(h@.take(i as int)),
        decreases 32 - i,
    {
        let b = h[i];
        proof {
            assert(h@.take(i + 1).drop_last() =~= h@.take(i as int));
            assert(h@.take(i + 1).last() == b);
        }
        push_char(&mut s, digit_char(b / 16, false));
        push_char(&mut s, digit_char(b % 16, false));
        i = i + 1;
    }
    assert(h@.take(32) =~= h@);
    s
}

/// `n` in decimal, without leading zeros: "0" for zero.
pub open spec fn decimal_text(n: nat) -> Seq<char>
    decreases n,
{
    if n < 10 {
        seq![hex_digit(n, false)]
    } else {
        decimal_text(n / 10).push(hex_digit(n % 10, false))
    }
}

/// `n` in decimal, without leading zeros.
pub fn decimal_string(n: u64) -> (s: String)
    ensures
        s@ == decimal_text(n as nat),
    decreases n,
{
    if n < 10 {
        let mut s = String::new();
        push_char(&mut s, digit_char(n as u8, false));
        s
    } else {
        let mut s = decimal_string(n / 10);
        push_char(&mut s, digit_char((n % 10) as u8, false));
        s
    }
}

} // verus!
