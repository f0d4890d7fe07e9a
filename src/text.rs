use vstd::prelude::*;
use vstd::string::*;

verus! {

/// The characters used for digits, in lower case.
pub open spec fn digit_chars() -> Seq<char> {
    seq!['0', '1', '2', '3', '4', '5', '6', '7', '8', '9', 'a', 'b', 'c', 'd', 'e', 'f']
}

/// The two lower-case hexadecimal digits of a byte.
pub open spec fn hex_byte(b: u8) -> Seq<char> {
    seq![digit_chars()[b as int / 16], digit_chars()[b as int % 16]]
}

/// The bytes as hexadecimal digits, two per byte, with nothing between them.
pub open spec fn bare_hex(s: Seq<u8>) -> Seq<char>
    decreases s.len(),
{
    if s.len() == 0 {
        Seq::empty()
    } else {
        bare_hex(s.drop_last()) + hex_byte(s.last())
    }
}

/// The bytes as hexadecimal digits, two per byte, with a colon between bytes.
pub open spec fn colon_hex(s: Seq<u8>) -> Seq<char>
    decreases s.len(),
{
    if s.len() == 0 {
        Seq::empty()
    } else if s.len() == 1 {
        hex_byte(s[0])
    } else {
        colon_hex(s.drop_last()) + seq![':'] + hex_byte(s.last())
    }
}

/// The decimal digits of a natural number, without leading zeros.
pub open spec fn decimal(n: nat) -> Seq<char>
    decreases n,
{
    if n < 10 {
        seq![digit_chars()[n as int]]
    } else {
        decimal(n / 10) + seq![digit_chars()[(n % 10) as int]]
    }
}

/// The decimal text of an integer, with a leading minus sign when it is negative.
pub open spec fn signed_decimal(v: int) -> Seq<char> {
    if v < 0 {
        seq!['-'] + decimal((-v) as nat)
    } else {
        decimal(v as nat)
    }
}

/// The one-character text of a digit below sixteen.
pub fn digit_str(d: u8) -> (r: &'static str)
    requires
        d < 16,
    ensures
        r@ == seq![digit_chars()[d as int]],
{
    let digits = "0123456789abcdef";
    proof {
        reveal_strlit("0123456789abcdef");
        assert(digits@ =~= digit_chars());
    }
    digits.substring_ascii(d as usize, d as usize + 1)
}

/// Appends the two hexadecimal digits of `b`.
pub fn push_hex_byte(s: &mut String, b: u8)
    ensures
        final(s)@ == old(s)@ + hex_byte(b),
{
    s.append(digit_str(b / 16));
    s.append(digit_str(b % 16));
}

/// The decimal text of a natural number.
pub fn decimal_string(n: u32) -> (r: String)
    ensures
        r@ == decimal(n as nat),
    decreases n,
{
    if n < 10 {
        digit_str(n as u8).to_owned()
    } else {
        let mut s = decimal_string(n / 10);
        s.append(digit_str((n % 10) as u8));
        s
    }
}

/// The decimal text of a signed integer.
pub fn signed_decimal_string(v: i32) -> (r: String)
    ensures
        r@ == signed_decimal(v as int),
{
    if v < 0 {
        let magnitude = (-(v as i64)) as u32;
        let digits = decimal_string(magnitude);
        let minus = "-";
        proof {
            reveal_strlit("-");
        }
        let mut s = minus.to_owned();
        s.append(digits.as_str());
        s
    } else {
        decimal_string(v as u32)
    }
}

} // verus!
