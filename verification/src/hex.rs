use vstd::prelude::*;

use crate::strutil::push_char;

verus! {

/// True of the lowercase hexadecimal digit characters.
pub open spec fn is_lower_hex_char(c: char) -> bool {
    ('0' <= c && c <= '9') || ('a' <= c && c <= 'f')
}

/// The lowercase hexadecimal digit for a value below sixteen.
pub open spec fn spec_hex_digit(n: u8) -> char
    recommends
        n < 16,
{
    if n == 0 { '0' } else if n == 1 { '1' } else if n == 2 { '2' } else if n == 3 { '3' }
    else if n == 4 { '4' } else if n == 5 { '5' } else if n == 6 { '6' } else if n == 7 { '7' }
    else if n == 8 { '8' } else if n == 9 { '9' } else if n == 10 { 'a' } else if n == 11 { 'b' }
    else if n == 12 { 'c' } else if n == 13 { 'd' } else if n == 14 { 'e' } else { 'f' }
}

/// Turns a value below sixteen into its lowercase hexadecimal digit.
pub fn hex_digit(n: u8) -> (c: char)
    requires
        n < 16,
    ensures
        c == spec_hex_digit(n),
        is_lower_hex_char(c),
{
    if n == 0 { '0' } else if n == 1 { '1' } else if n == 2 { '2' } else if n == 3 { '3' }
    else if n == 4 { '4' } else if n == 5 { '5' } else if n == 6 { '6' } else if n == 7 { '7' }
    else if n == 8 { '8' } else if n == 9 { '9' } else if n == 10 { 'a' } else if n == 11 { 'b' }
    else if n == 12 { 'c' } else if n == 13 { 'd' } else if n == 14 { 'e' } else { 'f' }
}

/// Draws one byte from the thread-local random number generator.
///
/// Relies on `rand::random::<u8>`: any byte may come back, so nothing more
/// is promised of the result.
#[verifier::external_body]
fn random_byte() -> u8 {
    rand::random::<u8>()
}

/// Renders `half_length` random bytes as lowercase hexadecimal, two digits
/// per byte. A non-positive `half_length` gives the empty string.
pub fn generate_hex_string(half_length: i32) -> (s: String)
    ensures
        half_length >= 0 ==> s@.len() == 2 * half_length as int,
        half_length < 0 ==> s@.len() == 0,
        forall|i: int| 0 <= i < s@.len() ==> is_lower_hex_char(#[trigger] s@[i]),
{
    let mut s = String::new();
    let mut i: i32 = 0;
    while i < half_length
        invariant
            0 <= i,
            half_length >= 0 ==> i <= half_length,
            half_length < 0 ==> i == 0,
            s@.len() == 2 * i as int,
            forall|j: int| 0 <= j < s@.len() ==> is_lower_hex_char(#[trigger] s@[j]),
        decreases half_length - i,
    {
        let b = random_byte();
        push_char(&mut s, hex_digit(b / 16));
        push_char(&mut s, hex_digit(b % 16));
        i = i + 1;
    }
    s
}

/// True of a session identifier: five hyphen-joined groups of lowercase
/// hexadecimal digits with lengths 8, 4, 4, 4 and 12.
pub open spec fn is_session_id(s: Seq<char>) -> bool {
    &&& s.len() == 36
    &&& forall|i: int|
        0 <= i < 36 ==> if i == 8 || i == 13 || i == 18 || i == 23 {
            s[i] == '-'
        } else {
            is_lower_hex_char(#[trigger] s[i])
        }
}

/// Produces a fresh random session identifier: five hyphen-joined
/// lowercase-hex groups of lengths 8, 4, 4, 4 and 12.
pub fn generate_session_id() -> (s: String)
    ensures
        is_session_id(s@),
{
    let mut s = generate_hex_string(4);
    push_char(&mut s, '-');
    let g2 = generate_hex_string(2);
    s.append(g2.as_str());
    push_char(&mut s, '-');
    let g3 = generate_hex_string(2);
    s.append(g3.as_str());
    push_char(&mut s, '-');
    let g4 = generate_hex_string(2);
    s.append(g4.as_str());
    push_char(&mut s, '-');
    let g5 = generate_hex_string(6);
    s.append(g5.as_str());
    s
}

} // verus!
