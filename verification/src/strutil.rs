use vstd::prelude::*;

verus! {

/// Appends one character to a string.
///
/// Relies on `String::push` from std, which appends the given `char` to the
/// end of the string.
#[verifier::external_body]
pub(crate) fn push_char(s: &mut String, c: char)
    ensures
        final(s)@ == old(s)@.push(c),
{
    s.push(c);
}

/// A sequence of `n` space characters.
pub open spec fn spec_spaces(n: nat) -> Seq<char> {
    Seq::new(n, |i: int| ' ')
}

/// Builds a string of `n` spaces, as the padding between aligned columns.
pub fn spaces(n: usize) -> (s: String)
    ensures
        s@ == spec_spaces(n as nat),
{
    let mut s = String::new();
    let mut i: usize = 0;
    while i < n
        invariant
            i <= n,
            s@ == spec_spaces(i as nat),
        decreases n - i,
    {
        push_char(&mut s, ' ');
        proof {
            assert(s@ =~= spec_spaces((i + 1) as nat));
        }
        i = i + 1;
    }
    s
}

/// The decimal digits of a non-negative number, most significant first.
pub open spec fn spec_decimal(n: int) -> Seq<char>
    recommends
        n >= 0,
    decreases n,
{
    if n < 10 {
        seq![crate::hex::spec_hex_digit(if 0 <= n { n as u8 } else { 0 })]
    } else {
        spec_decimal(n / 10).push(crate::hex::spec_hex_digit((n % 10) as u8))
    }
}

/// Renders a status code as its decimal digits.
pub fn decimal_u16(n: u16) -> (s: String)
    ensures
        s@ == spec_decimal(n as int),
    decreases n,
{
    if n < 10 {
        let mut s = String::new();
        push_char(&mut s, crate::hex::hex_digit(n as u8));
        s
    } else {
        let mut s = decimal_u16(n / 10);
        push_char(&mut s, crate::hex::hex_digit((n % 10) as u8));
        s
    }
}

/// True of the characters with Unicode's White_Space property, the set a
/// trim removes from either end.
pub open spec fn is_space_char(c: char) -> bool {
    ||| c == ' '
    ||| c == '\t'
    ||| c == '\n'
    ||| c == '\r'
    ||| c == '\u{000B}'
    ||| c == '\u{000C}'
    ||| c == '\u{0085}'
    ||| c == '\u{00A0}'
    ||| c == '\u{1680}'
    ||| ('\u{2000}' <= c && c <= '\u{200A}')
    ||| c == '\u{2028}'
    ||| c == '\u{2029}'
    ||| c == '\u{202F}'
    ||| c == '\u{205F}'
    ||| c == '\u{3000}'
}

/// Decides whether a character has the White_Space property.
pub fn space_char(c: char) -> (r: bool)
    ensures
        r == is_space_char(c),
{
    c == ' ' || c == '\t' || c == '\n' || c == '\r' || c == '\u{000B}' || c == '\u{000C}' || c
        == '\u{0085}' || c == '\u{00A0}' || c == '\u{1680}' || ('\u{2000}' <= c && c <= '\u{200A}')
        || c == '\u{2028}' || c == '\u{2029}' || c == '\u{202F}' || c == '\u{205F}' || c
        == '\u{3000}'
}

/// `s` with its leading white space removed.
pub open spec fn spec_trim_start(s: Seq<char>) -> Seq<char>
    decreases s.len(),
{
    if s.len() > 0 && is_space_char(s[0]) {
        spec_trim_start(s.drop_first())
    } else {
        s
    }
}

/// `s` with its trailing white space removed.
pub open spec fn spec_trim_end(s: Seq<char>) -> Seq<char>
    decreases s.len(),
{
    if s.len() > 0 && is_space_char(s.last()) {
        spec_trim_end(s.drop_last())
    } else {
        s
    }
}

/// `s` with white space removed from both ends.
pub open spec fn spec_trim(s: Seq<char>) -> Seq<char> {
    spec_trim_end(spec_trim_start(s))
}

proof fn lemma_trim_start_skip(s: Seq<char>, i: int)
    requires
        0 <= i <= s.len(),
        forall|k: int| 0 <= k < i ==> is_space_char(#[trigger] s[k]),
        i == s.len() || !is_space_char(s[i]),
    ensures
        spec_trim_start(s) == s.skip(i),
    decreases i,
{
    if i == 0 {
        assert(s.skip(0) =~= s);
    } else {
        assert(is_space_char(s[0]));
        lemma_trim_start_skip(s.drop_first(), i - 1);
        assert(s.drop_first().skip(i - 1) =~= s.skip(i));
    }
}

proof fn lemma_trim_end_take(s: Seq<char>, j: int)
    requires
        0 <= j <= s.len(),
        forall|k: int| j <= k < s.len() ==> is_space_char(#[trigger] s[k]),
        j == 0 || !is_space_char(s[j - 1]),
    ensures
        spec_trim_end(s) == s.take(j),
    decreases s.len() - j,
{
    if j == s.len() {
        assert(s.take(j) =~= s);
    } else {
        assert(is_space_char(s.last()));
        lemma_trim_end_take(s.drop_last(), j);
        assert(s.drop_last().take(j) =~= s.take(j));
    }
}

/// Removes white space from both ends of a string.
pub fn trim_spaces(s: &str) -> (r: String)
    ensures
        r@ == spec_trim(s@),
{
    let n: usize = s.unicode_len();
    let mut i: usize = 0;
    while i < n && space_char(s.get_char(i))
        invariant
            n == s@.len(),
            i <= n,
            forall|k: int| 0 <= k < i ==> is_space_char(#[trigger] s@[k]),
        decreases n - i,
    {
        i = i + 1;
    }
    let mut j: usize = n;
    while j > i && space_char(s.get_char(j - 1))
        invariant
            n == s@.len(),
            i <= j <= n,
            forall|k: int| 0 <= k < i ==> is_space_char(#[trigger] s@[k]),
            forall|k: int| j <= k < n ==> is_space_char(#[trigger] s@[k]),
        decreases j,
    {
        j = j - 1;
    }
    let out = s.substring_char(i, j);
    proof {
        lemma_trim_start_skip(s@, i as int);
        let skipped = s@.skip(i as int);
        if j == i {
            lemma_trim_end_take(skipped, 0);
        } else {
            assert(!is_space_char(skipped[j - i - 1]));
            lemma_trim_end_take(skipped, j - i);
        }
        assert(skipped.take(j - i) =~= s@.subrange(i as int, j as int));
    }
    String::from_str(out)
}

/// True when two string slices hold the same characters.
pub fn str_eq(a: &str, b: &str) -> (r: bool)
    ensures
        r == (a@ == b@),
{
    let x = String::from_str(a);
    let y = String::from_str(b);
    x == y
}

} // verus!
