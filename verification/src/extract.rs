use vstd::prelude::*;

verus! {

/// True of hexadecimal digit characters of either case.
pub open spec fn is_hex_digit_char(c: char) -> bool {
    ('0' <= c && c <= '9') || ('a' <= c && c <= 'f') || ('A' <= c && c <= 'F')
}

/// True where `s` is shaped like one identifier of a course URL: five
/// groups of hexadecimal digits of lengths 8, 4, 4, 4 and 12, joined by
/// hyphens, the case of the digits kept as typed.
pub open spec fn id_shaped(s: Seq<char>) -> bool {
    &&& s.len() == 36
    &&& forall|i: int|
        0 <= i < 36 ==> if i == 8 || i == 13 || i == 18 || i == 23 {
            s[i] == '-'
        } else {
            is_hex_digit_char(#[trigger] s[i])
        }
}

/// The fingerprint of a pasted course URL, read at position `at` of `t`:
/// a course identifier, the literal `/section/`, and a section identifier,
/// 81 characters in all.
pub open spec fn match_at(t: Seq<char>, at: int) -> bool {
    &&& 0 <= at
    &&& at + 81 <= t.len()
    &&& id_shaped(t.subrange(at, at + 36))
    &&& t.subrange(at + 36, at + 45) == "/section/"@
    &&& id_shaped(t.subrange(at + 45, at + 81))
}

/// Decides whether the 36 characters of `text` starting at `at` are shaped
/// like a course or section identifier.
fn id_shaped_at(text: &str, at: usize) -> (r: bool)
    requires
        at + 36 <= text@.len(),
        at + 36 <= usize::MAX,
    ensures
        r == id_shaped(text@.subrange(at as int, at as int + 36)),
{
    let ghost sub = text@.subrange(at as int, at as int + 36);
    let mut k: usize = 0;
    while k < 36
        invariant
            k <= 36,
            at + 36 <= text@.len(),
            at + 36 <= usize::MAX,
            sub == text@.subrange(at as int, at as int + 36),
            forall|j: int|
                0 <= j < k ==> if j == 8 || j == 13 || j == 18 || j == 23 {
                    sub[j] == '-'
                } else {
                    is_hex_digit_char(#[trigger] sub[j])
                },
        decreases 36 - k,
    {
        let c = text.get_char(at + k);
        proof {
            assert(sub[k as int] == text@[at + k]);
        }
        if k == 8 || k == 13 || k == 18 || k == 23 {
            if c != '-' {
                return false;
            }
        } else {
            let hex = ('0' <= c && c <= '9') || ('a' <= c && c <= 'f') || ('A' <= c && c <= 'F');
            if !hex {
                return false;
            }
        }
        k = k + 1;
    }
    true
}

/// Decides whether the nine characters of `text` starting at `at` read
/// `/section/`.
fn section_marker_at(text: &str, at: usize) -> (r: bool)
    requires
        at + 9 <= text@.len(),
        at + 9 <= usize::MAX,
    ensures
        r == (text@.subrange(at as int, at as int + 9) == "/section/"@),
{
    proof {
        reveal_strlit("/section/");
    }
    let marker = "/section/";
    let ghost sub = text@.subrange(at as int, at as int + 9);
    let mut k: usize = 0;
    while k < 9
        invariant
            k <= 9,
            at + 9 <= text@.len(),
            at + 9 <= usize::MAX,
            marker@ == "/section/"@,
            marker@.len() == 9,
            sub == text@.subrange(at as int, at as int + 9),
            forall|j: int| 0 <= j < k ==> #[trigger] sub[j] == marker@[j],
        decreases 9 - k,
    {
        let c = text.get_char(at + k);
        let m = marker.get_char(k);
        proof {
            assert(sub[k as int] == text@[at + k]);
        }
        if c != m {
            proof {
                assert(sub[k as int] != "/section/"@[k as int]);
            }
            return false;
        }
        k = k + 1;
    }
    proof {
        assert(sub =~= "/section/"@);
    }
    true
}

/// Hunts through pasted text for the fixed course-URL fingerprint and
/// returns the course and section identifiers of its leftmost occurrence,
/// verbatim, or nothing when no part of the text is shaped that way. Text
/// without a match is a recoverable user error, never a panic.
pub fn extract_course_section(text: &str) -> (r: Option<(String, String)>)
    ensures
        r is Some <==> exists|i: int| match_at(text@, i),
        r matches Some(ids) ==> exists|i: int|
            {
                &&& #[trigger] match_at(text@, i)
                &&& forall|j: int| 0 <= j < i ==> !match_at(text@, j)
                &&& ids.0@ == text@.subrange(i, i + 36)
                &&& ids.1@ == text@.subrange(i + 45, i + 81)
            },
{
    let n: usize = text.unicode_len();
    if n < 81 {
        proof {
            assert(forall|i: int| !match_at(text@, i));
        }
        return None;
    }
    let mut at: usize = 0;
    while at <= n - 81
        invariant
            n == text@.len(),
            81 <= n,
            at <= n - 81 + 1,
            forall|j: int| 0 <= j < at ==> !match_at(text@, j),
        decreases n - at,
    {
        if id_shaped_at(text, at) && section_marker_at(text, at + 36) && id_shaped_at(
            text,
            at + 45,
        ) {
            let course = text.substring_char(at, at + 36);
            let section = text.substring_char(at + 45, at + 81);
            proof {
                assert(match_at(text@, at as int));
            }
            return Some((String::from_str(course), String::from_str(section)));
        }
        proof {
            assert(!match_at(text@, at as int));
        }
        at = at + 1;
    }
    proof {
        assert forall|i: int| !match_at(text@, i) by {
            if 0 <= i <= n - 81 {
                assert(!match_at(text@, i));
            }
        }
    }
    None
}

} // verus!
