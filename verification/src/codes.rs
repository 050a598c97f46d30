//! Verification code extraction.
//!
//! A verification mail carries its six-digit code inside an HTML fragment:
//! somewhere after the literal marker `eaeaea` (a color value that is stable
//! across these mails), on the same line, a tag ends with `>`, then come
//! exactly six ASCII digits, then the closing tag `</span>`. The extractor
//! scans an untrusted message body for that shape and returns the digits of
//! the first such fragment, or nothing. Absence of a match is the only
//! negative outcome; no input is an error.
//!
//! The reported match is pinned down exactly: the marker position is the
//! leftmost one from which the whole shape can be completed, and for that
//! marker the `>` sits as far right as the shape allows (the gap between
//! marker and `>` is matched greedily, never across a line break).

use vstd::prelude::*;

verus! {

/// ASCII decimal digit.
pub open spec fn is_digit(b: u8) -> bool {
    48 <= b && b <= 57
}

/// The literal marker `eaeaea` occupies `s[m..m+6]`.
pub open spec fn marker_at(s: Seq<u8>, m: int) -> bool {
    &&& 0 <= m
    &&& m + 6 <= s.len()
    &&& s[m] == 101u8
    &&& s[m + 1] == 97u8
    &&& s[m + 2] == 101u8
    &&& s[m + 3] == 97u8
    &&& s[m + 4] == 101u8
    &&& s[m + 5] == 97u8
}

/// Six ASCII digits occupy `s[d..d+6]`.
pub open spec fn digits_at(s: Seq<u8>, d: int) -> bool {
    &&& 0 <= d
    &&& d + 6 <= s.len()
    &&& is_digit(s[d])
    &&& is_digit(s[d + 1])
    &&& is_digit(s[d + 2])
    &&& is_digit(s[d + 3])
    &&& is_digit(s[d + 4])
    &&& is_digit(s[d + 5])
}

/// The closing tag `</span>` occupies `s[t..t+7]`.
pub open spec fn close_tag_at(s: Seq<u8>, t: int) -> bool {
    &&& 0 <= t
    &&& t + 7 <= s.len()
    &&& s[t] == 60u8
    &&& s[t + 1] == 47u8
    &&& s[t + 2] == 115u8
    &&& s[t + 3] == 112u8
    &&& s[t + 4] == 97u8
    &&& s[t + 5] == 110u8
    &&& s[t + 6] == 62u8
}

/// The whole shape matches with the marker at `m` and the `>` at `g`:
/// marker, a nonempty gap free of line breaks, `>`, six digits, `</span>`.
pub open spec fn hit_at(s: Seq<u8>, m: int, g: int) -> bool {
    &&& marker_at(s, m)
    &&& m + 7 <= g
    &&& g + 14 <= s.len()
    &&& (forall|k: int| m + 6 <= k < g ==> #[trigger] s[k] != 10u8)
    &&& s[g] == 62u8
    &&& digits_at(s, g + 1)
    &&& close_tag_at(s, g + 7)
}

/// Some fragment of the body carries a code.
pub open spec fn has_code(s: Seq<u8>) -> bool {
    exists|m: int, g: int| hit_at(s, m, g)
}

/// The match the extractor reports: leftmost workable marker, and for that
/// marker the rightmost workable `>`.
pub open spec fn is_match(s: Seq<u8>, m: int, g: int) -> bool {
    &&& hit_at(s, m, g)
    &&& (forall|m2: int, g2: int| #[trigger] hit_at(s, m2, g2) ==> m <= m2)
    &&& (forall|g2: int| #[trigger] hit_at(s, m, g2) ==> g2 <= g)
}

/// The positions of the reported match (meaningful only when a match
/// exists; it is then unique).
pub open spec fn match_of(s: Seq<u8>) -> (int, int) {
    choose|mg: (int, int)| is_match(s, mg.0, mg.1)
}

/// What the extractor returns on a given body.
pub open spec fn spec_extract(s: Seq<u8>) -> Option<Seq<u8>> {
    if has_code(s) {
        Some(s.subrange(match_of(s).1 + 1, match_of(s).1 + 7))
    } else {
        None
    }
}

/// A verification code: exactly six ASCII digits.
pub open spec fn is_code(s: Seq<u8>) -> bool {
    s.len() == 6 && (forall|k: int| 0 <= k < 6 ==> is_digit(#[trigger] s[k]))
}

/// An extracted option, seen as its mathematical value.
pub open spec fn view_code(o: Option<Vec<u8>>) -> Option<Seq<u8>> {
    match o {
        Some(v) => Some(v@),
        None => None,
    }
}

/// At most one pair of positions is the reported match.
pub proof fn lemma_match_unique(s: Seq<u8>, m1: int, g1: int, m2: int, g2: int)
    requires
        is_match(s, m1, g1),
        is_match(s, m2, g2),
    ensures
        m1 == m2,
        g1 == g2,
{
    assert(hit_at(s, m1, g1));
    assert(hit_at(s, m2, g2));
    assert(m1 <= m2);
    assert(m2 <= m1);
}

/// Whenever the shape matches somewhere, the extractor returns exactly the
/// six digits of the leftmost, greedily completed fragment.
pub proof fn lemma_extract_of_match(s: Seq<u8>, m: int, g: int)
    requires
        is_match(s, m, g),
    ensures
        spec_extract(s) == Some(s.subrange(g + 1, g + 7)),
{
    assert(hit_at(s, m, g));
    assert(has_code(s));
    let w = (m, g);
    assert(is_match(s, w.0, w.1));
    let mg = match_of(s);
    assert(is_match(s, mg.0, mg.1));
    lemma_match_unique(s, mg.0, mg.1, m, g);
}

/// A body without the marker anywhere yields no code.
pub proof fn lemma_no_marker_no_code(s: Seq<u8>)
    requires
        forall|m: int| !(#[trigger] marker_at(s, m)),
    ensures
        !has_code(s),
{
    assert forall|m: int, g: int| !hit_at(s, m, g) by {
        if hit_at(s, m, g) {
            assert(marker_at(s, m));
        }
    }
}

/// A body yields no code unless some closing tag is immediately preceded
/// by exactly six digits with a `>` right before them: next to a digit run
/// of any other length the tag never matches.
pub proof fn lemma_no_exact_run_no_code(s: Seq<u8>)
    requires
        forall|t: int| #[trigger] close_tag_at(s, t) ==> !(t >= 8 && s[t - 7] == 62u8
            && digits_at(s, t - 6)),
    ensures
        !has_code(s),
{
    assert forall|m: int, g: int| !hit_at(s, m, g) by {
        if hit_at(s, m, g) {
            assert(close_tag_at(s, g + 7));
        }
    }
}

/// The digit run of a hit is exactly six long: the byte before the digits
/// is `>` and the byte after them is `<`, neither of which is a digit.
pub proof fn lemma_digit_run_exactly_six(s: Seq<u8>, m: int, g: int)
    requires
        hit_at(s, m, g),
    ensures
        digits_at(s, g + 1),
        !is_digit(s[g]),
        !is_digit(s[g + 7]),
{
}

/// Six comparisons against the marker bytes.
fn marker_at_exec(s: &Vec<u8>, m: usize) -> (r: bool)
    requires
        m + 6 <= s.len(),
    ensures
        r == marker_at(s@, m as int),
{
    s[m] == 101 && s[m + 1] == 97 && s[m + 2] == 101 && s[m + 3] == 97 && s[m + 4] == 101
        && s[m + 5] == 97
}

/// Six digit tests.
fn digits_at_exec(s: &Vec<u8>, d: usize) -> (r: bool)
    requires
        d + 6 <= s.len(),
    ensures
        r == digits_at(s@, d as int),
{
    48 <= s[d] && s[d] <= 57 && 48 <= s[d + 1] && s[d + 1] <= 57 && 48 <= s[d + 2] && s[d + 2]
        <= 57 && 48 <= s[d + 3] && s[d + 3] <= 57 && 48 <= s[d + 4] && s[d + 4] <= 57 && 48 <= s[d
        + 5] && s[d + 5] <= 57
}

/// Seven comparisons against `</span>`.
fn close_tag_at_exec(s: &Vec<u8>, t: usize) -> (r: bool)
    requires
        t + 7 <= s.len(),
    ensures
        r == close_tag_at(s@, t as int),
{
    s[t] == 60 && s[t + 1] == 47 && s[t + 2] == 115 && s[t + 3] == 112 && s[t + 4] == 97 && s[t
        + 5] == 110 && s[t + 6] == 62
}

/// For a marker known to sit at `m`, finds the rightmost `g` that completes
/// the shape, scanning the gap up to the first line break.
fn scan_greedy(s: &Vec<u8>, m: usize) -> (r: Option<usize>)
    requires
        marker_at(s@, m as int),
    ensures
        match r {
            Some(g) => hit_at(s@, m as int, g as int) && (forall|g2: int|
                #[trigger] hit_at(s@, m as int, g2) ==> g2 <= g as int),
            None => forall|g2: int| !(#[trigger] hit_at(s@, m as int, g2)),
        },
{
    let n = s.len();
    if n < 21 || m > n - 21 {
        proof {
            assert forall|g2: int| !hit_at(s@, m as int, g2) by {
                if hit_at(s@, m as int, g2) {
                    assert(g2 >= m + 7 && g2 + 14 <= n);
                }
            }
        }
        return None;
    }
    if s[m + 6] == 10 {
        proof {
            assert forall|g2: int| !hit_at(s@, m as int, g2) by {
                if hit_at(s@, m as int, g2) {
                    assert(s@[m + 6] != 10u8);
                }
            }
        }
        return None;
    }
    let mut j: usize = m + 7;
    let mut best: Option<usize> = None;
    let mut saw_nl: bool = false;
    while !saw_nl && j <= n - 14
        invariant
            n == s.len(),
            14 <= n,
            m + 21 <= n,
            m + 7 <= j,
            marker_at(s@, m as int),
            forall|k: int| m + 6 <= k < j ==> #[trigger] s@[k] != 10u8,
            saw_nl ==> j + 14 <= n && s@[j as int] == 10u8,
            match best {
                Some(b) => hit_at(s@, m as int, b as int) && m + 7 <= b < j,
                None => true,
            },
            forall|g2: int| #[trigger] hit_at(s@, m as int, g2) && g2 < j ==> (best matches Some(b)
                && g2 <= b as int),
        decreases n - j + (if saw_nl { 0int } else { 1int }),
    {
        if s[j] == 10 {
            saw_nl = true;
        } else {
            if s[j] == 62 && digits_at_exec(s, j + 1) && close_tag_at_exec(s, j + 7) {
                proof {
                    assert(hit_at(s@, m as int, j as int));
                }
                best = Some(j);
            }
            j = j + 1;
        }
    }
    proof {
        assert forall|g2: int| #[trigger] hit_at(s@, m as int, g2) implies (best matches Some(b)
            && g2 <= b as int) by {
            if g2 < j {
            } else {
                if saw_nl {
                    if g2 == j {
                        assert(s@[g2] == 10u8);
                    } else {
                        assert(s@[j as int] == 10u8);
                        assert(m + 6 <= j < g2);
                    }
                    assert(false);
                } else {
                    assert(j > n - 14);
                    assert(g2 + 14 <= n);
                    assert(false);
                }
            }
        }
    }
    best
}

/// Copies the six digit bytes that follow the `>` at `g`.
fn copy_code(s: &Vec<u8>, g: usize) -> (r: Vec<u8>)
    requires
        g + 14 <= s.len(),
    ensures
        r@ == s@.subrange(g + 1, g + 7),
{
    let mut out: Vec<u8> = Vec::new();
    let mut k: usize = 0;
    while k < 6
        invariant
            k <= 6,
            g + 14 <= s.len(),
            out@ == s@.subrange(g + 1, g + 1 + k as int),
        decreases 6 - k,
    {
        out.push(s[g + 1 + k]);
        proof {
            assert(out@ =~= s@.subrange(g + 1, g + 2 + k as int));
        }
        k = k + 1;
    }
    proof {
        assert(out@ =~= s@.subrange(g + 1, g + 7));
    }
    out
}

/// Scans a message body for the code fragment and returns its six digits,
/// or `None` when no fragment of the expected shape is present. The body is
/// arbitrary text; no input fails.
pub fn extract_code(body: &Vec<u8>) -> (r: Option<Vec<u8>>)
    ensures
        view_code(r) == spec_extract(body@),
        r is Some <==> has_code(body@),
        r matches Some(c) ==> is_code(c@),
{
    let n = body.len();
    let mut m: usize = 0;
    while n >= 21 && m <= n - 21
        invariant
            n == body.len(),
            forall|m2: int, g2: int| #[trigger] hit_at(body@, m2, g2) ==> m2 >= m as int,
        decreases n - m,
    {
        if marker_at_exec(body, m) {
            match scan_greedy(body, m) {
                Some(g) => {
                    proof {
                        assert(is_match(body@, m as int, g as int));
                        lemma_extract_of_match(body@, m as int, g as int);
                    }
                    let code = copy_code(body, g);
                    proof {
                        assert forall|k: int| 0 <= k < 6 implies is_digit(code@[k]) by {
                            assert(k == 0 || k == 1 || k == 2 || k == 3 || k == 4 || k == 5);
                            assert(code@[k] == body@[g + 1 + k]);
                            assert(digits_at(body@, g + 1));
                        }
                    }
                    return Some(code);
                },
                None => {},
            }
        }
        proof {
            assert forall|m2: int, g2: int| #[trigger] hit_at(body@, m2, g2) implies m2 >= m
                + 1 by {
                if m2 == m as int {
                    assert(hit_at(body@, m as int, g2));
                }
            }
        }
        m = m + 1;
    }
    proof {
        assert forall|m2: int, g2: int| !(#[trigger] hit_at(body@, m2, g2)) by {
            if hit_at(body@, m2, g2) {
                assert(m2 >= m as int);
                assert(g2 >= m2 + 7 && g2 + 14 <= n);
            }
        }
        assert(!has_code(body@));
    }
    None
}

} // verus!
