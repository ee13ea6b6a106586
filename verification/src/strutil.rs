//! Case normalization and substring search over operator tokens, used to
//! classify a predicate's comparator.

use vstd::prelude::*;

verus! {

/// ASCII upper-casing of one character; every other character is unchanged.
pub open spec fn upper_char(c: char) -> char {
    match c {
        'a' => 'A',
        'b' => 'B',
        'c' => 'C',
        'd' => 'D',
        'e' => 'E',
        'f' => 'F',
        'g' => 'G',
        'h' => 'H',
        'i' => 'I',
        'j' => 'J',
        'k' => 'K',
        'l' => 'L',
        'm' => 'M',
        'n' => 'N',
        'o' => 'O',
        'p' => 'P',
        'q' => 'Q',
        'r' => 'R',
        's' => 'S',
        't' => 'T',
        'u' => 'U',
        'v' => 'V',
        'w' => 'W',
        'x' => 'X',
        'y' => 'Y',
        'z' => 'Z',
        _ => c,
    }
}

/// ASCII upper-casing of a character sequence.
pub open spec fn upper_seq(s: Seq<char>) -> Seq<char> {
    s.map_values(|c: char| upper_char(c))
}

/// Whether `p` occurs, contiguously, inside `s`.
pub open spec fn contains_seq(s: Seq<char>, p: Seq<char>) -> bool {
    exists|i: int|
        0 <= i <= s.len() - p.len() && #[trigger] s.subrange(i, i + p.len() as int) == p
}

/// Whether the upper-cased `s` contains `p` (`p` is expected upper-case already).
pub open spec fn upper_contains(s: Seq<char>, p: Seq<char>) -> bool {
    contains_seq(upper_seq(s), p)
}

fn upper_char_x(c: char) -> (r: char)
    ensures
        r == upper_char(c),
{
    match c {
        'a' => 'A',
        'b' => 'B',
        'c' => 'C',
        'd' => 'D',
        'e' => 'E',
        'f' => 'F',
        'g' => 'G',
        'h' => 'H',
        'i' => 'I',
        'j' => 'J',
        'k' => 'K',
        'l' => 'L',
        'm' => 'M',
        'n' => 'N',
        'o' => 'O',
        'p' => 'P',
        'q' => 'Q',
        'r' => 'R',
        's' => 'S',
        't' => 'T',
        'u' => 'U',
        'v' => 'V',
        'w' => 'W',
        'x' => 'X',
        'y' => 'Y',
        'z' => 'Z',
        _ => c,
    }
}

/// Whether the ASCII-upper-cased `s` equals the (already upper-case) `p`.
pub fn eq_ignore_case(s: &str, p: &str) -> (b: bool)
    ensures
        b == (upper_seq(s@) == p@),
{
    let n = s.unicode_len();
    let m = p.unicode_len();
    if n != m {
        proof {
            assert(upper_seq(s@).len() == s@.len());
        }
        return false;
    }
    let mut i: usize = 0;
    while i < n
        invariant
            n == s@.len() && n == p@.len(),
            i <= n,
            forall|j: int| 0 <= j < i as int ==> upper_char(s@[j]) == p@[j],
        decreases n - i,
    {
        let cs = upper_char_x(s.get_char(i));
        let cp = p.get_char(i);
        if cs != cp {
            proof {
                assert(upper_seq(s@)[i as int] == upper_char(s@[i as int]));
            }
            return false;
        }
        i = i + 1;
    }
    proof {
        assert(upper_seq(s@) =~= p@);
    }
    true
}

/// Whether the upper-cased character at `i..i+m` of `s` matches `p` exactly.
spec fn match_at(s: Seq<char>, p: Seq<char>, i: int) -> bool {
    upper_seq(s).subrange(i, i + p.len() as int) == p
}

fn matches_at(s: &str, p: &str, i: usize) -> (b: bool)
    requires
        i + p@.len() <= s@.len(),
        s@.len() <= usize::MAX,
    ensures
        b == match_at(s@, p@, i as int),
{
    let m = p.unicode_len();
    let mut j: usize = 0;
    while j < m
        invariant
            m == p@.len(),
            i + m <= s@.len(),
            s@.len() <= usize::MAX,
            j <= m,
            forall|t: int| 0 <= t < j as int ==> upper_char(s@[i + t]) == p@[t],
        decreases m - j,
    {
        let cs = upper_char_x(s.get_char(i + j));
        let cp = p.get_char(j);
        if cs != cp {
            proof {
                assert(upper_seq(s@).subrange(i as int, i + p@.len() as int)[j as int]
                    == upper_char(s@[i + j]));
            }
            return false;
        }
        j = j + 1;
    }
    proof {
        assert(upper_seq(s@).subrange(i as int, i + p@.len() as int) =~= p@);
    }
    true
}

/// Whether the ASCII-upper-cased `s` contains the (already upper-case) `p`.
pub fn contains_ignore_case(s: &str, p: &str) -> (b: bool)
    ensures
        b == upper_contains(s@, p@),
{
    let n = s.unicode_len();
    let m = p.unicode_len();
    if m > n {
        proof {
            assert(upper_seq(s@).len() == s@.len());
        }
        return false;
    }
    if m == 0 {
        proof {
            let w: int = 0;
            assert(upper_seq(s@).len() == s@.len());
            assert(upper_seq(s@).subrange(w, w + p@.len() as int) =~= p@);
            assert(contains_seq(upper_seq(s@), p@));
        }
        return true;
    }
    let mut i: usize = 0;
    while i <= n - m
        invariant
            n == s@.len() && m == p@.len(),
            0 < m <= n,
            i <= n - m + 1,
            forall|t: int| 0 <= t < i as int ==> !match_at(s@, p@, t),
        decreases n - i,
    {
        if matches_at(s, p, i) {
            proof {
                let w: int = i as int;
                assert(upper_seq(s@).len() == s@.len());
                assert(0 <= w <= upper_seq(s@).len() - p@.len());
                assert(upper_seq(s@).subrange(w, w + p@.len() as int) == p@);
                assert(contains_seq(upper_seq(s@), p@));
            }
            return true;
        }
        i = i + 1;
    }
    proof {
        assert(upper_seq(s@).len() == s@.len());
        assert forall|t: int| 0 <= t <= s@.len() - p@.len() implies #[trigger] upper_seq(
            s@,
        ).subrange(t, t + p@.len() as int) != p@ by {
            assert(!match_at(s@, p@, t));
        }
    }
    false
}

} // verus!
