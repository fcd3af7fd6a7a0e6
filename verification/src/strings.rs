//! Verified character and substring utilities used by the request classifier
//! and the target-URL builder: ASCII case folding, substring containment and
//! first-occurrence search, all specified over `Seq<char>` views.

use vstd::prelude::*;

verus! {

/// ASCII lower-casing of a single character; any other character is kept.
pub open spec fn lower_char(c: char) -> char {
    if 'A' <= c && c <= 'Z' {
        ((c as int) + 32) as char
    } else {
        c
    }
}

/// Character-wise ASCII lower-casing of a character sequence.
pub open spec fn lower_seq(s: Seq<char>) -> Seq<char> {
    s.map_values(|c: char| lower_char(c))
}

/// The needle `n` occurs in the haystack `h` starting at position `i`.
pub open spec fn match_at(h: Seq<char>, n: Seq<char>, i: int) -> bool {
    &&& 0 <= i
    &&& i + n.len() <= h.len()
    &&& forall|j: int| 0 <= j < n.len() ==> h[i + j] == n[j]
}

/// The needle `n` occurs somewhere in the haystack `h` (an empty needle
/// occurs in every haystack).
pub open spec fn contains_substr(h: Seq<char>, n: Seq<char>) -> bool {
    exists|i: int| match_at(h, n, i)
}

/// `s`, case-folded when `fold` is set and unchanged otherwise.
pub open spec fn fold_if(s: Seq<char>, fold: bool) -> Seq<char> {
    if fold {
        lower_seq(s)
    } else {
        s
    }
}

/// The position of the first occurrence of `n` in `h`; an arbitrary value
/// when `n` does not occur in `h`.
pub open spec fn first_index(h: Seq<char>, n: Seq<char>) -> int {
    choose|i: int|
        match_at(h, n, i) && (forall|j: int| 0 <= j < i ==> !match_at(h, n, j))
}

/// A position where `n` occurs, and before which it does not, is the first
/// occurrence of `n` in `h`.
pub proof fn lemma_first_index(h: Seq<char>, n: Seq<char>, i: int)
    requires
        match_at(h, n, i),
        forall|j: int| 0 <= j < i ==> !match_at(h, n, j),
    ensures
        first_index(h, n) == i,
{
    let k = choose|k: int|
        match_at(h, n, k) && (forall|j: int| 0 <= j < k ==> !match_at(h, n, j));
    assert(match_at(h, n, i) && (forall|j: int| 0 <= j < i ==> !match_at(h, n, j)));
    assert(match_at(h, n, k));
    if k < i {
        assert(!match_at(h, n, k));
    } else if i < k {
        assert(!match_at(h, n, i));
    }
}

/// ASCII lower-casing of one character.
pub fn lower_char_exec(c: char) -> (r: char)
    ensures
        r == lower_char(c),
{
    match c {
        'A' => 'a',
        'B' => 'b',
        'C' => 'c',
        'D' => 'd',
        'E' => 'e',
        'F' => 'f',
        'G' => 'g',
        'H' => 'h',
        'I' => 'i',
        'J' => 'j',
        'K' => 'k',
        'L' => 'l',
        'M' => 'm',
        'N' => 'n',
        'O' => 'o',
        'P' => 'p',
        'Q' => 'q',
        'R' => 'r',
        'S' => 's',
        'T' => 't',
        'U' => 'u',
        'V' => 'v',
        'W' => 'w',
        'X' => 'x',
        'Y' => 'y',
        'Z' => 'z',
        _ => c,
    }
}

/// Position of the first occurrence of `n` in `h`, both sides case-folded
/// when `fold` is set; `None` when `n` does not occur.
pub fn find_substr(h: &str, n: &str, fold: bool) -> (r: Option<usize>)
    ensures
        match r {
            Some(i) => {
                &&& match_at(fold_if(h@, fold), fold_if(n@, fold), i as int)
                &&& forall|j: int|
                    0 <= j < i ==> !match_at(fold_if(h@, fold), fold_if(n@, fold), j)
                &&& i as int == first_index(fold_if(h@, fold), fold_if(n@, fold))
            },
            None => !contains_substr(fold_if(h@, fold), fold_if(n@, fold)),
        },
{
    let ghost hh: Seq<char> = fold_if(h@, fold);
    let ghost nn: Seq<char> = fold_if(n@, fold);
    let hl = h.unicode_len();
    let nl = n.unicode_len();
    if nl > hl {
        return None;
    }
    let mut i: usize = 0;
    while i <= hl - nl
        invariant
            hh == fold_if(h@, fold),
            nn == fold_if(n@, fold),
            hl == h@.len(),
            nl == n@.len(),
            nl <= hl,
            i <= hl - nl + 1,
            forall|j: int| 0 <= j < i ==> !match_at(hh, nn, j),
        decreases hl - nl + 1 - i,
    {
        let mut j: usize = 0;
        let mut ok = true;
        while ok && j < nl
            invariant
                hh == fold_if(h@, fold),
                nn == fold_if(n@, fold),
                hl == h@.len(),
                nl == n@.len(),
                i + nl <= hl,
                j <= nl,
                ok ==> forall|k: int| 0 <= k < j ==> hh[i + k] == nn[k],
                !ok ==> !match_at(hh, nn, i as int),
            decreases nl - j + (if ok { 1int } else { 0int }),
        {
            let hc = h.get_char(i + j);
            let nc = n.get_char(j);
            let same = if fold {
                lower_char_exec(hc) == lower_char_exec(nc)
            } else {
                hc == nc
            };
            if same {
                j += 1;
            } else {
                assert(hh[i + j] != nn[j as int]);
                ok = false;
            }
        }
        if ok {
            assert(match_at(hh, nn, i as int));
            proof {
                lemma_first_index(hh, nn, i as int);
            }
            return Some(i);
        }
        i += 1;
    }
    assert forall|j: int| !match_at(hh, nn, j) by {
        if match_at(hh, nn, j) {
            assert(j + nn.len() <= hh.len());
            assert(0 <= j < i);
        }
    }
    None
}

/// The character is ASCII whitespace.
pub open spec fn is_ws(c: char) -> bool {
    c == ' ' || c == '\t' || c == '\r' || c == '\n'
}

/// `s` without its leading ASCII whitespace.
pub open spec fn trim_start_spec(s: Seq<char>) -> Seq<char>
    decreases s.len(),
{
    if s.len() > 0 && is_ws(s[0]) {
        trim_start_spec(s.drop_first())
    } else {
        s
    }
}

/// `s` without its trailing ASCII whitespace.
pub open spec fn trim_end_spec(s: Seq<char>) -> Seq<char>
    decreases s.len(),
{
    if s.len() > 0 && is_ws(s[s.len() - 1]) {
        trim_end_spec(s.drop_last())
    } else {
        s
    }
}

/// `s` without leading and trailing ASCII whitespace.
pub open spec fn trim_spec(s: Seq<char>) -> Seq<char> {
    trim_end_spec(trim_start_spec(s))
}

/// The character is ASCII whitespace.
pub fn is_ws_exec(c: char) -> (r: bool)
    ensures
        r == is_ws(c),
{
    c == ' ' || c == '\t' || c == '\r' || c == '\n'
}

/// `s` without leading and trailing ASCII whitespace.
pub fn trim(s: &str) -> (r: &str)
    ensures
        r@ == trim_spec(s@),
{
    let len = s.unicode_len();
    proof {
        assert(s@.subrange(0, len as int) =~= s@);
    }
    let mut a: usize = 0;
    while a < len && is_ws_exec(s.get_char(a))
        invariant
            a <= len,
            len == s@.len(),
            trim_start_spec(s@) == trim_start_spec(s@.subrange(a as int, len as int)),
        decreases len - a,
    {
        proof {
            assert(s@.subrange(a as int, len as int).drop_first() =~= s@.subrange(
                a as int + 1,
                len as int,
            ));
        }
        a += 1;
    }
    let mut b: usize = len;
    while b > a && is_ws_exec(s.get_char(b - 1))
        invariant
            a <= b <= len,
            len == s@.len(),
            trim_start_spec(s@) == trim_start_spec(s@.subrange(a as int, len as int)),
            trim_end_spec(s@.subrange(a as int, len as int)) == trim_end_spec(
                s@.subrange(a as int, b as int),
            ),
        decreases b,
    {
        proof {
            assert(s@.subrange(a as int, b as int).drop_last() =~= s@.subrange(
                a as int,
                b as int - 1,
            ));
        }
        b -= 1;
    }
    s.substring_char(a, b)
}

/// `n` occurs in `h` as a substring.
pub fn str_contains(h: &str, n: &str) -> (b: bool)
    ensures
        b == contains_substr(h@, n@),
{
    find_substr(h, n, false).is_some()
}

/// `n` occurs in `h` as a substring, comparing ASCII case-insensitively.
pub fn str_contains_fold(h: &str, n: &str) -> (b: bool)
    ensures
        b == contains_substr(lower_seq(h@), lower_seq(n@)),
{
    find_substr(h, n, true).is_some()
}

} // verus!
