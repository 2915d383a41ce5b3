//! Character-sequence helpers shared by the parsers of this crate.

use vstd::prelude::*;
use vstd::string::*;

verus! {

/// `pat` occurs in `s` starting at position `i`.
pub open spec fn occurs_at(s: Seq<char>, pat: Seq<char>, i: int) -> bool {
    &&& 0 <= i
    &&& i + pat.len() <= s.len()
    &&& s.subrange(i, i + pat.len()) == pat
}

/// `i` is the first position at which `pat` occurs in `s`.
pub open spec fn first_occurrence_at(s: Seq<char>, pat: Seq<char>, i: int) -> bool {
    &&& occurs_at(s, pat, i)
    &&& forall|j: int| 0 <= j < i ==> !occurs_at(s, pat, j)
}

/// Position of the first occurrence of `pat` in `s`, if any.
pub open spec fn first_occurrence(s: Seq<char>, pat: Seq<char>) -> Option<int> {
    if exists|i: int| first_occurrence_at(s, pat, i) {
        Some(choose|i: int| first_occurrence_at(s, pat, i))
    } else {
        None
    }
}

/// `i` is the first position of the character `c` in `s`.
pub open spec fn first_char_at(s: Seq<char>, c: char, i: int) -> bool {
    &&& 0 <= i < s.len()
    &&& s[i] == c
    &&& forall|j: int| 0 <= j < i ==> s[j] != c
}

/// Position of the first occurrence of the character `c` in `s`, if any.
pub open spec fn first_char(s: Seq<char>, c: char) -> Option<int> {
    if exists|i: int| first_char_at(s, c, i) {
        Some(choose|i: int| first_char_at(s, c, i))
    } else {
        None
    }
}

/// The view of an optional string.
pub open spec fn opt_view(o: Option<String>) -> Option<Seq<char>> {
    match o {
        Some(s) => Some(s@),
        None => None,
    }
}

pub proof fn lemma_first_char_unique(s: Seq<char>, c: char, i: int)
    requires
        first_char_at(s, c, i),
    ensures
        first_char(s, c) == Some(i),
{
    let k = choose|k: int| first_char_at(s, c, k);
    assert(first_char_at(s, c, k));
}

/// Position, counted from `start`, of the first `c` in `s[start..]`.
pub fn find_char_from(s: &Vec<char>, start: usize, c: char) -> (r: Option<usize>)
    requires
        start <= s.len(),
    ensures
        match r {
            Some(k) => start <= k < s.len() && first_char(
                s@.subrange(start as int, s.len() as int),
                c,
            ) == Some(k - start),
            None => first_char(s@.subrange(start as int, s.len() as int), c) is None,
        },
{
    let ghost tail = s@.subrange(start as int, s.len() as int);
    let mut k: usize = start;
    while k < s.len()
        invariant
            start <= k <= s.len(),
            tail == s@.subrange(start as int, s.len() as int),
            forall|j: int| 0 <= j < k - start ==> tail[j] != c,
        decreases s.len() - k,
    {
        if s[k] == c {
            assert(first_char_at(tail, c, k - start));
            proof {
                lemma_first_char_unique(tail, c, k - start);
            }
            return Some(k);
        }
        k = k + 1;
    }
    assert(!exists|i: int| first_char_at(tail, c, i));
    None
}

/// `s[from..to]` as an owned string.
pub fn substring(s: &str, from: usize, to: usize) -> (r: String)
    requires
        from <= to <= s@.len(),
    ensures
        r@ == s@.subrange(from as int, to as int),
{
    String::from_str(s.substring_char(from, to))
}

/// Are the two character sequences equal?
pub fn chars_eq(a: &Vec<char>, b: &Vec<char>) -> (r: bool)
    ensures
        r == (a@ == b@),
{
    if a.len() != b.len() {
        return false;
    }
    let mut i: usize = 0;
    while i < a.len()
        invariant
            a.len() == b.len(),
            i <= a.len(),
            forall|j: int| 0 <= j < i ==> a@[j] == b@[j],
        decreases a.len() - i,
    {
        if a[i] != b[i] {
            return false;
        }
        i = i + 1;
    }
    assert(a@ =~= b@);
    true
}

/// Does the string `s` spell exactly the characters `v`?
pub fn str_is(s: &str, v: &Vec<char>) -> (r: bool)
    ensures
        r == (s@ == v@),
{
    let cs = to_chars(s);
    chars_eq(&cs, v)
}

/// The characters of `s`, in order.
pub fn to_chars(s: &str) -> (v: Vec<char>)
    ensures
        v@ == s@,
{
    let n = s.unicode_len();
    let mut v: Vec<char> = Vec::new();
    let mut i: usize = 0;
    while i < n
        invariant
            n == s@.len(),
            i <= n,
            v@ == s@.take(i as int),
        decreases n - i,
    {
        let c = s.get_char(i);
        v.push(c);
        i = i + 1;
        assert(v@ =~= s@.take(i as int));
    }
    assert(v@ =~= s@);
    v
}

/// Does `pat` occur in `s` at position `i`?
pub fn matches_at(s: &Vec<char>, pat: &Vec<char>, i: usize) -> (r: bool)
    ensures
        r == occurs_at(s@, pat@, i as int),
{
    if i > s.len() || pat.len() > s.len() - i {
        return false;
    }
    let mut k: usize = 0;
    while k < pat.len()
        invariant
            i + pat.len() <= s.len(),
            k <= pat.len(),
            forall|j: int| 0 <= j < k ==> s@[i + j] == pat@[j],
        decreases pat.len() - k,
    {
        if s[i + k] != pat[k] {
            assert(s@.subrange(i as int, i + pat.len())[k as int] != pat@[k as int]);
            return false;
        }
        k = k + 1;
    }
    assert(s@.subrange(i as int, i + pat.len()) =~= pat@);
    true
}

/// Position of the first occurrence of `pat` in `s`.
pub fn find_first(s: &Vec<char>, pat: &Vec<char>) -> (r: Option<usize>)
    ensures
        match r {
            Some(i) => first_occurrence(s@, pat@) == Some(i as int) && first_occurrence_at(
                s@,
                pat@,
                i as int,
            ),
            None => first_occurrence(s@, pat@) is None && forall|j: int|
                !occurs_at(s@, pat@, j),
        },
{
    if pat.len() > s.len() {
        assert forall|j: int| !occurs_at(s@, pat@, j) by {}
        assert(!exists|i: int| first_occurrence_at(s@, pat@, i));
        return None;
    }
    if pat.len() == 0 {
        assert(s@.subrange(0, 0) =~= pat@);
        assert(first_occurrence_at(s@, pat@, 0));
        proof {
            lemma_first_occurrence_unique(s@, pat@, 0);
        }
        return Some(0);
    }
    let end = s.len() - pat.len() + 1;
    let mut i: usize = 0;
    while i < end
        invariant
            end == s.len() - pat.len() + 1,
            pat.len() <= s.len(),
            i <= end,
            forall|j: int| 0 <= j < i ==> !occurs_at(s@, pat@, j),
        decreases end - i,
    {
        if matches_at(s, pat, i) {
            assert(first_occurrence_at(s@, pat@, i as int));
            proof {
                lemma_first_occurrence_unique(s@, pat@, i as int);
            }
            return Some(i);
        }
        i = i + 1;
    }
    assert forall|j: int| !occurs_at(s@, pat@, j) by {
        if 0 <= j < end as int {
        }
    }
    assert(!exists|k: int| first_occurrence_at(s@, pat@, k));
    None
}

/// The lowercase hexadecimal digits.
pub open spec fn hex_digits() -> Seq<char> {
    seq!['0', '1', '2', '3', '4', '5', '6', '7', '8', '9', 'a', 'b', 'c', 'd', 'e', 'f']
}

/// Append the hexadecimal digit `d` to `s`.
pub fn push_hex_digit(s: &mut String, d: u8)
    requires
        d < 16,
    ensures
        final(s)@ == old(s)@.push(hex_digits()[d as int]),
{
    let digits = "0123456789abcdef";
    proof {
        reveal_strlit("0123456789abcdef");
    }
    assert(digits@ =~= hex_digits());
    let dd = d as usize;
    s.append(digits.substring_char(dd, dd + 1));
    assert(digits@.subrange(dd as int, dd + 1) =~= seq![hex_digits()[d as int]]);
}

/// `pat` occurs somewhere in `s`.
pub open spec fn contains_seq(s: Seq<char>, pat: Seq<char>) -> bool {
    exists|i: int| occurs_at(s, pat, i)
}

/// Does `pat` occur in `s`?
pub fn str_contains(s: &str, pat: &str) -> (r: bool)
    ensures
        r == contains_seq(s@, pat@),
{
    let sc = to_chars(s);
    let pc = to_chars(pat);
    match find_first(&sc, &pc) {
        Some(i) => {
            assert(occurs_at(s@, pat@, i as int));
            true
        },
        None => false,
    }
}

/// The first occurrence, when there is one, is the value `first_occurrence` gives.
pub proof fn lemma_first_occurrence_unique(s: Seq<char>, pat: Seq<char>, i: int)
    requires
        first_occurrence_at(s, pat, i),
    ensures
        first_occurrence(s, pat) == Some(i),
{
    let k = choose|k: int| first_occurrence_at(s, pat, k);
    assert(first_occurrence_at(s, pat, k));
    if k < i {
        assert(!occurs_at(s, pat, k));
    }
    if i < k {
        assert(!occurs_at(s, pat, i));
    }
}

/// The Unicode `White_Space` property, which `char::is_whitespace` tests.
pub open spec fn is_white_space(c: char) -> bool {
    let u = c as u32;
    ||| 0x9 <= u <= 0xd
    ||| u == 0x20
    ||| u == 0x85
    ||| u == 0xa0
    ||| u == 0x1680
    ||| 0x2000 <= u <= 0x200a
    ||| u == 0x2028
    ||| u == 0x2029
    ||| u == 0x202f
    ||| u == 0x205f
    ||| u == 0x3000
}

pub fn white_space(c: char) -> (r: bool)
    ensures
        r == is_white_space(c),
{
    let u = c as u32;
    (0x9 <= u && u <= 0xd) || u == 0x20 || u == 0x85 || u == 0xa0 || u == 0x1680 || (0x2000 <= u
        && u <= 0x200a) || u == 0x2028 || u == 0x2029 || u == 0x202f || u == 0x205f || u == 0x3000
}

/// Number of leading white-space characters of `s`.
pub open spec fn leading_ws(s: Seq<char>) -> nat
    decreases s.len(),
{
    if s.len() == 0 {
        0
    } else if is_white_space(s[0]) {
        1 + leading_ws(s.drop_first())
    } else {
        0
    }
}

/// Number of trailing white-space characters of `s`.
pub open spec fn trailing_ws(s: Seq<char>) -> nat
    decreases s.len(),
{
    if s.len() == 0 {
        0
    } else if is_white_space(s.last()) {
        1 + trailing_ws(s.drop_last())
    } else {
        0
    }
}

/// `s` without leading and trailing white space (what `str::trim` returns).
pub open spec fn trimmed(s: Seq<char>) -> Seq<char> {
    let a = leading_ws(s);
    let rest = s.subrange(a as int, s.len() as int);
    rest.subrange(0, rest.len() - trailing_ws(rest))
}

/// Count of leading white space of `s[from..to]`.
fn count_leading_ws(s: &Vec<char>, from: usize, to: usize) -> (r: usize)
    requires
        from <= to <= s.len(),
    ensures
        r == leading_ws(s@.subrange(from as int, to as int)),
        from + r <= to,
    decreases to - from,
{
    if from == to {
        assert(s@.subrange(from as int, to as int).len() == 0);
        return 0;
    }
    proof {
        assert(s@.subrange(from as int, to as int)[0] == s@[from as int]);
        assert(s@.subrange(from as int, to as int).drop_first() =~= s@.subrange(
            from + 1,
            to as int,
        ));
    }
    if white_space(s[from]) {
        let k = count_leading_ws(s, from + 1, to);
        k + 1
    } else {
        0
    }
}

/// Count of trailing white space of `s[from..to]`.
fn count_trailing_ws(s: &Vec<char>, from: usize, to: usize) -> (r: usize)
    requires
        from <= to <= s.len(),
    ensures
        r == trailing_ws(s@.subrange(from as int, to as int)),
        from + r <= to,
    decreases to - from,
{
    if from == to {
        assert(s@.subrange(from as int, to as int).len() == 0);
        return 0;
    }
    proof {
        assert(s@.subrange(from as int, to as int).last() == s@[to - 1]);
        assert(s@.subrange(from as int, to as int).drop_last() =~= s@.subrange(
            from as int,
            to - 1,
        ));
    }
    if white_space(s[to - 1]) {
        let k = count_trailing_ws(s, from, to - 1);
        k + 1
    } else {
        0
    }
}

/// Bounds `(a, b)` such that `s[from..to]` trimmed is `s[a..b]`.
pub fn trim_bounds(s: &Vec<char>, from: usize, to: usize) -> (r: (usize, usize))
    requires
        from <= to <= s.len(),
    ensures
        from <= r.0 <= r.1 <= to,
        s@.subrange(r.0 as int, r.1 as int) == trimmed(s@.subrange(from as int, to as int)),
{
    let ghost piece = s@.subrange(from as int, to as int);
    let a = count_leading_ws(s, from, to);
    let start = from + a;
    let b = count_trailing_ws(s, start, to);
    let end = to - b;
    proof {
        assert(piece.subrange(a as int, piece.len() as int) =~= s@.subrange(
            start as int,
            to as int,
        ));
        let rest = s@.subrange(start as int, to as int);
        assert(rest.subrange(0, rest.len() - b) =~= s@.subrange(start as int, end as int));
    }
    (start, end)
}

/// `s` trimmed, as an owned string.
pub fn trim_str(s: &str) -> (r: String)
    ensures
        r@ == trimmed(s@),
{
    let cs = to_chars(s);
    let (a, b) = trim_bounds(&cs, 0, cs.len());
    assert(cs@.subrange(0, cs.len() as int) =~= cs@);
    substring(s, a, b)
}

/// The pieces of `s` between occurrences of `c`, as `str::split` yields
/// them (there is always at least one piece).
pub open spec fn split_on(s: Seq<char>, c: char) -> Seq<Seq<char>>
    decreases s.len(),
{
    match first_char(s, c) {
        None => seq![s],
        Some(i) => if 0 <= i < s.len() {
            seq![s.subrange(0, i)] + split_on(s.subrange(i + 1, s.len() as int), c)
        } else {
            seq![s]
        },
    }
}

/// Bounds of the pieces of `s` between occurrences of `c`.
pub fn split_bounds(s: &Vec<char>, c: char) -> (r: Vec<(usize, usize)>)
    ensures
        r@.len() == split_on(s@, c).len(),
        forall|j: int|
            #![trigger r@[j]]
            0 <= j < r@.len() ==> r@[j].0 <= r@[j].1 <= s@.len() && s@.subrange(
                r@[j].0 as int,
                r@[j].1 as int,
            ) == split_on(s@, c)[j],
{
    let mut out: Vec<(usize, usize)> = Vec::new();
    let mut start: usize = 0;
    assert(s@.subrange(0, s.len() as int) =~= s@);
    assert(split_on(s@, c).take(0) + split_on(s@, c) =~= split_on(s@, c));
    loop
        invariant
            start <= s.len(),
            split_on(s@, c) == split_on(s@, c).take(out@.len() as int) + split_on(
                s@.subrange(start as int, s.len() as int),
                c,
            ),
            out@.len() <= split_on(s@, c).len(),
            forall|j: int|
                #![trigger out@[j]]
                0 <= j < out@.len() ==> out@[j].0 <= out@[j].1 <= s@.len() && s@.subrange(
                    out@[j].0 as int,
                    out@[j].1 as int,
                ) == split_on(s@, c)[j],
        decreases s.len() - start,
    {
        let ghost rest = s@.subrange(start as int, s.len() as int);
        let ghost whole = split_on(s@, c);
        let ghost n = out@.len();
        match find_char_from(s, start, c) {
            Some(k) => {
                proof {
                    assert(split_on(rest, c) == seq![rest.subrange(0, k - start)] + split_on(
                        rest.subrange(k - start + 1, rest.len() as int),
                        c,
                    ));
                    assert(rest.subrange(0, k - start) =~= s@.subrange(start as int, k as int));
                    assert(rest.subrange(k - start + 1, rest.len() as int) =~= s@.subrange(
                        k + 1,
                        s.len() as int,
                    ));
                    assert(whole == whole.take(n as int) + split_on(rest, c));
                    assert(whole[n as int] == s@.subrange(start as int, k as int));
                    assert(whole.take(n + 1int) =~= whole.take(n as int).push(whole[n as int]));
                    assert(whole =~= whole.take(n + 1int) + split_on(
                        s@.subrange(k + 1, s.len() as int),
                        c,
                    ));
                }
                out.push((start, k));
                assert(out@[n as int] == (start, k));
                start = k + 1;
            },
            None => {
                proof {
                    assert(split_on(rest, c) == seq![rest]);
                    assert(whole[n as int] == rest);
                    assert(whole.len() == n + 1);
                }
                out.push((start, s.len()));
                assert(out@[n as int] == (start, s.len()));
                assert(s@.subrange(start as int, s.len() as int) == rest);
                return out;
            },
        }
    }
}

/// The views of a list of strings.
pub open spec fn strings_view(v: Seq<String>) -> Seq<Seq<char>> {
    v.map_values(|s: String| s@)
}

/// A copy of a list of strings.
pub fn clone_strings(v: &Vec<String>) -> (r: Vec<String>)
    ensures
        strings_view(r@) == strings_view(v@),
{
    let mut out: Vec<String> = Vec::new();
    let mut i: usize = 0;
    while i < v.len()
        invariant
            i <= v.len(),
            strings_view(out@) == strings_view(v@.take(i as int)),
        decreases v.len() - i,
    {
        let c = v[i].clone();
        let ghost prev = out@;
        out.push(c);
        assert(out@ == prev.push(c));
        assert(c@ == v@[i as int]@);
        assert(strings_view(out@) =~= strings_view(v@.take(i as int)).push(c@));
        assert(v@.take(i + 1) =~= v@.take(i as int).push(v@[i as int]));
        assert(strings_view(out@) =~= strings_view(v@.take(i + 1)));
        i = i + 1;
    }
    assert(v@.take(v.len() as int) =~= v@);
    out
}

} // verus!
