//! Character-level text operations used by the field rules, each stated over
//! `Seq<char>` and implemented on `Vec<char>`.

use vstd::prelude::*;

verus! {

/// The Unicode `White_Space` property, which is what `char::is_whitespace` tests.
pub open spec fn is_space(c: char) -> bool {
    let n = c as u32;
    (0x9 <= n && n <= 0xd) || n == 0x20 || n == 0x85 || n == 0xa0 || n == 0x1680 || (0x2000 <= n
        && n <= 0x200a) || n == 0x2028 || n == 0x2029 || n == 0x202f || n == 0x205f || n == 0x3000
}

/// `s` without its leading white space.
pub open spec fn trim_start(s: Seq<char>) -> Seq<char>
    decreases s.len(),
{
    if s.len() > 0 && is_space(s[0]) {
        trim_start(s.drop_first())
    } else {
        s
    }
}

/// `s` without its trailing white space.
pub open spec fn trim_end(s: Seq<char>) -> Seq<char>
    decreases s.len(),
{
    if s.len() > 0 && is_space(s.last()) {
        trim_end(s.drop_last())
    } else {
        s
    }
}

/// `s` without white space at either end.
pub open spec fn trim(s: Seq<char>) -> Seq<char> {
    trim_end(trim_start(s))
}

/// Index of the last `c` among the first `n` characters of `s`, or -1.
pub open spec fn last_index_of(s: Seq<char>, c: char, n: int) -> int
    decreases n,
{
    if n <= 0 {
        -1
    } else if s[n - 1] == c {
        n - 1
    } else {
        last_index_of(s, c, n - 1)
    }
}

/// What follows the last `c` in `s`; all of `s` where it holds no `c`.
pub open spec fn after_last(s: Seq<char>, c: char) -> Seq<char> {
    s.subrange(last_index_of(s, c, s.len() as int) + 1, s.len() as int)
}

/// Index of the first `c` in `s` at or after `i`, or the length of `s`.
pub open spec fn first_index_from(s: Seq<char>, c: char, i: int) -> int
    decreases s.len() - i,
{
    if i < 0 || i >= s.len() {
        s.len() as int
    } else if s[i] == c {
        i
    } else {
        first_index_from(s, c, i + 1)
    }
}

/// What precedes the first `c` in `s`; all of `s` where it holds no `c`.
pub open spec fn before_first(s: Seq<char>, c: char) -> Seq<char> {
    s.subrange(0, first_index_from(s, c, 0))
}

/// Index of the first white space in `s` at or after `i`, or the length of `s`.
pub open spec fn first_space_from(s: Seq<char>, i: int) -> int
    decreases s.len() - i,
{
    if i < 0 || i >= s.len() {
        s.len() as int
    } else if is_space(s[i]) {
        i
    } else {
        first_space_from(s, i + 1)
    }
}

/// The first run of non-white-space characters in `s`; empty where there is none.
pub open spec fn first_word(s: Seq<char>) -> Seq<char> {
    let t = trim_start(s);
    t.subrange(0, first_space_from(t, 0))
}

/// `s` without one trailing `c`, where it ends with one.
pub open spec fn strip_last(s: Seq<char>, c: char) -> Seq<char> {
    if s.len() > 0 && s.last() == c {
        s.drop_last()
    } else {
        s
    }
}

/// The pieces of `parts` with `sep` between each two.
pub open spec fn join(parts: Seq<Seq<char>>, sep: Seq<char>) -> Seq<char>
    decreases parts.len(),
{
    if parts.len() == 0 {
        Seq::empty()
    } else if parts.len() == 1 {
        parts[0]
    } else {
        join(parts.drop_last(), sep) + sep + parts.last()
    }
}

/// What `s` becomes, from index `i` on, when each `c` together with the spaces
/// (U+0020) right after it is replaced by `by`; `skipping` says that the text
/// just before `i` was such a `c` and spaces after it.
pub open spec fn replace_sep_from(s: Seq<char>, c: char, by: Seq<char>, i: int, skipping: bool) -> Seq<
    char,
>
    decreases s.len() - i,
{
    if i < 0 || i >= s.len() {
        Seq::empty()
    } else if s[i] == c {
        by + replace_sep_from(s, c, by, i + 1, true)
    } else if skipping && s[i] == ' ' {
        replace_sep_from(s, c, by, i + 1, true)
    } else {
        seq![s[i]] + replace_sep_from(s, c, by, i + 1, false)
    }
}

/// `s` with each `c`, together with the spaces (U+0020) right after it, replaced by `by`.
pub open spec fn replace_separator(s: Seq<char>, c: char, by: Seq<char>) -> Seq<char> {
    replace_sep_from(s, c, by, 0, false)
}

/// Four ASCII digits.
pub open spec fn is_year_token(t: Seq<char>) -> bool {
    t.len() == 4 && forall|k: int| 0 <= k < 4 ==> 0x30 <= #[trigger] (t[k] as u32) <= 0x39
}

/// The first `/`-separated part of `s` that is four ASCII digits, looking from
/// the part that starts at `start`, with the scan at `i`; `None` where there is
/// no such part.
pub open spec fn year_part_from(s: Seq<char>, start: int, i: int) -> Option<Seq<char>>
    decreases s.len() - i,
{
    if i < 0 || i >= s.len() {
        if is_year_token(s.subrange(start, s.len() as int)) {
            Some(s.subrange(start, s.len() as int))
        } else {
            None
        }
    } else if s[i] == '/' {
        if is_year_token(s.subrange(start, i)) {
            Some(s.subrange(start, i))
        } else {
            year_part_from(s, i + 1, i + 1)
        }
    } else {
        year_part_from(s, start, i + 1)
    }
}

/// The first `/`-separated part of `s` that is four ASCII digits.
pub open spec fn year_part(s: Seq<char>) -> Option<Seq<char>> {
    year_part_from(s, 0, 0)
}

/// Index of the last occurrence of the pair `a`, `b` within the first `n`
/// characters of `s`, or -1.
pub open spec fn last_pair_index(s: Seq<char>, a: char, b: char, n: int) -> int
    decreases n,
{
    if n < 2 {
        -1
    } else if s[n - 2] == a && s[n - 1] == b {
        n - 2
    } else {
        last_pair_index(s, a, b, n - 1)
    }
}

/// What follows the last occurrence of the pair `a`, `b` in `s`; all of `s`
/// where the pair does not occur.
pub open spec fn after_last_pair(s: Seq<char>, a: char, b: char) -> Seq<char> {
    let k = last_pair_index(s, a, b, s.len() as int);
    if k < 0 {
        s
    } else {
        s.subrange(k + 2, s.len() as int)
    }
}

/// The view of each string of `v`.
pub open spec fn views(v: Seq<String>) -> Seq<Seq<char>> {
    v.map_values(|t: String| t@)
}

/// The view of an optional string.
pub open spec fn opt_view(o: Option<String>) -> Option<Seq<char>> {
    match o {
        Some(t) => Some(t@),
        None => None,
    }
}

/// Tests `char::is_whitespace`'s property on `c`.
pub fn is_space_char(c: char) -> (r: bool)
    ensures
        r == is_space(c),
{
    let n = c as u32;
    (0x9 <= n && n <= 0xd) || n == 0x20 || n == 0x85 || n == 0xa0 || n == 0x1680 || (0x2000 <= n
        && n <= 0x200a) || n == 0x2028 || n == 0x2029 || n == 0x202f || n == 0x205f || n == 0x3000
}

/// Relies on `str::chars`: the characters of `s`, in order.
#[verifier::external_body]
pub(crate) fn chars_of(s: &str) -> (r: Vec<char>)
    ensures
        r@ == s@,
{
    s.chars().collect()
}

/// Relies on `String`'s `FromIterator<&char>`: the string of the characters of `v`.
#[verifier::external_body]
pub(crate) fn string_of(v: &Vec<char>) -> (r: String)
    ensures
        r@ == v@,
{
    v.iter().collect()
}

/// What follows the last occurrence of the pair `a`, `b` in `s`; all of `s`
/// where the pair does not occur.
pub fn after_last_pair_chars(s: &Vec<char>, a: char, b: char) -> (r: Vec<char>)
    ensures
        r@ == after_last_pair(s@, a, b),
{
    let n = s.len();
    let mut i: usize = n;
    while i >= 2 && !(s[i - 2] == a && s[i - 1] == b)
        invariant
            n == s@.len(),
            i <= n,
            last_pair_index(s@, a, b, n as int) == last_pair_index(s@, a, b, i as int),
        decreases i,
    {
        i -= 1;
    }
    if i >= 2 {
        slice(s, i, n)
    } else {
        proof {
            assert(s@.subrange(0, n as int) =~= s@);
        }
        slice(s, 0, n)
    }
}

/// The strings of `parts` with `sep` between each two, as characters.
pub fn join_chars(parts: &Vec<String>, sep: &Vec<char>) -> (r: Vec<char>)
    ensures
        r@ == join(views(parts@), sep@),
{
    let ghost pv = views(parts@);
    let mut r: Vec<char> = Vec::new();
    let mut i: usize = 0;
    while i < parts.len()
        invariant
            i <= parts@.len(),
            pv == views(parts@),
            r@ == join(pv.subrange(0, i as int), sep@),
        decreases parts@.len() - i,
    {
        let ghost before = r@;
        if i > 0 {
            push_all(&mut r, sep);
        }
        let c = chars_of(parts[i].as_str());
        push_all(&mut r, &c);
        proof {
            let next = pv.subrange(0, i + 1);
            assert(next.last() == parts@[i as int]@);
            if i == 0 {
                assert(before =~= Seq::<char>::empty());
                assert(r@ =~= next[0]);
            } else {
                assert(next.drop_last() =~= pv.subrange(0, i as int));
            }
        }
        i += 1;
    }
    proof {
        assert(pv.subrange(0, parts@.len() as int) =~= pv);
    }
    r
}

/// Appends the characters of `s` to `out`.
pub fn push_all(out: &mut Vec<char>, s: &Vec<char>)
    ensures
        final(out)@ == old(out)@ + s@,
{
    let mut i: usize = 0;
    while i < s.len()
        invariant
            i <= s@.len(),
            out@ == old(out)@ + s@.subrange(0, i as int),
        decreases s@.len() - i,
    {
        out.push(s[i]);
        proof {
            assert(s@.subrange(0, i + 1) =~= s@.subrange(0, i as int).push(s@[i as int]));
        }
        i += 1;
    }
    proof {
        assert(s@.subrange(0, s@.len() as int) =~= s@);
    }
}

/// The characters of `s` from `lo` up to `hi`.
pub fn slice(s: &Vec<char>, lo: usize, hi: usize) -> (r: Vec<char>)
    requires
        lo <= hi <= s@.len(),
    ensures
        r@ == s@.subrange(lo as int, hi as int),
{
    let mut r: Vec<char> = Vec::new();
    let mut i: usize = lo;
    while i < hi
        invariant
            lo <= i <= hi <= s@.len(),
            r@ == s@.subrange(lo as int, i as int),
        decreases hi - i,
    {
        r.push(s[i]);
        proof {
            assert(s@.subrange(lo as int, i + 1) =~= s@.subrange(lo as int, i as int).push(
                s@[i as int],
            ));
        }
        i += 1;
    }
    r
}

/// Whether `c` occurs in `s`.
pub fn contains_char(s: &Vec<char>, c: char) -> (r: bool)
    ensures
        r == s@.contains(c),
{
    let mut i: usize = 0;
    while i < s.len()
        invariant
            i <= s@.len(),
            forall|k: int| 0 <= k < i ==> s@[k] != c,
        decreases s@.len() - i,
    {
        if s[i] == c {
            assert(s@[i as int] == c);
            return true;
        }
        i += 1;
    }
    false
}

/// `s` without white space at either end.
pub fn trim_chars(s: &Vec<char>) -> (r: Vec<char>)
    ensures
        r@ == trim(s@),
{
    let n = s.len();
    let mut i: usize = 0;
    proof {
        assert(s@.subrange(0, n as int) =~= s@);
    }
    while i < n && is_space_char(s[i])
        invariant
            n == s@.len(),
            i <= n,
            trim_start(s@.subrange(i as int, n as int)) == trim_start(s@),
        decreases n - i,
    {
        proof {
            assert(s@.subrange(i as int, n as int).drop_first() =~= s@.subrange(
                i + 1,
                n as int,
            ));
        }
        i += 1;
    }
    let mut j: usize = n;
    while j > i && is_space_char(s[j - 1])
        invariant
            n == s@.len(),
            i <= j <= n,
            trim_end(s@.subrange(i as int, j as int)) == trim(s@),
        decreases j,
    {
        proof {
            assert(s@.subrange(i as int, j as int).drop_last() =~= s@.subrange(
                i as int,
                j - 1,
            ));
        }
        j -= 1;
    }
    slice(s, i, j)
}

/// What follows the last `c` in `s`; all of `s` where it holds no `c`.
pub fn after_last_char(s: &Vec<char>, c: char) -> (r: Vec<char>)
    ensures
        r@ == after_last(s@, c),
{
    let n = s.len();
    let mut i: usize = n;
    while i > 0 && s[i - 1] != c
        invariant
            n == s@.len(),
            i <= n,
            last_index_of(s@, c, n as int) == last_index_of(s@, c, i as int),
        decreases i,
    {
        i -= 1;
    }
    slice(s, i, n)
}

/// What precedes the first `c` in `s`; all of `s` where it holds no `c`.
pub fn before_first_char(s: &Vec<char>, c: char) -> (r: Vec<char>)
    ensures
        r@ == before_first(s@, c),
{
    let n = s.len();
    let mut i: usize = 0;
    while i < n && s[i] != c
        invariant
            n == s@.len(),
            i <= n,
            first_index_from(s@, c, 0) == first_index_from(s@, c, i as int),
        decreases n - i,
    {
        i += 1;
    }
    slice(s, 0, i)
}

/// The first run of non-white-space characters in `s`; empty where there is none.
pub fn first_word_chars(s: &Vec<char>) -> (r: Vec<char>)
    ensures
        r@ == first_word(s@),
{
    let n = s.len();
    let mut i: usize = 0;
    proof {
        assert(s@.subrange(0, n as int) =~= s@);
    }
    while i < n && is_space_char(s[i])
        invariant
            n == s@.len(),
            i <= n,
            trim_start(s@.subrange(i as int, n as int)) == trim_start(s@),
        decreases n - i,
    {
        proof {
            assert(s@.subrange(i as int, n as int).drop_first() =~= s@.subrange(
                i + 1,
                n as int,
            ));
        }
        i += 1;
    }
    let t = slice(s, i, n);
    let mut j: usize = 0;
    while j < t.len() && !is_space_char(t[j])
        invariant
            j <= t@.len(),
            t@ == trim_start(s@),
            first_space_from(t@, 0) == first_space_from(t@, j as int),
        decreases t@.len() - j,
    {
        j += 1;
    }
    slice(&t, 0, j)
}

/// `s` without one trailing `c`, where it ends with one.
pub fn strip_last_char(s: &Vec<char>, c: char) -> (r: Vec<char>)
    ensures
        r@ == strip_last(s@, c),
{
    let n = s.len();
    if n > 0 && s[n - 1] == c {
        slice(s, 0, n - 1)
    } else {
        slice(s, 0, n)
    }
}

/// `s` with each `c`, together with the spaces (U+0020) right after it, replaced by `by`.
pub fn replace_separator_chars(s: &Vec<char>, c: char, by: &Vec<char>) -> (r: Vec<char>)
    ensures
        r@ == replace_separator(s@, c, by@),
{
    let mut r: Vec<char> = Vec::new();
    let mut i: usize = 0;
    let mut skipping = false;
    while i < s.len()
        invariant
            i <= s@.len(),
            r@ + replace_sep_from(s@, c, by@, i as int, skipping) == replace_separator(s@, c, by@),
        decreases s@.len() - i,
    {
        let ghost before = r@;
        let ghost rest = replace_sep_from(s@, c, by@, i + 1, true);
        let ghost kept = replace_sep_from(s@, c, by@, i + 1, false);
        if s[i] == c {
            push_all(&mut r, by);
            skipping = true;
            proof {
                assert(before + (by@ + rest) =~= r@ + rest);
            }
        } else if skipping && s[i] == ' ' {
        } else {
            r.push(s[i]);
            skipping = false;
            proof {
                assert(before + (seq![s@[i as int]] + kept) =~= r@ + kept);
            }
        }
        i += 1;
    }
    proof {
        assert(r@ + Seq::<char>::empty() =~= r@);
    }
    r
}

/// Whether the characters of `s` from `lo` up to `hi` are four ASCII digits.
fn is_year_token_at(s: &Vec<char>, lo: usize, hi: usize) -> (r: bool)
    requires
        lo <= hi <= s@.len(),
    ensures
        r == is_year_token(s@.subrange(lo as int, hi as int)),
{
    if hi - lo != 4 {
        return false;
    }
    let mut k: usize = 0;
    while k < 4
        invariant
            k <= 4,
            hi == lo + 4,
            hi <= s@.len(),
            forall|m: int| 0 <= m < k ==> 0x30 <= #[trigger] (s@[lo + m] as u32) <= 0x39,
        decreases 4 - k,
    {
        let d = s[lo + k] as u32;
        if d < 0x30 || d > 0x39 {
            assert(s@.subrange(lo as int, hi as int)[k as int] == s@[lo + k]);
            return false;
        }
        k += 1;
    }
    assert forall|m: int| 0 <= m < 4 implies 0x30 <= #[trigger] (s@.subrange(
        lo as int,
        hi as int,
    )[m] as u32) <= 0x39 by {
        assert(s@.subrange(lo as int, hi as int)[m] == s@[lo + m]);
    }
    true
}

/// The first `/`-separated part of `s` that is four ASCII digits.
pub fn year_part_chars(s: &Vec<char>) -> (r: Option<Vec<char>>)
    ensures
        match r {
            Some(y) => year_part(s@) == Some(y@),
            None => year_part(s@) is None,
        },
{
    let n = s.len();
    let mut start: usize = 0;
    let mut i: usize = 0;
    while i < n
        invariant
            n == s@.len(),
            start <= i <= n,
            year_part(s@) == year_part_from(s@, start as int, i as int),
        decreases n - i,
    {
        if s[i] == '/' {
            if is_year_token_at(s, start, i) {
                return Some(slice(s, start, i));
            }
            start = i + 1;
        }
        i += 1;
    }
    if is_year_token_at(s, start, n) {
        Some(slice(s, start, n))
    } else {
        None
    }
}

} // verus!
