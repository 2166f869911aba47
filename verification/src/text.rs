//! Character-level helpers for the string grammars of this crate.
//!
//! Strings are modelled as `Seq<char>`. The specification functions here say
//! what trimming and splitting mean on such sequences; the executable
//! functions compute the same on a `Vec<char>` by positions, so that callers
//! can cut the pieces out of the string they started from.

use vstd::prelude::*;

verus! {

/// Whether `c` has the Unicode `White_Space` property.
pub open spec fn is_space(c: char) -> bool {
    let u = c as u32;
    ||| 0x09 <= u <= 0x0D
    ||| u == 0x20
    ||| u == 0x85
    ||| u == 0xA0
    ||| u == 0x1680
    ||| 0x2000 <= u <= 0x200A
    ||| u == 0x2028
    ||| u == 0x2029
    ||| u == 0x202F
    ||| u == 0x205F
    ||| u == 0x3000
}

/// Every character of `s` is whitespace.
pub open spec fn all_spaces(s: Seq<char>) -> bool {
    forall|i: int| 0 <= i < s.len() ==> is_space(#[trigger] s[i])
}

/// `s` neither begins nor ends with whitespace.
pub open spec fn is_tight(s: Seq<char>) -> bool {
    s.len() > 0 ==> !is_space(s[0]) && !is_space(s[s.len() - 1])
}

/// `s` without its leading whitespace.
pub open spec fn trim_start(s: Seq<char>) -> Seq<char>
    decreases s.len(),
{
    if s.len() > 0 && is_space(s[0]) {
        trim_start(s.subrange(1, s.len() as int))
    } else {
        s
    }
}

/// `s` without its trailing whitespace.
pub open spec fn trim_end(s: Seq<char>) -> Seq<char>
    decreases s.len(),
{
    if s.len() > 0 && is_space(s[s.len() - 1]) {
        trim_end(s.subrange(0, s.len() - 1))
    } else {
        s
    }
}

/// `s` without its leading and trailing whitespace.
pub open spec fn trim(s: Seq<char>) -> Seq<char> {
    trim_end(trim_start(s))
}

/// `c` occurs in `s` at `i` and nowhere before.
pub open spec fn first_at(s: Seq<char>, c: char, i: int) -> bool {
    &&& 0 <= i < s.len()
    &&& s[i] == c
    &&& forall|j: int| 0 <= j < i ==> s[j] != c
}

/// `c` occurs in `s` at `i` and nowhere after.
pub open spec fn last_at(s: Seq<char>, c: char, i: int) -> bool {
    &&& 0 <= i < s.len()
    &&& s[i] == c
    &&& forall|j: int| i < j < s.len() ==> s[j] != c
}

/// Where `c` first occurs in `s`, if it occurs at all.
pub open spec fn first_index(s: Seq<char>, c: char) -> Option<int> {
    if s.contains(c) {
        Some(choose|i: int| first_at(s, c, i))
    } else {
        None
    }
}

/// Where `c` last occurs in `s`, if it occurs at all.
pub open spec fn last_index(s: Seq<char>, c: char) -> Option<int> {
    if s.contains(c) {
        Some(choose|i: int| last_at(s, c, i))
    } else {
        None
    }
}

/// The parts of `s` before and after the first `c`, if `c` occurs.
pub open spec fn split_first(s: Seq<char>, c: char) -> Option<(Seq<char>, Seq<char>)> {
    match first_index(s, c) {
        Some(i) => Some((s.subrange(0, i), s.subrange(i + 1, s.len() as int))),
        None => None,
    }
}

/// The parts of `s` before and after the last `c`, if `c` occurs.
pub open spec fn split_last(s: Seq<char>, c: char) -> Option<(Seq<char>, Seq<char>)> {
    match last_index(s, c) {
        Some(i) => Some((s.subrange(0, i), s.subrange(i + 1, s.len() as int))),
        None => None,
    }
}

/// A first occurrence pins `first_index`.
pub proof fn lemma_first_index(s: Seq<char>, c: char, i: int)
    requires
        first_at(s, c, i),
    ensures
        first_index(s, c) == Some(i),
{
    let k = choose|k: int| first_at(s, c, k);
    assert(k == i);
}

/// A last occurrence pins `last_index`.
pub proof fn lemma_last_index(s: Seq<char>, c: char, i: int)
    requires
        last_at(s, c, i),
    ensures
        last_index(s, c) == Some(i),
{
    let k = choose|k: int| last_at(s, c, k);
    assert(k == i);
}

/// An occurrence of `c` at `j` has a first occurrence at or before it.
proof fn lemma_first_before(s: Seq<char>, c: char, j: int) -> (i: int)
    requires
        0 <= j < s.len(),
        s[j] == c,
    ensures
        first_at(s, c, i),
        i <= j,
    decreases j,
{
    if exists|k: int| 0 <= k < j && s[k] == c {
        let k = choose|k: int| 0 <= k < j && s[k] == c;
        lemma_first_before(s, c, k)
    } else {
        j
    }
}

/// An occurrence of `c` at `j` has a last occurrence at or after it.
proof fn lemma_last_after(s: Seq<char>, c: char, j: int) -> (i: int)
    requires
        0 <= j < s.len(),
        s[j] == c,
    ensures
        last_at(s, c, i),
        j <= i,
    decreases s.len() - j,
{
    if exists|k: int| j < k < s.len() && s[k] == c {
        let k = choose|k: int| j < k < s.len() && s[k] == c;
        lemma_last_after(s, c, k)
    } else {
        j
    }
}

/// Splitting at the first `c` loses nothing: the two parts with `c` between
/// them are the text, and `c` does not occur in the part before. A text is
/// left unsplit only where `c` does not occur in it.
pub proof fn lemma_split_first(s: Seq<char>, c: char)
    ensures
        match split_first(s, c) {
            Some((before, after)) => s == before + seq![c] + after && !before.contains(c),
            None => !s.contains(c),
        },
{
    if s.contains(c) {
        let j = choose|j: int| 0 <= j < s.len() && s[j] == c;
        let i = lemma_first_before(s, c, j);
        lemma_first_index(s, c, i);
    }
}

/// Splitting at the last `c` loses nothing: the two parts with `c` between
/// them are the text, and `c` does not occur in the part after. A text is
/// left unsplit only where `c` does not occur in it.
pub proof fn lemma_split_last(s: Seq<char>, c: char)
    ensures
        match split_last(s, c) {
            Some((before, after)) => s == before + seq![c] + after && !after.contains(c),
            None => !s.contains(c),
        },
{
    if s.contains(c) {
        let j = choose|j: int| 0 <= j < s.len() && s[j] == c;
        let i = lemma_last_after(s, c, j);
        lemma_last_index(s, c, i);
    }
}

/// Leading whitespace up to the first character that is none is what
/// `trim_start` removes.
pub proof fn lemma_trim_start(s: Seq<char>, i: int)
    requires
        0 <= i <= s.len(),
        forall|j: int| 0 <= j < i ==> is_space(#[trigger] s[j]),
        i < s.len() ==> !is_space(s[i]),
    ensures
        trim_start(s) == s.subrange(i, s.len() as int),
    decreases i,
{
    if i > 0 {
        let rest = s.subrange(1, s.len() as int);
        assert forall|j: int| 0 <= j < i - 1 implies is_space(#[trigger] rest[j]) by {}
        lemma_trim_start(rest, i - 1);
    }
}

/// Trailing whitespace back to the last character that is none is what
/// `trim_end` removes.
pub proof fn lemma_trim_end(s: Seq<char>, k: int)
    requires
        0 <= k <= s.len(),
        forall|j: int| k <= j < s.len() ==> is_space(#[trigger] s[j]),
        0 < k ==> !is_space(s[k - 1]),
    ensures
        trim_end(s) == s.subrange(0, k),
    decreases s.len() - k,
{
    if k < s.len() {
        let rest = s.subrange(0, s.len() - 1);
        assert forall|j: int| k <= j < rest.len() implies is_space(#[trigger] rest[j]) by {}
        lemma_trim_end(rest, k);
    }
}

/// Where the leading whitespace of `s` ends.
pub proof fn lemma_trim_start_bound(s: Seq<char>) -> (i: int)
    ensures
        0 <= i <= s.len(),
        forall|j: int| 0 <= j < i ==> is_space(#[trigger] s[j]),
        i < s.len() ==> !is_space(s[i]),
        trim_start(s) == s.subrange(i, s.len() as int),
    decreases s.len(),
{
    if s.len() > 0 && is_space(s[0]) {
        let rest = s.subrange(1, s.len() as int);
        let k = lemma_trim_start_bound(rest);
        assert forall|j: int| 0 <= j < k + 1 implies is_space(#[trigger] s[j]) by {
            if j > 0 {
                assert(s[j] == rest[j - 1]);
            }
        }
        k + 1
    } else {
        0
    }
}

/// Where the trailing whitespace of `s` begins.
pub proof fn lemma_trim_end_bound(s: Seq<char>) -> (k: int)
    ensures
        0 <= k <= s.len(),
        forall|j: int| k <= j < s.len() ==> is_space(#[trigger] s[j]),
        0 < k ==> !is_space(s[k - 1]),
        trim_end(s) == s.subrange(0, k),
    decreases s.len(),
{
    if s.len() > 0 && is_space(s[s.len() - 1]) {
        let rest = s.subrange(0, s.len() - 1);
        let k = lemma_trim_end_bound(rest);
        assert forall|j: int| k <= j < s.len() implies is_space(#[trigger] s[j]) by {
            if j < s.len() - 1 {
                assert(s[j] == rest[j]);
            }
        }
        k
    } else {
        s.len() as int
    }
}

/// Trimming cuts `s` into whitespace, a tight middle, and whitespace; the
/// middle is the result. The two positions returned bound the middle.
pub proof fn lemma_trim_bounds(s: Seq<char>) -> (b: (int, int))
    ensures
        0 <= b.0 <= b.1 <= s.len(),
        trim(s) == s.subrange(b.0, b.1),
        all_spaces(s.subrange(0, b.0)),
        all_spaces(s.subrange(b.1, s.len() as int)),
        is_tight(trim(s)),
        s == s.subrange(0, b.0) + trim(s) + s.subrange(b.1, s.len() as int),
{
    let i = lemma_trim_start_bound(s);
    let t = s.subrange(i, s.len() as int);
    let k = lemma_trim_end_bound(t);
    assert forall|j: int| 0 <= j < s.len() - (i + k) implies is_space(
        #[trigger] s.subrange(i + k, s.len() as int)[j],
    ) by {
        assert(s[i + k + j] == t[k + j]);
    }
    (i, i + k)
}

/// A tight string padded with whitespace trims back to itself.
pub proof fn lemma_trim_padded(before: Seq<char>, t: Seq<char>, after: Seq<char>)
    requires
        all_spaces(before),
        all_spaces(after),
        is_tight(t),
    ensures
        trim(before + t + after) == t,
{
    let s = before + t + after;
    let n = before.len() as int;
    if t.len() == 0 {
        assert forall|j: int| 0 <= j < s.len() implies is_space(#[trigger] s[j]) by {}
        lemma_trim_start(s, s.len() as int);
    } else {
        assert forall|j: int| 0 <= j < n implies is_space(#[trigger] s[j]) by {}
        lemma_trim_start(s, n);
        let r = s.subrange(n, s.len() as int);
        let m = t.len() as int;
        assert forall|j: int| m <= j < r.len() implies is_space(#[trigger] r[j]) by {}
        lemma_trim_end(r, m);
    }
}

/// Trimming twice is trimming once.
pub proof fn lemma_trim_idempotent(s: Seq<char>)
    ensures
        trim(trim(s)) == trim(s),
{
    let b = lemma_trim_bounds(s);
    let t = trim(s);
    lemma_trim_padded(Seq::<char>::empty(), t, Seq::<char>::empty());
}

/// Whether `c` is whitespace.
pub fn char_is_space(c: char) -> (r: bool)
    ensures
        r == is_space(c),
{
    let u: u32 = c as u32;
    (0x09 <= u && u <= 0x0D) || u == 0x20 || u == 0x85 || u == 0xA0 || u == 0x1680 || (0x2000 <= u
        && u <= 0x200A) || u == 0x2028 || u == 0x2029 || u == 0x202F || u == 0x205F || u == 0x3000
}

/// The characters of `s`, in order.
pub fn chars_of(s: &str) -> (out: Vec<char>)
    ensures
        out@ == s@,
{
    let mut out: Vec<char> = Vec::new();
    for c in it: s.chars()
        invariant
            out@ == it.seq().take(it.index() as int),
            it.seq() == s@,
    {
        out.push(c);
    }
    out
}

/// The part of `s` from position `from` up to `to`, as an owned string.
pub fn cut(s: &str, from: usize, to: usize) -> (out: String)
    requires
        from <= to <= s@.len(),
    ensures
        out@ == s@.subrange(from as int, to as int),
{
    s.substring_char(from, to).to_owned()
}

/// The bounds of `v[from..to]` without its leading and trailing whitespace.
pub fn trim_bounds(v: &Vec<char>, from: usize, to: usize) -> (b: (usize, usize))
    requires
        from <= to <= v.len(),
    ensures
        from <= b.0 <= b.1 <= to,
        v@.subrange(b.0 as int, b.1 as int) == trim(v@.subrange(from as int, to as int)),
{
    let ghost s = v@.subrange(from as int, to as int);
    let mut a: usize = from;
    while a < to && char_is_space(v[a])
        invariant
            from <= a <= to <= v.len(),
            s == v@.subrange(from as int, to as int),
            forall|j: int| 0 <= j < a - from ==> is_space(#[trigger] s[j]),
        decreases to - a,
    {
        a += 1;
    }
    let ghost t = v@.subrange(a as int, to as int);
    proof {
        lemma_trim_start(s, a - from);
        assert(s.subrange(a - from, s.len() as int) =~= t);
    }
    let mut b: usize = to;
    while a < b && char_is_space(v[b - 1])
        invariant
            a <= b <= to <= v.len(),
            t == v@.subrange(a as int, to as int),
            forall|j: int| b - a <= j < t.len() ==> is_space(#[trigger] t[j]),
        decreases b - a,
    {
        b -= 1;
    }
    proof {
        lemma_trim_end(t, b - a);
    }
    (a, b)
}

/// Whether `v[from..to]` begins with `pat`.
pub fn starts_with(v: &Vec<char>, from: usize, to: usize, pat: &Vec<char>) -> (r: bool)
    requires
        from <= to <= v.len(),
    ensures
        r == pat@.is_prefix_of(v@.subrange(from as int, to as int)),
{
    let n = pat.len();
    if to - from < n {
        return false;
    }
    let ghost s = v@.subrange(from as int, to as int);
    let mut i: usize = 0;
    while i < n
        invariant
            i <= n,
            n == pat.len(),
            from + n <= to <= v.len(),
            s == v@.subrange(from as int, to as int),
            forall|j: int| 0 <= j < i ==> pat@[j] == #[trigger] s[j],
        decreases n - i,
    {
        if v[from + i] != pat[i] {
            return false;
        }
        i += 1;
    }
    true
}

/// Whether `v[from..to]` ends with `pat`.
pub fn ends_with(v: &Vec<char>, from: usize, to: usize, pat: &Vec<char>) -> (r: bool)
    requires
        from <= to <= v.len(),
    ensures
        r == pat@.is_suffix_of(v@.subrange(from as int, to as int)),
{
    let n = pat.len();
    if to - from < n {
        return false;
    }
    let ghost s = v@.subrange(from as int, to as int);
    let base = to - n;
    let mut i: usize = 0;
    while i < n
        invariant
            i <= n,
            n == pat.len(),
            from + n <= to <= v.len(),
            base == to - n,
            s == v@.subrange(from as int, to as int),
            forall|j: int|
                s.len() - n <= j < s.len() - n + i ==> pat@[j - (s.len() - n)] == #[trigger] s[j],
        decreases n - i,
    {
        if v[base + i] != pat[i] {
            return false;
        }
        i += 1;
    }
    true
}

/// The position in `v[from..to]` at which `c` first occurs, counted from the
/// start of `v`.
pub fn find_first(v: &Vec<char>, from: usize, to: usize, c: char) -> (r: Option<usize>)
    requires
        from <= to <= v.len(),
    ensures
        match r {
            Some(i) => from <= i < to && first_index(v@.subrange(from as int, to as int), c)
                == Some(i - from),
            None => first_index(v@.subrange(from as int, to as int), c).is_none(),
        },
{
    let ghost s = v@.subrange(from as int, to as int);
    let mut i: usize = from;
    while i < to
        invariant
            from <= i <= to <= v.len(),
            s == v@.subrange(from as int, to as int),
            forall|j: int| 0 <= j < i - from ==> s[j] != c,
        decreases to - i,
    {
        if v[i] == c {
            proof {
                lemma_first_index(s, c, i - from);
            }
            return Some(i);
        }
        i += 1;
    }
    None
}

/// The position in `v[from..to]` at which `c` last occurs, counted from the
/// start of `v`.
pub fn find_last(v: &Vec<char>, from: usize, to: usize, c: char) -> (r: Option<usize>)
    requires
        from <= to <= v.len(),
    ensures
        match r {
            Some(i) => from <= i < to && last_index(v@.subrange(from as int, to as int), c) == Some(
                i - from,
            ),
            None => last_index(v@.subrange(from as int, to as int), c).is_none(),
        },
{
    let ghost s = v@.subrange(from as int, to as int);
    let mut i: usize = to;
    while i > from
        invariant
            from <= i <= to <= v.len(),
            s == v@.subrange(from as int, to as int),
            forall|j: int| i - from <= j < s.len() ==> s[j] != c,
        decreases i - from,
    {
        i -= 1;
        if v[i] == c {
            proof {
                lemma_last_index(s, c, i - from);
            }
            return Some(i);
        }
    }
    None
}

} // verus!
