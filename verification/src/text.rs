//! Character-sequence helpers with exact specifications.
//!
//! Text is handled as sequences of Unicode scalar values. Every helper here
//! mirrors the meaning of the standard-library string operation of the same
//! name, stated over `Seq<char>`; positions are character positions.

use vstd::prelude::*;

verus! {

// ── Building strings ─────────────────────────────────────────────────────────

/// Appends one character; a wrapper around `String::push`, whose contract
/// states that the character is added at the end and nothing else changes.
#[verifier::external_body]
pub(crate) fn push_char(s: &mut String, c: char)
    ensures
        final(s)@ == old(s)@.push(c),
{
    s.push(c);
}

/// The characters of `s`, in order.
pub fn to_chars(s: &str) -> (v: Vec<char>)
    ensures
        v@ == s@,
{
    let mut v: Vec<char> = Vec::new();
    for c in it: s.chars()
        invariant
            v@ == it.seq().take(it.index() as int),
            it.seq() == s@,
    {
        v.push(c);
    }
    v
}

/// Appends every character of `cs` to `s`.
pub fn push_chars(s: &mut String, cs: &[char])
    ensures
        final(s)@ == old(s)@ + cs@,
{
    let ghost start = s@;
    let mut i: usize = 0;
    while i < cs.len()
        invariant
            i <= cs@.len(),
            s@ == start + cs@.take(i as int),
        decreases cs@.len() - i,
    {
        push_char(s, cs[i]);
        i = i + 1;
        assert(cs@.take(i as int) =~= cs@.take(i - 1).push(cs@[i - 1]));
    }
    assert(cs@.take(cs@.len() as int) =~= cs@);
}

/// Appends every character of `t` to `s`.
pub fn push_str(s: &mut String, t: &str)
    ensures
        final(s)@ == old(s)@ + t@,
{
    let cs = to_chars(t);
    push_chars(s, cs.as_slice());
}

/// A new string holding the characters of `cs`.
pub fn from_chars(cs: &[char]) -> (s: String)
    ensures
        s@ == cs@,
{
    let mut s = String::new();
    push_chars(&mut s, cs);
    assert(s@ =~= cs@);
    s
}

/// A copy of `cs[from..to]`.
pub fn slice_of(cs: &[char], from: usize, to: usize) -> (r: Vec<char>)
    requires
        from <= to <= cs@.len(),
    ensures
        r@ == cs@.subrange(from as int, to as int),
{
    let mut r: Vec<char> = Vec::new();
    let mut i = from;
    while i < to
        invariant
            from <= i <= to <= cs@.len(),
            r@ == cs@.subrange(from as int, i as int),
        decreases to - i,
    {
        r.push(cs[i]);
        i = i + 1;
        assert(r@ =~= cs@.subrange(from as int, i as int));
    }
    r
}

/// Whether two character sequences are equal.
pub fn chars_eq(a: &[char], b: &[char]) -> (r: bool)
    ensures
        r == (a@ == b@),
{
    if a.len() != b.len() {
        return false;
    }
    let mut i: usize = 0;
    while i < a.len()
        invariant
            a@.len() == b@.len(),
            i <= a@.len(),
            forall|k: int| 0 <= k < i ==> a@[k] == b@[k],
        decreases a@.len() - i,
    {
        if a[i] != b[i] {
            return false;
        }
        i = i + 1;
    }
    assert(a@ =~= b@);
    true
}

/// Whether two strings hold the same characters.
pub fn str_eq(a: &str, b: &str) -> (r: bool)
    ensures
        r == (a@ == b@),
{
    let ca = to_chars(a);
    let cb = to_chars(b);
    chars_eq(ca.as_slice(), cb.as_slice())
}

// ── White space ──────────────────────────────────────────────────────────────

/// The Unicode `White_Space` property, the meaning of `char::is_whitespace`.
pub open spec fn is_white_space(c: char) -> bool {
    let u = c as u32;
    ||| 0x9 <= u <= 0xd
    ||| u == 0x20
    ||| u == 0x85
    ||| u == 0xa0
    ||| u == 0x1680
    ||| 0x2000 <= u <= 0x200a
    ||| u == 0x2028
    ||| u == 0x2029
    ||| u == 0x202f
    ||| u == 0x205f
    ||| u == 0x3000
}

/// Decides `is_white_space`.
pub fn white_space(c: char) -> (b: bool)
    ensures
        b == is_white_space(c),
{
    let u = c as u32;
    (0x9 <= u && u <= 0xd) || u == 0x20 || u == 0x85 || u == 0xa0 || u == 0x1680 || (0x2000 <= u
        && u <= 0x200a) || u == 0x2028 || u == 0x2029 || u == 0x202f || u == 0x205f || u == 0x3000
}

/// `s` without its leading white space (`str::trim_start`).
pub open spec fn trim_start(s: Seq<char>) -> Seq<char>
    decreases s.len(),
{
    if s.len() > 0 && is_white_space(s[0]) {
        trim_start(s.drop_first())
    } else {
        s
    }
}

/// `s` without its trailing white space (`str::trim_end`).
pub open spec fn trim_end(s: Seq<char>) -> Seq<char>
    decreases s.len(),
{
    if s.len() > 0 && is_white_space(s.last()) {
        trim_end(s.drop_last())
    } else {
        s
    }
}

/// `s` without leading and trailing white space (`str::trim`).
pub open spec fn trim(s: Seq<char>) -> Seq<char> {
    trim_end(trim_start(s))
}

/// Computes `trim_start`.
pub fn trim_start_chars(s: &[char]) -> (r: Vec<char>)
    ensures
        r@ == trim_start(s@),
{
    let mut i: usize = 0;
    assert(s@.skip(0) =~= s@);
    while i < s.len() && white_space(s[i])
        invariant
            i <= s@.len(),
            trim_start(s@.skip(i as int)) == trim_start(s@),
        decreases s@.len() - i,
    {
        assert(s@.skip(i as int).drop_first() =~= s@.skip(i + 1));
        i = i + 1;
    }
    slice_of(s, i, s.len())
}

/// Computes `trim_end`.
pub fn trim_end_chars(s: &[char]) -> (r: Vec<char>)
    ensures
        r@ == trim_end(s@),
{
    let mut j: usize = s.len();
    assert(s@.take(s@.len() as int) =~= s@);
    while j > 0 && white_space(s[j - 1])
        invariant
            j <= s@.len(),
            trim_end(s@.take(j as int)) == trim_end(s@),
        decreases j,
    {
        assert(s@.take(j as int).drop_last() =~= s@.take(j - 1));
        j = j - 1;
    }
    assert(s@.take(s@.len() as int) =~= s@);
    let r = slice_of(s, 0, j);
    assert(r@ =~= s@.take(j as int));
    r
}

/// Computes `trim`.
pub fn trim_chars(s: &[char]) -> (r: Vec<char>)
    ensures
        r@ == trim(s@),
{
    let a = trim_start_chars(s);
    trim_end_chars(a.as_slice())
}

/// `str::trim` on a string.
pub fn trim_str(s: &str) -> (r: String)
    ensures
        r@ == trim(s@),
{
    let cs = to_chars(s);
    let t = trim_chars(cs.as_slice());
    from_chars(t.as_slice())
}


// ── Searching ────────────────────────────────────────────────────────────────

/// `p` occurs in `s` starting at position `i`.
pub open spec fn occurs_at(s: Seq<char>, p: Seq<char>, i: int) -> bool {
    0 <= i && i + p.len() <= s.len() && s.subrange(i, i + p.len()) == p
}

/// `i` is the position of the first occurrence of `p` in `s`.
pub open spec fn is_first_occurrence(s: Seq<char>, p: Seq<char>, i: int) -> bool {
    occurs_at(s, p, i) && forall|j: int| 0 <= j < i ==> !occurs_at(s, p, j)
}

/// The position of the first occurrence of `p` in `s` (`str::find`).
pub open spec fn find(s: Seq<char>, p: Seq<char>) -> Option<int> {
    if exists|i: int| is_first_occurrence(s, p, i) {
        Some(choose|i: int| is_first_occurrence(s, p, i))
    } else {
        None
    }
}

/// `i` is the position of the last occurrence of `p` in `s`.
pub open spec fn is_last_occurrence(s: Seq<char>, p: Seq<char>, i: int) -> bool {
    occurs_at(s, p, i) && forall|j: int| i < j ==> !occurs_at(s, p, j)
}

/// The position of the last occurrence of `p` in `s` (`str::rfind`).
pub open spec fn rfind(s: Seq<char>, p: Seq<char>) -> Option<int> {
    if exists|i: int| is_last_occurrence(s, p, i) {
        Some(choose|i: int| is_last_occurrence(s, p, i))
    } else {
        None
    }
}

/// `p` occurs somewhere in `s` (`str::contains`).
pub open spec fn contains(s: Seq<char>, p: Seq<char>) -> bool {
    exists|i: int| occurs_at(s, p, i)
}

/// `s` begins with `p` (`str::starts_with`).
pub open spec fn starts_with(s: Seq<char>, p: Seq<char>) -> bool {
    p.len() <= s.len() && s.take(p.len() as int) == p
}

/// `s` ends with `p` (`str::ends_with`).
pub open spec fn ends_with(s: Seq<char>, p: Seq<char>) -> bool {
    p.len() <= s.len() && s.skip(s.len() - p.len()) == p
}

/// A found position is the first occurrence.
pub proof fn lemma_find_some(s: Seq<char>, p: Seq<char>)
    ensures
        find(s, p) matches Some(i) ==> is_first_occurrence(s, p, i),
        find(s, p) is None ==> !contains(s, p),
{
    if find(s, p) is None && contains(s, p) {
        let k = choose|k: int| occurs_at(s, p, k);
        lemma_first_occurrence_exists(s, p, k);
    }
}

/// Any occurrence has a first occurrence at or before it.
proof fn lemma_first_occurrence_exists(s: Seq<char>, p: Seq<char>, k: int)
    requires
        occurs_at(s, p, k),
    ensures
        exists|i: int| is_first_occurrence(s, p, i),
    decreases k,
{
    if forall|j: int| 0 <= j < k ==> !occurs_at(s, p, j) {
        assert(is_first_occurrence(s, p, k));
    } else {
        let j = choose|j: int| 0 <= j < k && occurs_at(s, p, j);
        lemma_first_occurrence_exists(s, p, j);
    }
}

/// `p` occurs at `k`, and its first character appears nowhere before `k`:
/// `k` is where `find` stops.
pub proof fn lemma_find_at(s: Seq<char>, p: Seq<char>, k: int)
    requires
        p.len() > 0,
        occurs_at(s, p, k),
        forall|j: int| 0 <= j < k ==> s[j] != p[0],
    ensures
        find(s, p) == Some(k),
{
    assert forall|j: int| 0 <= j < k implies !occurs_at(s, p, j) by {
        if occurs_at(s, p, j) {
            assert(s.subrange(j, j + p.len())[0] == p[0]);
        }
    }
    assert(is_first_occurrence(s, p, k));
    assert forall|i: int| is_first_occurrence(s, p, i) implies i == k by {
        if i < k {
        } else if i > k {
            assert(!occurs_at(s, p, k));
        }
    }
}

/// `p` occurs at `k`, and its first character appears nowhere after `k`:
/// `k` is where `rfind` stops.
pub proof fn lemma_rfind_at(s: Seq<char>, p: Seq<char>, k: int)
    requires
        p.len() > 0,
        occurs_at(s, p, k),
        forall|j: int| k < j < s.len() ==> s[j] != p[0],
    ensures
        rfind(s, p) == Some(k),
{
    assert forall|j: int| k < j implies !occurs_at(s, p, j) by {
        if occurs_at(s, p, j) {
            assert(s.subrange(j, j + p.len())[0] == p[0]);
        }
    }
    assert(is_last_occurrence(s, p, k));
    assert forall|i: int| is_last_occurrence(s, p, i) implies i == k by {
        if i > k {
        } else if i < k {
            assert(!occurs_at(s, p, k));
        }
    }
}

/// A decimal number has no white space to trim.
pub proof fn lemma_trim_decimal(n: nat)
    ensures
        trim(decimal(n)) == decimal(n),
{
    lemma_decimal_digits(n);
    let d = decimal(n);
    assert(is_digit(d[0]));
    assert(is_digit(d[d.len() - 1]));
    assert(trim_start(d) == d);
}

/// The characters of a decimal number are digits.
pub proof fn lemma_decimal_digits(n: nat)
    ensures
        all_digits(decimal(n)),
        decimal(n).len() > 0,
    decreases n,
{
    if n >= 10 {
        lemma_decimal_digits(n / 10);
    }
}

/// Whether `p` occurs in `s` at position `i`.
pub fn matches_at(s: &[char], p: &[char], i: usize) -> (b: bool)
    ensures
        b == occurs_at(s@, p@, i as int),
{
    if i > s.len() || p.len() > s.len() - i {
        return false;
    }
    let mut k: usize = 0;
    while k < p.len()
        invariant
            i + p.len() <= s.len(),
            i + p@.len() <= s@.len(),
            k <= p@.len(),
            forall|t: int| 0 <= t < k ==> s@[i + t] == p@[t],
        decreases p@.len() - k,
    {
        if s[i + k] != p[k] {
            assert(s@.subrange(i as int, i + p@.len())[k as int] != p@[k as int]);
            return false;
        }
        k = k + 1;
    }
    assert(s@.subrange(i as int, i + p@.len()) =~= p@);
    true
}

/// Computes `find`.
pub fn find_chars(s: &[char], p: &[char]) -> (r: Option<usize>)
    ensures
        find(s@, p@) == (match r {
            Some(i) => Some(i as int),
            None => None::<int>,
        }),
{
    let mut i: usize = 0;
    loop
        invariant
            i <= s@.len(),
            forall|j: int| 0 <= j < i ==> !occurs_at(s@, p@, j),
        decreases s@.len() - i,
    {
        if matches_at(s, p, i) {
            assert(is_first_occurrence(s@, p@, i as int));
            assert forall|k: int| is_first_occurrence(s@, p@, k) implies k == i by {
                if k < i {
                } else if k > i {
                    assert(!occurs_at(s@, p@, i as int));
                }
            }
            return Some(i);
        }
        if i == s.len() {
            assert forall|j: int| !occurs_at(s@, p@, j) by {
                if j > s@.len() {
                }
            }
            return None;
        }
        i = i + 1;
    }
}

/// Computes `rfind`.
pub fn rfind_chars(s: &[char], p: &[char]) -> (r: Option<usize>)
    ensures
        rfind(s@, p@) == (match r {
            Some(i) => Some(i as int),
            None => None::<int>,
        }),
{
    let mut i: usize = s.len();
    loop
        invariant
            i <= s@.len(),
            forall|j: int| i < j ==> !occurs_at(s@, p@, j),
        decreases i,
    {
        if matches_at(s, p, i) {
            let ghost k0 = i as int;
            assert(is_last_occurrence(s@, p@, k0));
            assert forall|k: int| is_last_occurrence(s@, p@, k) implies k == k0 by {
                if k > k0 {
                } else if k < k0 {
                    assert(!occurs_at(s@, p@, k0));
                }
            }
            return Some(i);
        }
        if i == 0 {
            return None;
        }
        i = i - 1;
    }
}

/// Computes `contains`.
pub fn contains_chars(s: &[char], p: &[char]) -> (b: bool)
    ensures
        b == contains(s@, p@),
{
    let r = find_chars(s, p);
    proof {
        lemma_find_some(s@, p@);
    }
    r.is_some()
}

/// Computes `starts_with`.
pub fn starts_with_chars(s: &[char], p: &[char]) -> (b: bool)
    ensures
        b == starts_with(s@, p@),
{
    let b = matches_at(s, p, 0);
    proof {
        if b {
            assert(s@.take(p@.len() as int) =~= s@.subrange(0, p@.len() as int));
        } else if starts_with(s@, p@) {
            assert(s@.take(p@.len() as int) =~= s@.subrange(0, p@.len() as int));
        }
    }
    b
}

/// Computes `ends_with`.
pub fn ends_with_chars(s: &[char], p: &[char]) -> (b: bool)
    ensures
        b == ends_with(s@, p@),
{
    if p.len() > s.len() {
        return false;
    }
    let b = matches_at(s, p, s.len() - p.len());
    proof {
        assert(s@.skip(s@.len() - p@.len()) =~= s@.subrange(
            s@.len() - p@.len(),
            s@.len() - p@.len() + p@.len(),
        ));
    }
    b
}


// ── Trimming patterns ────────────────────────────────────────────────────────

/// `s` with every leading repetition of `p` removed (`str::trim_start_matches`).
pub open spec fn trim_start_matches(s: Seq<char>, p: Seq<char>) -> Seq<char>
    decreases s.len(),
{
    if p.len() > 0 && starts_with(s, p) {
        trim_start_matches(s.skip(p.len() as int), p)
    } else {
        s
    }
}

/// `s` with every trailing repetition of `p` removed (`str::trim_end_matches`).
pub open spec fn trim_end_matches(s: Seq<char>, p: Seq<char>) -> Seq<char>
    decreases s.len(),
{
    if p.len() > 0 && ends_with(s, p) {
        trim_end_matches(s.take(s.len() - p.len()), p)
    } else {
        s
    }
}

/// Computes `trim_start_matches`.
pub fn trim_start_matches_chars(s: &[char], p: &[char]) -> (r: Vec<char>)
    ensures
        r@ == trim_start_matches(s@, p@),
{
    let mut i: usize = 0;
    assert(s@.skip(0) =~= s@);
    if p.len() == 0 {
        return slice_of(s, 0, s.len());
    }
    while matches_at(s, p, i)
        invariant
            i <= s@.len(),
            p@.len() > 0,
            trim_start_matches(s@.skip(i as int), p@) == trim_start_matches(s@, p@),
        decreases s@.len() - i,
    {
        assert(s@.skip(i as int).take(p@.len() as int) =~= s@.subrange(i as int, i + p@.len()));
        assert(s@.skip(i as int).skip(p@.len() as int) =~= s@.skip(i + p@.len()));
        assert(occurs_at(s@, p@, i as int));
        assert(i + p.len() <= s.len());
        i = i + p.len();
    }
    proof {
        if starts_with(s@.skip(i as int), p@) {
            assert(s@.skip(i as int).take(p@.len() as int) =~= s@.subrange(
                i as int,
                i + p@.len(),
            ));
        }
    }
    slice_of(s, i, s.len())
}

/// Computes `trim_end_matches`.
pub fn trim_end_matches_chars(s: &[char], p: &[char]) -> (r: Vec<char>)
    ensures
        r@ == trim_end_matches(s@, p@),
{
    let mut j: usize = s.len();
    assert(s@.take(s@.len() as int) =~= s@);
    if p.len() == 0 {
        return slice_of(s, 0, s.len());
    }
    while j >= p.len() && matches_at(s, p, j - p.len())
        invariant
            j <= s@.len(),
            p@.len() > 0,
            trim_end_matches(s@.take(j as int), p@) == trim_end_matches(s@, p@),
        decreases j,
    {
        assert(s@.take(j as int).skip(j - p@.len()) =~= s@.subrange(j - p@.len(), j as int));
        assert(s@.take(j as int).take(j - p@.len()) =~= s@.take(j - p@.len()));
        j = j - p.len();
    }
    proof {
        if ends_with(s@.take(j as int), p@) {
            assert(s@.take(j as int).skip(j - p@.len()) =~= s@.subrange(
                j - p@.len(),
                j - p@.len() + p@.len(),
            ));
        }
    }
    let r = slice_of(s, 0, j);
    assert(r@ =~= s@.take(j as int));
    r
}

/// `s` without the prefix `p`, if it begins with it (`str::strip_prefix`).
pub open spec fn strip_prefix(s: Seq<char>, p: Seq<char>) -> Option<Seq<char>> {
    if starts_with(s, p) {
        Some(s.skip(p.len() as int))
    } else {
        None
    }
}

/// Computes `strip_prefix`.
pub fn strip_prefix_chars(s: &[char], p: &[char]) -> (r: Option<Vec<char>>)
    ensures
        match r {
            Some(v) => strip_prefix(s@, p@) == Some(v@),
            None => strip_prefix(s@, p@) is None,
        },
{
    if starts_with_chars(s, p) {
        Some(slice_of(s, p.len(), s.len()))
    } else {
        None
    }
}

// ── Splitting ────────────────────────────────────────────────────────────────

/// The `n`th piece of `s` split at each occurrence of `p`
/// (`str::split(p).nth(n)`); `p` is not empty.
pub open spec fn split_nth(s: Seq<char>, p: Seq<char>, n: nat) -> Option<Seq<char>>
    decreases n,
{
    match find(s, p) {
        Some(i) => if n == 0 {
            Some(s.take(i))
        } else {
            split_nth(s.skip(i + p.len()), p, (n - 1) as nat)
        },
        None => if n == 0 {
            Some(s)
        } else {
            None
        },
    }
}

/// Computes `split_nth`.
pub fn split_nth_chars(s: &[char], p: &[char], n: usize) -> (r: Option<Vec<char>>)
    requires
        p@.len() > 0,
    ensures
        match r {
            Some(v) => split_nth(s@, p@, n as nat) == Some(v@),
            None => split_nth(s@, p@, n as nat) is None,
        },
    decreases n,
{
    let f = find_chars(s, p);
    proof {
        lemma_find_some(s@, p@);
    }
    match f {
        Some(i) => {
            if n == 0 {
                let v = slice_of(s, 0, i);
                assert(v@ =~= s@.take(i as int));
                Some(v)
            } else {
                assert(occurs_at(s@, p@, i as int));
                assert(i + p.len() <= s.len());
                let rest = slice_of(s, i + p.len(), s.len());
                assert(rest@ =~= s@.skip(i + p@.len()));
                split_nth_chars(rest.as_slice(), p, n - 1)
            }
        },
        None => {
            if n == 0 {
                Some(slice_of(s, 0, s.len()))
            } else {
                None
            }
        },
    }
}

/// The text before and after the last occurrence of `p` in `s`
/// (`str::rsplit_once`).
pub open spec fn rsplit_once(s: Seq<char>, p: Seq<char>) -> Option<(Seq<char>, Seq<char>)> {
    match rfind(s, p) {
        Some(i) => Some((s.take(i), s.skip(i + p.len()))),
        None => None,
    }
}

/// Removes one trailing carriage return.
pub open spec fn strip_cr(l: Seq<char>) -> Seq<char> {
    if l.len() > 0 && l.last() == '\r' {
        l.drop_last()
    } else {
        l
    }
}

/// The lines of `s` (`str::lines`): pieces ended by `\n` or `\r\n`; the last
/// line ending is optional.
pub open spec fn lines(s: Seq<char>) -> Seq<Seq<char>>
    decreases s.len(),
{
    if s.len() == 0 {
        seq![]
    } else {
        match find(s, seq!['\n']) {
            Some(i) => if 0 <= i < s.len() {
                seq![strip_cr(s.take(i))] + lines(s.skip(i + 1))
            } else {
                seq![]
            },
            None => seq![s],
        }
    }
}

/// Computes `lines`.
pub fn lines_chars(s: &[char]) -> (r: Vec<Vec<char>>)
    ensures
        r@.len() == lines(s@).len(),
        forall|k: int| 0 <= k < r@.len() ==> #[trigger] r@[k]@ == lines(s@)[k],
{
    let nl = ['\n'];
    let mut out: Vec<Vec<char>> = Vec::new();
    let mut start: usize = 0;
    assert(s@.skip(0) =~= s@);
    while start < s.len()
        invariant
            start <= s@.len(),
            nl@ == seq!['\n'],
            lines(s@) == out@.map_values(|v: Vec<char>| v@) + lines(s@.skip(start as int)),
        decreases s@.len() - start,
    {
        let rest = slice_of(s, start, s.len());
        assert(rest@ =~= s@.skip(start as int));
        let f = find_chars(rest.as_slice(), nl.as_slice());
        proof {
            lemma_find_some(rest@, nl@);
        }
        match f {
            Some(i) => {
                let mut line = slice_of(rest.as_slice(), 0, i);
                assert(line@ =~= rest@.take(i as int));
                if line.len() > 0 && line[line.len() - 1] == '\r' {
                    line.pop();
                    assert(line@ =~= strip_cr(rest@.take(i as int)));
                }
                let ghost prev = out@;
                out.push(line);
                assert(rest@.skip(i + 1) =~= s@.skip(start + i + 1));
                assert(out@.map_values(|v: Vec<char>| v@) =~= prev.map_values(|v: Vec<char>| v@).push(
                    strip_cr(rest@.take(i as int)),
                ));
                start = start + i + 1;
            },
            None => {
                let ghost prev = out@;
                out.push(rest);
                assert(s@.skip(s@.len() as int) =~= Seq::<char>::empty());
                assert(out@.map_values(|v: Vec<char>| v@) =~= prev.map_values(|v: Vec<char>| v@).push(
                    s@.skip(start as int),
                ));
                start = s.len();
            },
        }
    }
    assert(s@.skip(start as int) =~= Seq::<char>::empty());
    assert(lines(s@) =~= out@.map_values(|v: Vec<char>| v@));
    out
}


// ── Numbers ──────────────────────────────────────────────────────────────────

/// The character of the decimal digit `d` (0 ≤ d ≤ 9).
pub open spec fn digit_char(d: nat) -> char {
    (d + 48) as char
}

/// `c` is an ASCII decimal digit.
pub open spec fn is_digit(c: char) -> bool {
    48 <= (c as u32) <= 57
}

/// The decimal digits of `n`, without leading zeros (how `{}` prints an
/// unsigned integer).
pub open spec fn decimal(n: nat) -> Seq<char>
    decreases n,
{
    if n < 10 {
        seq![digit_char(n)]
    } else {
        decimal(n / 10).push(digit_char(n % 10))
    }
}

/// `s` left-padded with `0` to at least `width` characters (how `{:0w}`
/// pads).
pub open spec fn zero_pad(s: Seq<char>, width: nat) -> Seq<char> {
    if s.len() < width {
        Seq::new((width - s.len()) as nat, |k: int| '0') + s
    } else {
        s
    }
}

/// `s` without one leading `+`.
pub open spec fn unsigned_digits(s: Seq<char>) -> Seq<char> {
    if s.len() > 0 && s[0] == '+' {
        s.drop_first()
    } else {
        s
    }
}

/// Every character of `d` is a decimal digit.
pub open spec fn all_digits(d: Seq<char>) -> bool {
    forall|k: int| 0 <= k < d.len() ==> is_digit(#[trigger] d[k])
}

/// The value of a sequence of decimal digits.
pub open spec fn digits_value(d: Seq<char>) -> nat
    decreases d.len(),
{
    if d.len() == 0 {
        0
    } else {
        digits_value(d.drop_last()) * 10 + ((d.last() as u32) - 48) as nat
    }
}

/// How `str::parse` reads an unsigned integer no larger than `max`: an
/// optional `+`, then at least one ASCII digit and nothing else.
pub open spec fn parse_unsigned(s: Seq<char>, max: nat) -> Option<nat> {
    let d = unsigned_digits(s);
    if d.len() > 0 && all_digits(d) && digits_value(d) <= max {
        Some(digits_value(d))
    } else {
        None
    }
}

/// The character of a decimal digit.
pub fn digit(d: u64) -> (c: char)
    requires
        d < 10,
    ensures
        c == digit_char(d as nat),
{
    match d {
        0 => '0',
        1 => '1',
        2 => '2',
        3 => '3',
        4 => '4',
        5 => '5',
        6 => '6',
        7 => '7',
        8 => '8',
        _ => '9',
    }
}

/// Computes `decimal`.
pub fn decimal_chars(n: u64) -> (v: Vec<char>)
    ensures
        v@ == decimal(n as nat),
    decreases n,
{
    if n < 10 {
        let mut v = Vec::new();
        v.push(digit(n));
        assert(v@ =~= seq![digit_char(n as nat)]);
        v
    } else {
        let mut v = decimal_chars(n / 10);
        v.push(digit(n % 10));
        v
    }
}

/// `n` in decimal, as a string.
pub fn decimal_string(n: u64) -> (s: String)
    ensures
        s@ == decimal(n as nat),
{
    let v = decimal_chars(n);
    from_chars(v.as_slice())
}

/// Computes `zero_pad(decimal(n), width)`.
pub fn zero_padded(n: u64, width: usize) -> (v: Vec<char>)
    ensures
        v@ == zero_pad(decimal(n as nat), width as nat),
{
    let d = decimal_chars(n);
    if d.len() >= width {
        return d;
    }
    let mut v: Vec<char> = Vec::new();
    let fill = width - d.len();
    while v.len() < fill
        invariant
            v.len() <= fill,
            forall|k: int| 0 <= k < v.len() ==> v@[k] == '0',
        decreases fill - v.len(),
    {
        v.push('0');
    }
    let ghost zeros = v@;
    let mut k: usize = 0;
    while k < d.len()
        invariant
            k <= d@.len(),
            v@ == zeros + d@.take(k as int),
        decreases d@.len() - k,
    {
        v.push(d[k]);
        k = k + 1;
        assert(d@.take(k as int) =~= d@.take(k - 1).push(d@[k - 1]));
    }
    assert(d@.take(d@.len() as int) =~= d@);
    assert(zeros =~= Seq::new((width - d@.len()) as nat, |k: int| '0'));
    v
}

/// Leading digits never weigh more than all of them.
proof fn lemma_digits_value_prefix(d: Seq<char>, k: int)
    requires
        0 <= k <= d.len(),
    ensures
        digits_value(d.take(k)) <= digits_value(d),
    decreases d.len(),
{
    if k < d.len() {
        assert(d.drop_last().take(k) =~= d.take(k));
        lemma_digits_value_prefix(d.drop_last(), k);
    } else {
        assert(d.take(k) =~= d);
    }
}

/// Reading a printed number gives the number back.
pub proof fn law_parse_decimal(n: nat, max: nat)
    requires
        n <= max,
    ensures
        parse_unsigned(decimal(n), max) == Some(n),
{
    lemma_decimal_value(n);
    lemma_decimal_digits(n);
    let d = decimal(n);
    assert(is_digit(d[0]));
    assert(unsigned_digits(d) == d);
}

/// A digit's character encodes the digit.
proof fn lemma_digit_char(k: nat)
    requires
        k < 10,
    ensures
        (digit_char(k) as u32) == k + 48,
{
    assert(k == 0 || k == 1 || k == 2 || k == 3 || k == 4 || k == 5 || k == 6 || k == 7 || k == 8
        || k == 9);
}

/// The value of a number's decimal digits is the number.
proof fn lemma_decimal_value(n: nat)
    ensures
        digits_value(decimal(n)) == n,
    decreases n,
{
    lemma_digit_char(n % 10);
    if n >= 10 {
        lemma_decimal_value(n / 10);
        let d = decimal(n);
        assert(d.drop_last() =~= decimal(n / 10));
        assert(d.last() == digit_char(n % 10));
        assert(digits_value(d) == digits_value(d.drop_last()) * 10 + ((d.last() as u32) - 48) as nat);
    } else {
        let d = decimal(n);
        assert(d.drop_last() =~= Seq::<char>::empty());
        assert(d.last() == digit_char(n % 10));
        assert(digits_value(d) == digits_value(d.drop_last()) * 10 + ((d.last() as u32) - 48) as nat);
    }
}

/// Computes `parse_unsigned(s, max)`.
pub fn parse_unsigned_chars(s: &[char], max: u64) -> (r: Option<u64>)
    ensures
        match r {
            Some(v) => parse_unsigned(s@, max as nat) == Some(v as nat),
            None => parse_unsigned(s@, max as nat) is None,
        },
{
    let start: usize = if s.len() > 0 && s[0] == '+' {
        1
    } else {
        0
    };
    let ghost d = unsigned_digits(s@);
    assert(d =~= s@.skip(start as int));
    if start >= s.len() {
        return None;
    }
    let mut k: usize = start;
    let mut acc: u64 = 0;
    while k < s.len()
        invariant
            start <= k <= s@.len(),
            d == unsigned_digits(s@),
            d =~= s@.skip(start as int),
            forall|t: int| 0 <= t < k - start ==> is_digit(#[trigger] d[t]),
            acc as nat == digits_value(d.take(k - start)),
            acc <= max,
        decreases s@.len() - k,
    {
        let c = s[k];
        let u = c as u32;
        assert(d[k - start] == s@[k as int]);
        if !(u >= 48 && u <= 57) {
            assert(!is_digit(d[k - start]));
            return None;
        }
        let dv = (u - 48) as u64;
        assert(d.take(k + 1 - start).drop_last() =~= d.take(k - start));
        if dv > max || acc > (max - dv) / 10 {
            proof {
                assert(acc * 10 + dv > max) by (nonlinear_arith)
                    requires
                        dv > max || acc > (max - dv) / 10,
                        dv <= 9,
                ;
                lemma_digits_value_prefix(d, k + 1 - start);
            }
            return None;
        }
        assert(acc * 10 + dv <= max) by (nonlinear_arith)
            requires
                acc <= (max - dv) / 10,
                dv <= max,
        ;
        acc = acc * 10 + dv;
        k = k + 1;
    }
    assert(d.take(k - start) =~= d);
    Some(acc)
}


// ── Searching for one of two characters ─────────────────────────────────────

/// `i` is the first position of `a` or `b` in `s`.
pub open spec fn is_first_of(s: Seq<char>, a: char, b: char, i: int) -> bool {
    0 <= i < s.len() && (s[i] == a || s[i] == b) && forall|j: int|
        0 <= j < i ==> !(s[j] == a || s[j] == b)
}

/// The first position of `a` or `b` in `s` (`str::find([a, b])`).
pub open spec fn find_either(s: Seq<char>, a: char, b: char) -> Option<int> {
    if exists|i: int| is_first_of(s, a, b, i) {
        Some(choose|i: int| is_first_of(s, a, b, i))
    } else {
        None
    }
}

/// Computes `find_either`.
pub fn find_either_chars(s: &[char], a: char, b: char) -> (r: Option<usize>)
    ensures
        find_either(s@, a, b) == (match r {
            Some(i) => Some(i as int),
            None => None::<int>,
        }),
{
    let mut i: usize = 0;
    while i < s.len()
        invariant
            i <= s@.len(),
            forall|j: int| 0 <= j < i ==> !(s@[j] == a || s@[j] == b),
        decreases s@.len() - i,
    {
        if s[i] == a || s[i] == b {
            assert(is_first_of(s@, a, b, i as int));
            assert forall|k: int| is_first_of(s@, a, b, k) implies k == i by {
                if k > i {
                    assert(!(s@[i as int] == a || s@[i as int] == b));
                }
            }
            return Some(i);
        }
        i = i + 1;
    }
    None
}

// ── Case mapping ─────────────────────────────────────────────────────────────

/// What `str::to_lowercase` returns for `s` (Unicode lowercase mapping).
pub uninterp spec fn unicode_lowercase(s: Seq<char>) -> Seq<char>;

/// What `str::to_uppercase` returns for `s` (Unicode uppercase mapping).
pub uninterp spec fn unicode_uppercase(s: Seq<char>) -> Seq<char>;

/// `str::to_lowercase`; the contract names its result and says no more.
#[verifier::external_body]
pub(crate) fn to_lowercase(s: &str) -> (r: String)
    ensures
        r@ == unicode_lowercase(s@),
{
    s.to_lowercase()
}

/// `str::to_uppercase`; the contract names its result and says no more.
#[verifier::external_body]
pub(crate) fn to_uppercase(s: &str) -> (r: String)
    ensures
        r@ == unicode_uppercase(s@),
{
    s.to_uppercase()
}

} // verus!
