//! API keys as typed into the settings: white space is removed before a key
//! is sent or saved, and a key pasted several times over is saved once.

use vstd::prelude::*;
use crate::text::{is_white_space, white_space, slice_of, to_chars, from_chars};

verus! {

/// `s` without any white space.
pub open spec fn without_white_space(s: Seq<char>) -> Seq<char>
    decreases s.len(),
{
    if s.len() == 0 {
        seq![]
    } else if is_white_space(s.last()) {
        without_white_space(s.drop_last())
    } else {
        without_white_space(s.drop_last()).push(s.last())
    }
}

/// `s` repeats itself every `d` characters.
pub open spec fn has_period(s: Seq<char>, d: int) -> bool {
    forall|i: int| d <= i < s.len() ==> #[trigger] s[i] == s[i - d]
}

/// `s` is whole copies of its first `d` characters.
pub open spec fn is_unit_len(s: Seq<char>, d: int) -> bool {
    1 <= d && (s.len() as int) % d == 0 && has_period(s, d)
}

/// The smallest length from `d` on of a piece that `s` is whole copies of;
/// the length of `s` when there is none shorter.
pub open spec fn unit_len_from(s: Seq<char>, d: nat) -> nat
    decreases s.len() - d,
{
    if d >= s.len() {
        s.len()
    } else if d >= 1 && is_unit_len(s, d as int) {
        d
    } else {
        unit_len_from(s, d + 1)
    }
}

/// The shortest piece that `s` is whole copies of.
pub open spec fn unit(s: Seq<char>) -> Seq<char> {
    s.take(unit_len_from(s, 1) as int)
}

/// A key as stored and sent: white space removed, then one copy kept of a
/// key that was pasted several times over.
pub open spec fn clean_key(k: Seq<char>) -> Seq<char> {
    unit(without_white_space(k))
}

/// `p` written `m` times.
pub open spec fn repeat(p: Seq<char>, m: nat) -> Seq<char>
    decreases m,
{
    if m == 0 {
        seq![]
    } else {
        repeat(p, (m - 1) as nat) + p
    }
}

/// Removes the white space of `cs`.
fn strip_white_space(cs: &[char]) -> (r: Vec<char>)
    ensures
        r@ == without_white_space(cs@),
{
    let mut r: Vec<char> = Vec::new();
    let mut i: usize = 0;
    while i < cs.len()
        invariant
            i <= cs@.len(),
            r@ == without_white_space(cs@.take(i as int)),
        decreases cs@.len() - i,
    {
        assert(cs@.take(i + 1).drop_last() =~= cs@.take(i as int));
        assert(cs@.take(i + 1).last() == cs@[i as int]);
        if !white_space(cs[i]) {
            r.push(cs[i]);
        }
        i = i + 1;
    }
    assert(cs@.take(cs@.len() as int) =~= cs@);
    r
}

/// Decides `has_period`.
fn periodic(s: &[char], d: usize) -> (b: bool)
    requires
        1 <= d,
    ensures
        b == has_period(s@, d as int),
{
    let mut i: usize = d;
    while i < s.len()
        invariant
            d <= i,
            forall|j: int| d <= j < i && j < s@.len() ==> #[trigger] s@[j] == s@[j - d],
        decreases s@.len() - i,
    {
        if s[i] != s[i - d] {
            return false;
        }
        i = i + 1;
    }
    true
}

/// Computes `unit_len_from(s, 1)`.
fn unit_len(s: &[char]) -> (n: usize)
    ensures
        n == unit_len_from(s@, 1),
{
    let mut d: usize = 1;
    while d < s.len()
        invariant
            1 <= d,
            unit_len_from(s@, d as nat) == unit_len_from(s@, 1),
        decreases s@.len() - d,
    {
        if s.len() % d == 0 && periodic(s, d) {
            return d;
        }
        d = d + 1;
    }
    s.len()
}

/// Removes all white space from an API key, as is done before sending it.
pub fn strip_key_white_space(key: &str) -> (k: String)
    ensures
        k@ == without_white_space(key@),
{
    let cs = to_chars(key);
    let s = strip_white_space(cs.as_slice());
    from_chars(s.as_slice())
}

/// Cleans an API key: removes all white space, and keeps one copy of a key
/// that was pasted several times.
pub fn sanitize_key(key: &str) -> (k: String)
    ensures
        k@ == clean_key(key@),
{
    let cs = to_chars(key);
    let s = strip_white_space(cs.as_slice());
    let n = unit_len(s.as_slice());
    proof {
        lemma_unit_len_bounds(s@, 1);
    }
    let head = slice_of(s.as_slice(), 0, n);
    assert(head@ =~= s@.take(n as int));
    from_chars(head.as_slice())
}

// ── Why a key pasted several times comes back once ───────────────────────────

/// `unit_len_from` lies between `d` and the length, and is a unit length
/// (or the whole length).
proof fn lemma_unit_len_bounds(s: Seq<char>, d: nat)
    requires
        d >= 1,
    ensures
        unit_len_from(s, d) <= s.len(),
        d <= s.len() ==> d <= unit_len_from(s, d),
        unit_len_from(s, d) == s.len() || is_unit_len(s, unit_len_from(s, d) as int),
    decreases s.len() - d,
{
    if d < s.len() && !is_unit_len(s, d as int) {
        lemma_unit_len_bounds(s, d + 1);
    }
}

/// No unit length from `d` on is shorter than `unit_len_from(s, d)`.
proof fn lemma_unit_len_least(s: Seq<char>, d: nat, e: int)
    requires
        d >= 1,
        d <= e,
        is_unit_len(s, e),
    ensures
        unit_len_from(s, d) <= e,
    decreases s.len() - d,
{
    if d < s.len() && !is_unit_len(s, d as int) {
        if d as int == e {
        } else {
            lemma_unit_len_least(s, d + 1, e);
        }
    }
}

/// Every string of length at least 1 has itself as a unit.
proof fn lemma_whole_is_unit(s: Seq<char>)
    requires
        s.len() >= 1,
    ensures
        is_unit_len(s, s.len() as int),
{
}

/// A period `d` means each character equals the one at its position modulo `d`.
proof fn lemma_period_mod(s: Seq<char>, d: int, i: int)
    requires
        1 <= d,
        has_period(s, d),
        0 <= i < s.len(),
    ensures
        s[i] == s[i % d],
    decreases i,
{
    if i >= d {
        lemma_period_mod(s, d, i - d);
        assert((i - d) % d == i % d) by {
            vstd::arithmetic::div_mod::lemma_mod_sub_multiples_vanish(i, d);
        }
    } else {
        assert(i % d == i) by {
            vstd::arithmetic::div_mod::lemma_small_mod(i as nat, d as nat);
        }
    }
}

/// Characters of a repetition come from the repeated piece by position modulo its length.
proof fn lemma_repeat_index(p: Seq<char>, m: nat, i: int)
    requires
        p.len() >= 1,
        0 <= i < m * p.len(),
    ensures
        repeat(p, m).len() == m * p.len(),
        repeat(p, m)[i] == p[i % (p.len() as int)],
    decreases m,
{
    lemma_repeat_len(p, m);
    let n = p.len() as int;
    if m > 0 {
        let q = repeat(p, (m - 1) as nat);
        lemma_repeat_len(p, (m - 1) as nat);
        assert((m - 1) * n == m * n - n) by (nonlinear_arith);
        if i < (m - 1) * n {
            lemma_repeat_index(p, (m - 1) as nat, i);
        } else {
            let j = i - (m - 1) * n;
            assert(0 <= j < n);
            assert(i % n == j) by {
                vstd::arithmetic::div_mod::lemma_mod_multiples_vanish((m - 1) as int, j, n);
                vstd::arithmetic::div_mod::lemma_small_mod(j as nat, n as nat);
                assert(i == (m - 1) * n + j);
                assert((m - 1) * n + j == n * (m - 1) + j) by (nonlinear_arith);
            }
        }
    }
}

/// The length of a repetition.
proof fn lemma_repeat_len(p: Seq<char>, m: nat)
    ensures
        repeat(p, m).len() == m * p.len(),
    decreases m,
{
    if m > 0 {
        lemma_repeat_len(p, (m - 1) as nat);
        assert(repeat(p, m) == repeat(p, (m - 1) as nat) + p);
        assert(m * p.len() == (m - 1) * p.len() + p.len()) by (nonlinear_arith);
    } else {
        assert(m * p.len() == 0) by (nonlinear_arith)
            requires
                m == 0,
        ;
    }
}

/// White-space removal works piece by piece.
proof fn lemma_without_white_space_add(a: Seq<char>, b: Seq<char>)
    ensures
        without_white_space(a + b) == without_white_space(a) + without_white_space(b),
    decreases b.len(),
{
    if b.len() == 0 {
        assert(a + b =~= a);
        assert(without_white_space(a) + without_white_space(b) =~= without_white_space(a));
    } else {
        assert((a + b).drop_last() =~= a + b.drop_last());
        assert((a + b).last() == b.last());
        lemma_without_white_space_add(a, b.drop_last());
        if is_white_space(b.last()) {
        } else {
            assert(without_white_space(a) + without_white_space(b.drop_last()).push(b.last())
                =~= (without_white_space(a) + without_white_space(b.drop_last())).push(b.last()));
        }
    }
}

/// White-space removal of a repetition repeats the removal.
proof fn lemma_without_white_space_repeat(p: Seq<char>, m: nat)
    ensures
        without_white_space(repeat(p, m)) == repeat(without_white_space(p), m),
    decreases m,
{
    if m > 0 {
        lemma_without_white_space_add(repeat(p, (m - 1) as nat), p);
        lemma_without_white_space_repeat(p, (m - 1) as nat);
    }
}

/// With periods `p < q` and length at least `p + q`, `q - p` is a period too.
proof fn lemma_period_difference(s: Seq<char>, p: int, q: int)
    requires
        1 <= p < q,
        has_period(s, p),
        has_period(s, q),
        s.len() >= p + q,
    ensures
        has_period(s, q - p),
{
    assert forall|i: int| q - p <= i < s.len() implies #[trigger] s[i] == s[i - (q - p)] by {
        if i + p < s.len() {
            assert(s[i + p] == s[i]);
            assert(s[i + p] == s[i + p - q]);
        } else {
            assert(s[i] == s[i - q]);
            assert(s[i - q + p] == s[i - q]);
        }
    }
}

/// The greatest common divisor, by subtraction.
pub open spec fn gcd(p: nat, q: nat) -> nat
    decreases p + q,
{
    if p == 0 {
        q
    } else if q == 0 {
        p
    } else if p < q {
        gcd(p, (q - p) as nat)
    } else if q < p {
        gcd((p - q) as nat, q)
    } else {
        p
    }
}

/// `gcd` divides both arguments and is at least 1 for positive arguments.
proof fn lemma_gcd_divides(p: nat, q: nat)
    requires
        p >= 1,
        q >= 1,
    ensures
        1 <= gcd(p, q) <= p,
        p % gcd(p, q) == 0,
        q % gcd(p, q) == 0,
    decreases p + q,
{
    let g = gcd(p, q);
    if p < q {
        lemma_gcd_divides(p, (q - p) as nat);
        assert(q % g == 0) by {
            vstd::arithmetic::div_mod::lemma_mod_adds(p as int, (q - p) as int, g as int);
        }
    } else if q < p {
        lemma_gcd_divides((p - q) as nat, q);
        assert(p % g == 0) by {
            vstd::arithmetic::div_mod::lemma_mod_adds((p - q) as int, q as int, g as int);
        }
    } else {
        assert(p % p == 0) by {
            vstd::arithmetic::div_mod::lemma_mod_self_0(p as int);
        }
    }
}

/// Periods `p` and `q` with length at least `p + q` give the period `gcd(p, q)`.
proof fn lemma_period_gcd(s: Seq<char>, p: nat, q: nat)
    requires
        p >= 1,
        q >= 1,
        has_period(s, p as int),
        has_period(s, q as int),
        s.len() >= p + q,
    ensures
        has_period(s, gcd(p, q) as int),
    decreases p + q,
{
    if p < q {
        lemma_period_difference(s, p as int, q as int);
        lemma_period_gcd(s, p, (q - p) as nat);
    } else if q < p {
        lemma_period_difference(s, q as int, p as int);
        lemma_period_gcd(s, (p - q) as nat, q);
    }
}

/// A period `d` of `s` is one of any prefix.
proof fn lemma_period_prefix(s: Seq<char>, d: int, n: int)
    requires
        1 <= d,
        has_period(s, d),
        0 <= n <= s.len(),
    ensures
        has_period(s.take(n), d),
{
    assert forall|i: int| d <= i < n implies #[trigger] s.take(n)[i] == s.take(n)[i - d] by {
        assert(s[i] == s[i - d]);
    }
}

/// The unit of `s` has no shorter unit of its own: such a unit would be a
/// shorter unit of `s`.
proof fn lemma_unit_is_primitive(s: Seq<char>, e: int)
    requires
        s.len() >= 1,
        1 <= e < unit_len_from(s, 1),
    ensures
        !is_unit_len(unit(s), e),
{
    if !is_unit_len(unit(s), e) {
        return;
    }
    lemma_unit_len_bounds(s, 1);
    let d = unit_len_from(s, 1) as int;
    let u = unit(s);
    assert(is_unit_len(s, d)) by {
        if d == s.len() {
            lemma_whole_is_unit(s);
        }
    }
    // `s` has period `e`: both sides reduce to `u` modulo `e`.
    assert forall|i: int| e <= i < s.len() implies #[trigger] s[i] == s[i - e] by {
        lemma_period_mod(s, d, i);
        lemma_period_mod(s, d, i - e);
        assert(0 <= i % d < d) by {
            vstd::arithmetic::div_mod::lemma_mod_bound(i, d);
        }
        assert(0 <= (i - e) % d < d) by {
            vstd::arithmetic::div_mod::lemma_mod_bound(i - e, d);
        }
        assert(s[i % d] == u[i % d]);
        assert(s[(i - e) % d] == u[(i - e) % d]);
        lemma_period_mod(u, e, i % d);
        lemma_period_mod(u, e, (i - e) % d);
        assert((i % d) % e == ((i - e) % d) % e) by {
            lemma_mod_mod_divisor(i, d, e);
            lemma_mod_mod_divisor(i - e, d, e);
            assert((i - e) % e == i % e) by {
                vstd::arithmetic::div_mod::lemma_mod_sub_multiples_vanish(i, e);
            }
        }
    }
    assert((s.len() as int) % e == 0) by {
        lemma_divides_transitive(s.len() as int, d, e);
    }
    lemma_unit_len_least(s, 1, e);
}

/// Reducing modulo `d` and then modulo a divisor `e` of `d` is reducing modulo `e`.
proof fn lemma_mod_mod_divisor(i: int, d: int, e: int)
    requires
        0 <= i,
        1 <= e <= d,
        d % e == 0,
    ensures
        (i % d) % e == i % e,
{
    let k = d / e;
    assert(d == e * k) by {
        vstd::arithmetic::div_mod::lemma_fundamental_div_mod(d, e);
    }
    assert(k >= 1) by (nonlinear_arith)
        requires
            d == e * k,
            1 <= e <= d,
    ;
    vstd::arithmetic::div_mod::lemma_mod_mod(i, e, k);
}

/// Divisibility is transitive.
proof fn lemma_divides_transitive(a: int, b: int, c: int)
    requires
        0 <= a,
        1 <= c <= b,
        a % b == 0,
        b % c == 0,
    ensures
        a % c == 0,
{
    let x = a / b;
    let y = b / c;
    assert(a == b * x) by {
        vstd::arithmetic::div_mod::lemma_fundamental_div_mod(a, b);
    }
    assert(b == c * y) by {
        vstd::arithmetic::div_mod::lemma_fundamental_div_mod(b, c);
    }
    assert(a == c * (y * x)) by (nonlinear_arith)
        requires
            a == b * x,
            b == c * y,
    ;
    vstd::arithmetic::div_mod::lemma_mod_multiples_basic(y * x, c);
    assert(c * (y * x) == (y * x) * c) by (nonlinear_arith);
}

/// A key pasted `m` times over is cleaned to the same key as a single paste.
pub proof fn law_repeated_paste_kept_once(k: Seq<char>, m: nat)
    requires
        m >= 1,
    ensures
        clean_key(repeat(k, m)) == clean_key(k),
{
    lemma_without_white_space_repeat(k, m);
    let p = without_white_space(k);
    let s = repeat(p, m);
    if p.len() == 0 {
        lemma_repeat_len(p, m);
        assert(m * p.len() == 0) by (nonlinear_arith)
            requires
                p.len() == 0,
        ;
        assert(s =~= p);
        return;
    }
    let n = p.len() as int;
    lemma_repeat_len(p, m);
    assert(s.len() == m * n);
    assert(s.len() >= n) by (nonlinear_arith)
        requires
            s.len() == m * n,
            m >= 1,
            n >= 1,
    ;
    lemma_unit_len_bounds(p, 1);
    let d = unit_len_from(p, 1) as int;
    assert(1 <= d <= n);
    assert(is_unit_len(p, d)) by {
        if d == n {
            lemma_whole_is_unit(p);
        }
    }
    // `s` is whole copies of the unit of `p`.
    assert(has_period(s, d)) by {
        assert forall|i: int| d <= i < s.len() implies #[trigger] s[i] == s[i - d] by {
            lemma_repeat_index(p, m, i);
            lemma_repeat_index(p, m, i - d);
            lemma_mod_bounds(i, n);
            lemma_mod_bounds(i - d, n);
            lemma_period_mod(p, d, i % n);
            lemma_period_mod(p, d, (i - d) % n);
            lemma_mod_mod_divisor(i, n, d);
            lemma_mod_mod_divisor(i - d, n, d);
            assert((i - d) % d == i % d) by {
                vstd::arithmetic::div_mod::lemma_mod_sub_multiples_vanish(i, d);
            }
        }
    }
    assert((s.len() as int) % d == 0) by {
        assert((s.len() as int) % n == 0) by {
            vstd::arithmetic::div_mod::lemma_mod_multiples_basic(m as int, n);
            assert(m * n == (m as int) * n);
        }
        lemma_divides_transitive(s.len() as int, n, d);
    }
    lemma_unit_len_bounds(s, 1);
    lemma_unit_len_least(s, 1, d);
    let ds = unit_len_from(s, 1) as int;
    assert(1 <= ds <= d);
    if ds < d {
        // Then `s` has periods `ds` and `d`; their gcd is a shorter unit of `p`'s unit.
        assert(is_unit_len(s, ds)) by {
            if ds == s.len() {
                lemma_whole_is_unit(s);
            }
        }
        assert(s.len() >= ds + d) by {
            if m == 1 {
                assert(s =~= p) by {
                    assert(repeat(p, 0) =~= Seq::<char>::empty());
                    assert(s =~= repeat(p, 0) + p);
                }
                // `s == p`, so `ds` is a unit length of `p` below its least one.
                lemma_unit_len_least(p, 1, ds);
                assert(false);
            } else {
                assert(s.len() >= 2 * n) by (nonlinear_arith)
                    requires
                        s.len() == m * n,
                        m >= 2,
                        n >= 1,
                ;
            }
        }
        lemma_period_gcd(s, ds as nat, d as nat);
        let g = gcd(ds as nat, d as nat) as int;
        lemma_gcd_divides(ds as nat, d as nat);
        assert(1 <= g <= ds < d);
        // `g` is a unit length of `unit(p)`.
        let u = unit(p);
        assert(u =~= p.take(d));
        assert(u =~= s.take(d)) by {
            assert forall|i: int| 0 <= i < d implies #[trigger] s[i] == p[i] by {
                lemma_repeat_index(p, m, i);
                vstd::arithmetic::div_mod::lemma_small_mod(i as nat, n as nat);
            }
        }
        lemma_period_prefix(s, g, d);
        assert(is_unit_len(u, g));
        lemma_unit_is_primitive(p, g);
        assert(false);
    }
    assert(unit(s) =~= unit(p)) by {
        assert forall|i: int| 0 <= i < d implies #[trigger] s[i] == p[i] by {
            lemma_repeat_index(p, m, i);
            vstd::arithmetic::div_mod::lemma_small_mod(i as nat, n as nat);
        }
    }
}

/// No white space is left after removing it.
proof fn lemma_without_white_space_clean(s: Seq<char>)
    ensures
        forall|i: int|
            0 <= i < without_white_space(s).len() ==> !is_white_space(
                #[trigger] without_white_space(s)[i],
            ),
    decreases s.len(),
{
    if s.len() > 0 {
        let w = without_white_space(s.drop_last());
        lemma_without_white_space_clean(s.drop_last());
        if !is_white_space(s.last()) {
            assert forall|i: int| 0 <= i < w.len() + 1 implies !is_white_space(
                #[trigger] w.push(s.last())[i],
            ) by {
                if i < w.len() {
                    assert(w.push(s.last())[i] == w[i]);
                }
            }
        }
    }
}

/// A cleaned key holds no white space.
pub proof fn law_clean_key_has_no_white_space(k: Seq<char>)
    ensures
        forall|i: int| 0 <= i < clean_key(k).len() ==> !is_white_space(#[trigger] clean_key(k)[i]),
{
    let s = without_white_space(k);
    lemma_without_white_space_clean(k);
    lemma_unit_len_bounds(s, 1);
    assert forall|i: int| 0 <= i < clean_key(k).len() implies !is_white_space(
        #[trigger] clean_key(k)[i],
    ) by {
        assert(clean_key(k)[i] == s[i]);
    }
}

/// `i % n` lies in `0..n`.
proof fn lemma_mod_bounds(i: int, n: int)
    requires
        0 <= i,
        n >= 1,
    ensures
        0 <= i % n < n,
{
    vstd::arithmetic::div_mod::lemma_mod_bound(i, n);
}

} // verus!
