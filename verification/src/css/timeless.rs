//! Where a text can stand in a style sheet that is put together from parts.
//!
//! A transition that moves names its time, as in `100ms`. Texts in which no zero
//! is followed by an `m` hold no such transition, however they are joined.

use vstd::prelude::*;
use vstd::string::*;

use crate::text;

verus! {

/// There is no `c` at `i` that `d` follows.
pub open spec fn apart(s: Seq<char>, c: char, d: char, i: int) -> bool {
    i + 1 < s.len() ==> !(s[i] == c && s[i + 1] == d)
}

pub open spec fn four_apart(s: Seq<char>, c: char, d: char, i: int) -> bool {
    &&& apart(s, c, d, i)
    &&& apart(s, c, d, i + 1)
    &&& apart(s, c, d, i + 2)
    &&& apart(s, c, d, i + 3)
}

/// None of the characters up to the `n`th multiple of sixteen is a `c` that `d`
/// follows. Sixteen are looked at in one step, so that a long text takes few
/// steps of unfolding.
pub open spec fn unpaired(s: Seq<char>, c: char, d: char, n: int) -> bool
    decreases n,
{
    if n <= 0 {
        true
    } else {
        &&& unpaired(s, c, d, n - 1)
        &&& four_apart(s, c, d, 16 * n - 16)
        &&& four_apart(s, c, d, 16 * n - 12)
        &&& four_apart(s, c, d, 16 * n - 8)
        &&& four_apart(s, c, d, 16 * n - 4)
    }
}

pub proof fn lemma_unpaired(s: Seq<char>, c: char, d: char, n: int, i: int)
    requires
        unpaired(s, c, d, n),
        0 <= i < 16 * n,
    ensures
        apart(s, c, d, i),
    decreases n,
{
    if i < 16 * n - 16 {
        lemma_unpaired(s, c, d, n - 1, i);
    }
}

/// No zero is followed by an `m`, neither in the text nor where another one is
/// put behind it.
#[verifier::opaque]
pub open spec fn timeless(s: Seq<char>) -> bool {
    &&& s.len() > 0 ==> s.last() != '0'
    &&& forall|i: int, j: int|
        0 <= i && j == i + 1 && j < s.len() ==> !(#[trigger] s[i] == '0' && #[trigger] s[j] == 'm')
}

pub proof fn lemma_timeless(s: Seq<char>, n: int)
    requires
        0 < s.len() <= 16 * n,
        s.last() != '0',
        unpaired(s, '0', 'm', n),
    ensures
        timeless(s),
{
    reveal(timeless);
    assert forall|i: int, j: int| 0 <= i && j == i + 1 && j < s.len() implies !(#[trigger] s[i]
        == '0' && #[trigger] s[j] == 'm') by {
        lemma_unpaired(s, '0', 'm', n, i);
    }
}

pub proof fn lemma_timeless_join(a: Seq<char>, b: Seq<char>)
    requires
        timeless(a),
        timeless(b),
    ensures
        timeless(a + b),
{
    reveal(timeless);
    let s = a + b;
    assert forall|i: int, j: int| 0 <= i && j == i + 1 && j < s.len() implies !(#[trigger] s[i]
        == '0' && #[trigger] s[j] == 'm') by {
        if j < a.len() {
            assert(s[i] == a[i] && s[j] == a[j]);
        } else if i >= a.len() {
            assert(s[i] == b[i - a.len()] && s[j] == b[j - a.len()]);
        } else {
            assert(s[i] == a.last());
        }
    }
    if b.len() > 0 {
        assert(s.last() == b.last());
    } else {
        assert(s =~= a);
    }
}

proof fn lemma_digits(n: nat, i: int)
    requires
        0 <= i < text::dec(n).len(),
    ensures
        text::dec(n)[i] != 'm',
    decreases n,
{
    if n >= 10 && i < text::dec(n).len() - 1 {
        lemma_digits(n / 10, i);
    }
}

/// A number may stand between two texts of which the second does not begin with
/// an `m`.
pub proof fn lemma_timeless_number(a: Seq<char>, n: nat, b: Seq<char>)
    requires
        timeless(a),
        timeless(b),
        b.len() > 0,
        b[0] != 'm',
    ensures
        timeless(a + text::dec(n) + b),
{
    reveal(timeless);
    let d = text::dec(n);
    let s = d + b;
    assert forall|i: int, j: int| 0 <= i && j == i + 1 && j < s.len() implies !(#[trigger] s[i]
        == '0' && #[trigger] s[j] == 'm') by {
        if j < d.len() {
            lemma_digits(n, j);
            assert(s[j] == d[j]);
        } else if i >= d.len() {
            assert(s[i] == b[i - d.len()] && s[j] == b[j - d.len()]);
        } else {
            assert(s[j] == b[0]);
        }
    }
    assert(s.last() == b.last());
    lemma_timeless_join(a, s);
    assert(a + s =~= a + d + b);
}

/// What names a time does not stand in a timeless text. `k` is the place in `p`
/// of a zero that an `m` follows.
pub proof fn lemma_timeless_holds_no_time(s: Seq<char>, p: Seq<char>, k: int)
    requires
        timeless(s),
        0 <= k < p.len() - 1,
        p[k] == '0',
        p[k + 1] == 'm',
    ensures
        !text::stands_in(s, p),
{
    reveal(timeless);
    assert forall|j: int| !text::occurs_at(s, p, j) by {
        if text::occurs_at(s, p, j) {
            let part = s.subrange(j, j + p.len());
            assert(part[k] == s[j + k]);
            assert(part[k + 1] == s[j + k + 1]);
        }
    }
}

/// The end of `s` is the beginning of `p`.
pub open spec fn runs_into(s: Seq<char>, p: Seq<char>) -> bool {
    exists|k: int|
        0 < k < p.len() && k <= s.len() && s.subrange(s.len() - k, s.len() as int)
            == #[trigger] p.subrange(0, k)
}

/// A text does not run into `p` where two neighbours near its end, `e` characters
/// from it, are no neighbours in `p`, and `p` does not begin with one of the last
/// `e` characters.
pub proof fn lemma_runs_not_into(s: Seq<char>, p: Seq<char>, e: int, m: int)
    requires
        1 <= e < s.len(),
        0 < p.len() <= 16 * m,
        unpaired(p, s[s.len() - e - 1], s[s.len() - e], m),
        forall|k: int| 1 <= k <= e ==> #[trigger] s[s.len() - k] != p[0],
    ensures
        !runs_into(s, p),
{
    let n = s.len();
    assert forall|k: int| 0 < k < p.len() && k <= n implies s.subrange(n - k, n as int)
        != #[trigger] p.subrange(0, k) by {
        let end = s.subrange(n - k, n as int);
        if end == p.subrange(0, k) {
            assert(end[0] == s[n - k]);
            assert(p.subrange(0, k)[0] == p[0]);
            if k > e {
                let i: int = k - e - 1;
                assert(end[i] == s[n - e - 1] && end[i + 1] == s[n - e]);
                assert(p.subrange(0, k)[i] == p[i] && p.subrange(0, k)[i + 1] == p[i + 1]);
                lemma_unpaired(p, s[n - e - 1], s[n - e], m, i);
            }
        }
    }
}

/// Where `p` stands in none of three parts, the first does not run into it and it
/// lacks the character that the third begins with, it does not stand in the whole.
pub proof fn lemma_between(f: Seq<char>, v: Seq<char>, g: Seq<char>, p: Seq<char>)
    requires
        p.len() > 0,
        !text::stands_in(f, p),
        !text::stands_in(v, p),
        !text::stands_in(g, p),
        !runs_into(f, p),
        g.len() > 0,
        text::free_of(p, g[0], p.len()),
    ensures
        !text::stands_in(f + v + g, p),
{
    let s = f + v + g;
    let n = p.len();
    assert forall|j: int| !text::occurs_at(s, p, j) by {
        if text::occurs_at(s, p, j) {
            let part = s.subrange(j, j + n);
            let at: int = (f.len() + v.len()) as int;
            if j + n <= f.len() {
                assert(f.subrange(j, j + n) =~= part);
                assert(text::occurs_at(f, p, j));
            } else if j >= at {
                assert(g.subrange(j - at, j - at + n) =~= part);
                assert(text::occurs_at(g, p, j - at));
            } else if j + n > at {
                assert(part[at - j] == g[0]);
                text::lemma_free_of(p, g[0], n, at - j);
            } else if j >= f.len() {
                assert(v.subrange(j - f.len(), j - f.len() + n) =~= part);
                assert(text::occurs_at(v, p, j - f.len()));
            } else {
                let k: int = f.len() - j;
                assert(f.subrange(f.len() - k, f.len() as int) =~= part.subrange(0, k));
                assert(f.subrange(f.len() - k, f.len() as int) == p.subrange(0, k));
            }
        }
    }
}

/// Where `p` stands neither before nor behind a place, what is before does not
/// run into it and it lacks the character that follows, it stands there once.
pub proof fn lemma_once(l: Seq<char>, p: Seq<char>, r: Seq<char>)
    requires
        p.len() > 0,
        !text::stands_in(l, p),
        !text::stands_in(r, p),
        !runs_into(l, p),
        r.len() > 0,
        text::free_of(p, r[0], p.len()),
    ensures
        text::stands_once(l + p + r, p, l.len() as int),
{
    let s = l + p + r;
    let n = p.len();
    text::lemma_part_stands_in(l, p, r);
    assert forall|j: int| #[trigger] text::occurs_at(s, p, j) implies j == l.len() by {
        let part = s.subrange(j, j + n);
        let at: int = (l.len() + n) as int;
        if j + n <= l.len() {
            assert(l.subrange(j, j + n) =~= part);
            assert(text::occurs_at(l, p, j));
        } else if j >= at {
            assert(r.subrange(j - at, j - at + n) =~= part);
            assert(text::occurs_at(r, p, j - at));
        } else if j > l.len() {
            assert(part[at - j] == r[0]);
            text::lemma_free_of(p, r[0], n, at - j);
        } else if j < l.len() {
            let k: int = l.len() - j;
            assert(l.subrange(l.len() - k, l.len() as int) =~= part.subrange(0, k));
            assert(l.subrange(l.len() - k, l.len() as int) == p.subrange(0, k));
        }
    }
}

} // verus!
