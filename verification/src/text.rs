//! Text primitives over the character view of `str` and `String`.
//!
//! Each operation comes as a pair: a spec function on `Seq<char>` that says
//! what the result is, and an executable function proved against it.

use vstd::prelude::*;
use vstd::string::*;

verus! {

// ---------------------------------------------------------------------------
// Characters
// ---------------------------------------------------------------------------

/// The characters with the Unicode `White_Space` property.
pub open spec fn is_space(c: char) -> bool {
    ||| '\u{9}' <= c <= '\u{d}'
    ||| c == ' '
    ||| c == '\u{85}'
    ||| c == '\u{a0}'
    ||| c == '\u{1680}'
    ||| '\u{2000}' <= c <= '\u{200a}'
    ||| c == '\u{2028}'
    ||| c == '\u{2029}'
    ||| c == '\u{202f}'
    ||| c == '\u{205f}'
    ||| c == '\u{3000}'
}

/// Whether `c` has the Unicode `White_Space` property.
pub fn is_whitespace(c: char) -> (b: bool)
    ensures
        b == is_space(c),
{
    ('\u{9}' <= c && c <= '\u{d}') || c == ' ' || c == '\u{85}' || c == '\u{a0}' || c == '\u{1680}'
        || ('\u{2000}' <= c && c <= '\u{200a}') || c == '\u{2028}' || c == '\u{2029}' || c
        == '\u{202f}' || c == '\u{205f}' || c == '\u{3000}'
}

/// An ASCII capital mapped to its small letter; every other character as it is.
pub open spec fn ascii_lower(c: char) -> char {
    if 'A' <= c <= 'Z' {
        ((c as u32) + 32) as char
    } else {
        c
    }
}

pub open spec fn ascii_upper(c: char) -> char {
    if 'a' <= c <= 'z' {
        ((c as u32) - 32) as char
    } else {
        c
    }
}

pub open spec fn is_ascii_letter(c: char) -> bool {
    ('a' <= c <= 'z') || ('A' <= c <= 'Z')
}

/// The code of `c`, with ASCII capitals taken for small letters.
pub open spec fn folded(c: char) -> int {
    if 'A' <= c <= 'Z' {
        c as int + 32
    } else {
        c as int
    }
}

/// Whether two texts are equal up to the case of ASCII letters.
pub open spec fn same_ignoring_case(a: Seq<char>, b: Seq<char>) -> bool {
    a.len() == b.len() && forall|i: int|
        0 <= i < a.len() ==> folded(#[trigger] a[i]) == folded(b[i])
}

fn fold_code(c: char) -> (r: u32)
    ensures
        r == folded(c),
{
    if 'A' <= c && c <= 'Z' {
        c as u32 + 32
    } else {
        c as u32
    }
}

/// Whether two texts are equal up to the case of ASCII letters.
pub fn eq_ignore_ascii_case(a: &str, b: &str) -> (r: bool)
    ensures
        r == same_ignoring_case(a@, b@),
{
    let x = chars_of(a);
    let y = chars_of(b);
    if x.len() != y.len() {
        return false;
    }
    let mut i: usize = 0;
    while i < x.len()
        invariant
            x@ == a@,
            y@ == b@,
            x.len() == y.len(),
            i <= x.len(),
            forall|j: int| 0 <= j < i ==> folded(#[trigger] a@[j]) == folded(b@[j]),
        decreases x.len() - i,
    {
        if fold_code(x[i]) != fold_code(y[i]) {
            assert(folded(a@[i as int]) != folded(b@[i as int]));
            return false;
        }
        i += 1;
    }
    true
}

/// The characters of `s`, in order.
pub fn chars_of(s: &str) -> (v: Vec<char>)
    ensures
        v@ == s@,
{
    let mut v: Vec<char> = Vec::new();
    for c in it: s.chars()
        invariant
            v@ == it.seq().take(it.index()),
            it.seq() == s@,
    {
        v.push(c);
    }
    v
}


/// Whether two texts hold the same characters.
pub fn str_eq(a: &str, b: &str) -> (r: bool)
    ensures
        r == (a@ == b@),
{
    let x = chars_of(a);
    let y = chars_of(b);
    if x.len() != y.len() {
        return false;
    }
    let mut i: usize = 0;
    while i < x.len()
        invariant
            x@ == a@,
            y@ == b@,
            x.len() == y.len(),
            i <= x.len(),
            forall|j: int| 0 <= j < i ==> x[j] == y[j],
        decreases x.len() - i,
    {
        if x[i] != y[i] {
            assert(a@[i as int] != b@[i as int]);
            return false;
        }
        i += 1;
    }
    assert(a@ =~= b@);
    true
}

// ---------------------------------------------------------------------------
// Searching
// ---------------------------------------------------------------------------

/// The position of the first `c` in `s`, or `s.len()` where there is none.
pub open spec fn index_of(s: Seq<char>, c: char) -> int
    decreases s.len(),
{
    if s.len() == 0 || s[0] == c {
        0
    } else {
        1 + index_of(s.drop_first(), c)
    }
}

/// `index_of` is the least position that holds `c`.
pub proof fn lemma_index_of(s: Seq<char>, c: char)
    ensures
        0 <= index_of(s, c) <= s.len(),
        index_of(s, c) < s.len() ==> s[index_of(s, c)] == c,
        forall|j: int| 0 <= j < index_of(s, c) ==> s[j] != c,
        index_of(s, c) < s.len() <==> s.contains(c),
    decreases s.len(),
{
    if s.len() > 0 && s[0] != c {
        let t = s.drop_first();
        lemma_index_of(t, c);
        assert forall|j: int| 0 <= j < index_of(s, c) implies s[j] != c by {
            if j > 0 {
                assert(s[j] == t[j - 1]);
            }
        }
        if index_of(s, c) < s.len() {
            assert(s[index_of(s, c)] == t[index_of(t, c)]);
        }
        if s.contains(c) {
            let k = choose|k: int| 0 <= k < s.len() && s[k] == c;
            assert(t[k - 1] == c);
        }
    }
}

/// A position that holds `c` with no `c` before it is `index_of`.
pub proof fn lemma_index_of_unique(s: Seq<char>, c: char, k: int)
    requires
        0 <= k <= s.len(),
        k < s.len() ==> s[k] == c,
        forall|j: int| 0 <= j < k ==> s[j] != c,
    ensures
        index_of(s, c) == k,
{
    lemma_index_of(s, c);
    let i = index_of(s, c);
    if i < k {
        assert(s[i] == c);
    }
    if k < i {
        assert(s[k] != c);
    }
}

/// Whether `p` stands in `s` at position `i`.
pub open spec fn occurs_at(s: Seq<char>, p: Seq<char>, i: int) -> bool {
    &&& 0 <= i
    &&& i + p.len() <= s.len()
    &&& s.subrange(i, i + p.len()) == p
}

/// The first position from `i` on at which `p` stands in `s`.
pub open spec fn find_from(s: Seq<char>, p: Seq<char>, i: int) -> Option<int>
    decreases s.len() + 1 - i,
{
    if i + p.len() > s.len() {
        None
    } else if occurs_at(s, p, i) {
        Some(i)
    } else {
        find_from(s, p, i + 1)
    }
}

/// The first position at which `p` stands in `s`.
pub open spec fn find_spec(s: Seq<char>, p: Seq<char>) -> Option<int> {
    find_from(s, p, 0)
}

pub proof fn lemma_find_from(s: Seq<char>, p: Seq<char>, i: int)
    requires
        0 <= i,
    ensures
        match find_from(s, p, i) {
            Some(k) => i <= k && occurs_at(s, p, k) && forall|j: int|
                i <= j < k ==> !occurs_at(s, p, j),
            None => forall|j: int| i <= j ==> !occurs_at(s, p, j),
        },
    decreases s.len() + 1 - i,
{
    if i + p.len() <= s.len() && !occurs_at(s, p, i) {
        lemma_find_from(s, p, i + 1);
    }
}

/// Whether `p` stands in `v` at position `i`.
fn matches_at(v: &Vec<char>, p: &Vec<char>, i: usize) -> (b: bool)
    ensures
        b == occurs_at(v@, p@, i as int),
{
    if p.len() > v.len() || i > v.len() - p.len() {
        return false;
    }
    let mut j: usize = 0;
    while j < p.len()
        invariant
            j <= p.len(),
            i + p.len() <= v.len(),
            forall|m: int| 0 <= m < j ==> v[i + m] == p[m],
        decreases p.len() - j,
    {
        if v[i + j] != p[j] {
            assert(v@.subrange(i as int, i + p.len())[j as int] != p@[j as int]);
            return false;
        }
        j += 1;
    }
    assert(v@.subrange(i as int, i + p.len()) =~= p@);
    true
}

/// The first position at which `p` stands in `s`, counted in characters.
pub fn find_str(s: &str, p: &str) -> (r: Option<usize>)
    ensures
        match r {
            Some(k) => find_spec(s@, p@) == Some(k as int) && occurs_at(s@, p@, k as int),
            None => find_spec(s@, p@) is None,
        },
{
    let v = chars_of(s);
    let q = chars_of(p);
    if q.len() > v.len() {
        return None;
    }
    let last = v.len() - q.len();
    let mut i: usize = 0;
    while i < last
        invariant
            v@ == s@,
            q@ == p@,
            last == v.len() - q.len(),
            i <= last,
            find_from(s@, p@, i as int) == find_spec(s@, p@),
        decreases last - i,
    {
        if matches_at(&v, &q, i) {
            return Some(i);
        }
        i += 1;
    }
    assert(find_from(s@, p@, last + 1) is None);
    if matches_at(&v, &q, i) {
        Some(i)
    } else {
        None
    }
}

/// Whether `s` contains `p`.
pub fn contains_str(s: &str, p: &str) -> (b: bool)
    ensures
        b == find_spec(s@, p@).is_some(),
{
    find_str(s, p).is_some()
}

/// What stands before and after the first `p` of `s`.
pub open spec fn split_once_str_spec(s: Seq<char>, p: Seq<char>) -> Option<(Seq<char>, Seq<char>)> {
    match find_spec(s, p) {
        Some(k) => Some((s.take(k), s.skip(k + p.len()))),
        None => None,
    }
}

pub fn split_once_str<'a>(s: &'a str, p: &str) -> (r: Option<(&'a str, &'a str)>)
    ensures
        pair_view(r) == split_once_str_spec(s@, p@),
{
    match find_str(s, p) {
        Some(k) => {
            let n = chars_of(s).len();
            let m = chars_of(p).len();
            let a = s.substring_char(0, k);
            let b = s.substring_char(k + m, n);
            assert(a@ =~= s@.take(k as int));
            assert(b@ =~= s@.skip(k + m));
            Some((a, b))
        },
        None => None,
    }
}

/// `s` with `with` in place of each `p`, from left to right. An empty `p` stands
/// nowhere.
pub open spec fn replaced(s: Seq<char>, p: Seq<char>, with: Seq<char>) -> Seq<char>
    decreases s.len(),
{
    if p.len() == 0 {
        s
    } else {
        match split_once_str_spec(s, p) {
            Some((a, b)) => {
                proof {
                    lemma_find_from(s, p, 0);
                }
                a + with + replaced(b, p, with)
            },
            None => s,
        }
    }
}

/// `p` stands in `s` at position `k` and nowhere else.
pub open spec fn stands_once(s: Seq<char>, p: Seq<char>, k: int) -> bool {
    &&& occurs_at(s, p, k)
    &&& forall|j: int| #[trigger] occurs_at(s, p, j) ==> j == k
}

/// Whether `p` stands in `s` anywhere.
pub open spec fn stands_in(s: Seq<char>, p: Seq<char>) -> bool {
    exists|k: int| #[trigger] occurs_at(s, p, k)
}

/// A part stands in the whole.
pub proof fn lemma_part_stands_in(a: Seq<char>, p: Seq<char>, b: Seq<char>)
    ensures
        occurs_at(a + p + b, p, a.len() as int),
        stands_in(a + p + b, p),
{
    let s = a + p + b;
    assert(s.subrange(a.len() as int, (a.len() + p.len()) as int) =~= p);
    assert(occurs_at(s, p, a.len() as int));
}

/// Where `p` stands in a text once, what is put in its place changes that place
/// alone.
pub proof fn lemma_replaced_once(a: Seq<char>, p: Seq<char>, b: Seq<char>, with: Seq<char>)
    requires
        p.len() > 0,
        stands_once(a + p + b, p, a.len() as int),
    ensures
        replaced(a + p + b, p, with) == a + with + b,
{
    let s = a + p + b;
    lemma_find_from(s, p, 0);
    assert(s.take(a.len() as int) =~= a);
    assert(s.skip((a.len() + p.len()) as int) =~= b);
    lemma_find_from(b, p, 0);
    if let Some(k) = find_spec(b, p) {
        let at: int = a.len() + p.len() + k;
        assert(s.subrange(at, at + p.len()) =~= b.subrange(k, k + p.len()));
        assert(occurs_at(s, p, at));
    }
    assert(replaced(b, p, with) == b);
}

/// None of the first `n` characters of `s` is `c`.
pub open spec fn free_of(s: Seq<char>, c: char, n: nat) -> bool
    decreases n,
{
    n == 0 || (s[n - 1] != c && free_of(s, c, (n - 1) as nat))
}

pub proof fn lemma_free_of(s: Seq<char>, c: char, n: nat, k: int)
    requires
        free_of(s, c, n),
        0 <= k < n,
    ensures
        s[k] != c,
    decreases n,
{
    if k < n - 1 {
        lemma_free_of(s, c, (n - 1) as nat, k);
    }
}

/// What stands in the text before the place of `p` or after it stands in the
/// whole text too.
proof fn lemma_stands_beside(a: Seq<char>, p: Seq<char>, b: Seq<char>, with: Seq<char>, j: int)
    requires
        occurs_at(a + with + b, p, j),
        j + p.len() <= a.len() || j >= a.len() + with.len(),
    ensures
        j + p.len() <= a.len() ==> occurs_at(a + p + b, p, j),
        j >= a.len() + with.len() ==> occurs_at(a + p + b, p, j - with.len() + p.len()),
{
    let s = a + p + b;
    let t = a + with + b;
    assert(t.subrange(j, j + p.len()) == p);
    if j + p.len() <= a.len() {
        assert(s.subrange(j, j + p.len()) =~= t.subrange(j, j + p.len()));
    }
    if j >= a.len() + with.len() {
        let at: int = j - with.len() + p.len();
        assert(s.subrange(at, at + p.len()) =~= t.subrange(j, j + p.len()));
    }
}

/// A text that ends with its only `c` stands across no other such text that
/// differs from it near the end.
proof fn lemma_stands_not_across(
    a: Seq<char>,
    p: Seq<char>,
    b: Seq<char>,
    with: Seq<char>,
    c: char,
    m: int,
    j: int,
)
    requires
        0 < m < with.len() < p.len(),
        p.last() == c,
        with.last() == c,
        free_of(p, c, (p.len() - 1) as nat),
        free_of(with, c, (with.len() - 1) as nat),
        p[p.len() - 1 - m] != with[with.len() - 1 - m],
        a.len() < j + p.len(),
        j < a.len() + with.len(),
    ensures
        !occurs_at(a + with + b, p, j),
{
    let t = a + with + b;
    if occurs_at(t, p, j) {
        let e: int = a.len() + with.len() - 1;
        let part = t.subrange(j, j + p.len());
        assert(t[e] == with[with.len() - 1]);
        if j + p.len() <= e {
            let i: int = j + p.len() - 1 - a.len();
            lemma_free_of(with, c, (with.len() - 1) as nat, i);
            assert(t[a.len() + i] == with[i]);
            assert(part[p.len() - 1] == t[a.len() + i]);
        } else {
            assert(part[e - j] == t[e]);
            if e - j < p.len() - 1 {
                lemma_free_of(p, c, (p.len() - 1) as nat, e - j);
            }
            assert(t[e - m] == with[with.len() - 1 - m]);
            assert(part[p.len() - 1 - m] == t[e - m]);
        }
    }
}

/// Where `p` stands in a text once, a shorter `with` in its place leaves no `p`,
/// provided that both end with `c`, hold it nowhere else and differ in the
/// `m`th character before it.
pub proof fn lemma_replaced_is_gone(
    a: Seq<char>,
    p: Seq<char>,
    b: Seq<char>,
    with: Seq<char>,
    c: char,
    m: int,
)
    requires
        0 < m < with.len() < p.len(),
        p.last() == c,
        with.last() == c,
        free_of(p, c, (p.len() - 1) as nat),
        free_of(with, c, (with.len() - 1) as nat),
        p[p.len() - 1 - m] != with[with.len() - 1 - m],
        stands_once(a + p + b, p, a.len() as int),
    ensures
        !stands_in(a + with + b, p),
{
    assert forall|j: int| !occurs_at(a + with + b, p, j) by {
        if occurs_at(a + with + b, p, j) {
            if j + p.len() <= a.len() || j >= a.len() + with.len() {
                lemma_stands_beside(a, p, b, with, j);
            } else {
                lemma_stands_not_across(a, p, b, with, c, m, j);
            }
        }
    }
}

/// `s` with `with` in place of each `p`.
pub fn replace_str(s: &str, p: &str, with: &str) -> (r: String)
    requires
        p@.len() > 0,
    ensures
        r@ == replaced(s@, p@, with@),
{
    let mut out = String::new();
    let mut rest: &str = s;
    assert(out@ + replaced(rest@, p@, with@) =~= replaced(s@, p@, with@));
    loop
        invariant
            p@.len() > 0,
            out@ + replaced(rest@, p@, with@) == replaced(s@, p@, with@),
        decreases rest@.len(),
    {
        match split_once_str(rest, p) {
            Some((a, b)) => {
                let ghost before = out@;
                proof {
                    lemma_find_from(rest@, p@, 0);
                }
                out.append(a);
                out.append(with);
                assert(before + (a@ + with@ + replaced(b@, p@, with@)) =~= out@ + replaced(
                    b@,
                    p@,
                    with@,
                ));
                rest = b;
            },
            None => {
                out.append(rest);
                return out;
            },
        }
    }
}

pub open spec fn all_ascii(s: Seq<char>) -> bool {
    forall|i: int| 0 <= i < s.len() ==> (#[trigger] s[i] as u32) < 128
}

/// `s` in small letters, as Unicode has them.
pub uninterp spec fn lowercase_text(s: Seq<char>) -> Seq<char>;

/// `s` in capitals, as Unicode has them.
pub uninterp spec fn uppercase_text(s: Seq<char>) -> Seq<char>;

/// `str::to_lowercase`. Within ASCII, capitals become small letters and nothing
/// else changes.
#[verifier::external_body]
pub(crate) fn lowercase(s: &str) -> (r: String)
    ensures
        r@ == lowercase_text(s@),
        all_ascii(s@) ==> r@ == s@.map_values(|c: char| ascii_lower(c)),
{
    s.to_lowercase()
}

/// `str::to_uppercase`. Within ASCII, small letters become capitals and nothing
/// else changes.
#[verifier::external_body]
pub(crate) fn uppercase(s: &str) -> (r: String)
    ensures
        r@ == uppercase_text(s@),
        all_ascii(s@) ==> r@ == s@.map_values(|c: char| ascii_upper(c)),
{
    s.to_uppercase()
}

/// Whether `s` holds ASCII letters only.
pub open spec fn all_letters(s: Seq<char>) -> bool {
    forall|i: int| 0 <= i < s.len() ==> is_ascii_letter(#[trigger] s[i])
}

/// Whether `s` holds ASCII letters only.
pub fn is_alphabetic(s: &str) -> (r: bool)
    ensures
        r == all_letters(s@),
{
    let v = chars_of(s);
    let mut i: usize = 0;
    while i < v.len()
        invariant
            i <= v.len(),
            v@ == s@,
            forall|j: int| 0 <= j < i ==> is_ascii_letter(#[trigger] v@[j]),
        decreases v.len() - i,
    {
        let c = v[i];
        if !(('a' <= c && c <= 'z') || ('A' <= c && c <= 'Z')) {
            assert(!is_ascii_letter(s@[i as int]));
            return false;
        }
        i += 1;
    }
    true
}

/// The view of an optional text.
pub open spec fn opt_view(o: Option<&str>) -> Option<Seq<char>> {
    match o {
        Some(s) => Some(s@),
        None => None,
    }
}

pub open spec fn opt_string_view(o: Option<String>) -> Option<Seq<char>> {
    match o {
        Some(s) => Some(s@),
        None => None,
    }
}

pub fn clone_opt(o: &Option<String>) -> (r: Option<String>)
    ensures
        opt_string_view(r) == opt_string_view(*o),
{
    match o {
        Some(s) => Some(s.clone()),
        None => None,
    }
}

pub fn same_opt(a: &Option<String>, b: &Option<String>) -> (r: bool)
    ensures
        r == (opt_string_view(*a) == opt_string_view(*b)),
{
    match (a, b) {
        (Some(x), Some(y)) => str_eq(x.as_str(), y.as_str()),
        (None, None) => true,
        _ => false,
    }
}

/// Whether there is a text and it is `b`.
pub fn is_some_of(a: &Option<String>, b: &str) -> (r: bool)
    ensures
        r == (opt_string_view(*a) == Some(b@)),
{
    match a {
        Some(x) => str_eq(x.as_str(), b),
        None => false,
    }
}

pub open spec fn has_prefix(s: Seq<char>, p: Seq<char>) -> bool {
    p.len() <= s.len() && s.take(p.len() as int) == p
}

pub fn starts_with(s: &str, p: &str) -> (b: bool)
    ensures
        b == has_prefix(s@, p@),
{
    let v = chars_of(s);
    let q = chars_of(p);
    proof {
        if p@.len() <= s@.len() {
            assert(s@.subrange(0, p@.len() as int) =~= s@.take(p@.len() as int));
        }
    }
    matches_at(&v, &q, 0)
}

/// What follows the prefix `p` of `s`, or `None` where `s` has no such prefix.
pub fn strip_prefix<'a>(s: &'a str, p: &str) -> (r: Option<&'a str>)
    ensures
        r.is_some() == has_prefix(s@, p@),
        r matches Some(rest) ==> rest@ == s@.skip(p@.len() as int),
{
    if starts_with(s, p) {
        let n = chars_of(p).len();
        let m = chars_of(s).len();
        let rest = s.substring_char(n, m);
        assert(rest@ =~= s@.skip(p@.len() as int));
        Some(rest)
    } else {
        None
    }
}

/// The position of the first `c` in `s`, in characters.
pub fn find_char(s: &str, c: char) -> (r: Option<usize>)
    ensures
        match r {
            Some(k) => k < s@.len() && k == index_of(s@, c),
            None => index_of(s@, c) == s@.len() && !s@.contains(c),
        },
{
    let v = chars_of(s);
    let mut i: usize = 0;
    while i < v.len()
        invariant
            v@ == s@,
            i <= v.len(),
            forall|j: int| 0 <= j < i ==> s@[j] != c,
        decreases v.len() - i,
    {
        if v[i] == c {
            proof {
                lemma_index_of_unique(s@, c, i as int);
            }
            return Some(i);
        }
        i += 1;
    }
    proof {
        lemma_index_of_unique(s@, c, s@.len() as int);
        lemma_index_of(s@, c);
    }
    None
}

/// The position of the last `c` in `s`, or -1.
pub open spec fn last_index_of(s: Seq<char>, c: char) -> int
    decreases s.len(),
{
    if s.len() == 0 {
        -1
    } else if s.last() == c {
        s.len() - 1
    } else {
        last_index_of(s.drop_last(), c)
    }
}

pub proof fn lemma_last_index_of_unique(s: Seq<char>, c: char, k: int)
    requires
        -1 <= k < s.len(),
        k >= 0 ==> s[k] == c,
        forall|j: int| k < j < s.len() ==> s[j] != c,
    ensures
        last_index_of(s, c) == k,
    decreases s.len(),
{
    if s.len() > 0 && s.last() != c {
        lemma_last_index_of_unique(s.drop_last(), c, k);
    }
}

/// The position of the last `c` in `s`, in characters.
pub fn rfind_char(s: &str, c: char) -> (r: Option<usize>)
    ensures
        match r {
            Some(k) => k < s@.len() && k == last_index_of(s@, c) && s@[k as int] == c,
            None => last_index_of(s@, c) == -1 && !s@.contains(c),
        },
{
    let v = chars_of(s);
    let mut i: usize = v.len();
    while i > 0
        invariant
            v@ == s@,
            i <= v.len(),
            forall|j: int| i <= j < s@.len() ==> s@[j] != c,
        decreases i,
    {
        i -= 1;
        if v[i] == c {
            proof {
                lemma_last_index_of_unique(s@, c, i as int);
            }
            return Some(i);
        }
    }
    proof {
        lemma_last_index_of_unique(s@, c, -1);
    }
    None
}

// ---------------------------------------------------------------------------
// Splitting
// ---------------------------------------------------------------------------

/// What stands before and after the first `c` of `s`.
pub open spec fn split_once_spec(s: Seq<char>, c: char) -> Option<(Seq<char>, Seq<char>)> {
    let i = index_of(s, c);
    if i < s.len() {
        Some((s.take(i), s.skip(i + 1)))
    } else {
        None
    }
}

pub open spec fn pair_view(p: Option<(&str, &str)>) -> Option<(Seq<char>, Seq<char>)> {
    match p {
        Some(q) => Some((q.0@, q.1@)),
        None => None,
    }
}

pub fn split_once<'a>(s: &'a str, c: char) -> (r: Option<(&'a str, &'a str)>)
    ensures
        pair_view(r) == split_once_spec(s@, c),
{
    match find_char(s, c) {
        Some(i) => {
            let n = chars_of(s).len();
            let a = s.substring_char(0, i);
            let b = s.substring_char(i + 1, n);
            assert(a@ =~= s@.take(i as int));
            assert(b@ =~= s@.skip(i + 1));
            Some((a, b))
        },
        None => None,
    }
}

/// The pieces of `s` between its `c`s. There is one more piece than `c`s.
pub open spec fn split_spec(s: Seq<char>, c: char) -> Seq<Seq<char>>
    decreases s.len(),
{
    proof {
        lemma_index_of(s, c);
    }
    let i = index_of(s, c);
    if i < s.len() {
        seq![s.take(i)] + split_spec(s.skip(i + 1), c)
    } else {
        seq![s]
    }
}

pub open spec fn str_views(v: Seq<&str>) -> Seq<Seq<char>> {
    v.map_values(|s: &str| s@)
}

pub open spec fn string_views(v: Seq<String>) -> Seq<Seq<char>> {
    v.map_values(|s: String| s@)
}

/// The pieces of `s` between its `c`s.
pub fn split<'a>(s: &'a str, c: char) -> (r: Vec<&'a str>)
    ensures
        str_views(r@) == split_spec(s@, c),
{
    let mut out: Vec<&'a str> = Vec::new();
    let mut rest: &'a str = s;
    let mut more: bool = true;
    while more
        invariant
            more ==> str_views(out@) + split_spec(rest@, c) == split_spec(s@, c),
            !more ==> str_views(out@) == split_spec(s@, c),
        decreases (if more { 1 + rest@.len() } else { 0 }),
    {
        let ghost before = out@;
        proof {
            lemma_index_of(rest@, c);
        }
        match split_once(rest, c) {
            Some((a, b)) => {
                out.push(a);
                assert(str_views(out@) =~= str_views(before).push(a@));
                assert(str_views(out@) + split_spec(b@, c) =~= str_views(before) + (seq![a@]
                    + split_spec(b@, c)));
                rest = b;
            },
            None => {
                out.push(rest);
                assert(str_views(out@) =~= str_views(before) + seq![rest@]);
                more = false;
            },
        }
    }
    out
}

/// There is always a first piece.
pub proof fn lemma_split_nonempty(s: Seq<char>, c: char)
    ensures
        split_spec(s, c).len() >= 1,
{
}

/// The position of the first `t` in `list`, or `list.len()`.
pub open spec fn position_of(list: Seq<Seq<char>>, t: Seq<char>) -> int
    decreases list.len(),
{
    if list.len() == 0 || list[0] == t {
        0
    } else {
        1 + position_of(list.drop_first(), t)
    }
}

/// A line without the carriage return that may end it.
pub open spec fn strip_cr(s: Seq<char>) -> Seq<char> {
    if s.len() > 0 && s.last() == '\r' {
        s.drop_last()
    } else {
        s
    }
}

/// The lines of `s`: each ends at a line feed, which may follow a carriage
/// return, or at the end of `s`. Neither belongs to the line, and nothing
/// after a last line feed is no line.
pub open spec fn lines_spec(s: Seq<char>) -> Seq<Seq<char>>
    decreases s.len(),
{
    proof {
        lemma_index_of(s, '\n');
    }
    if s.len() == 0 {
        Seq::empty()
    } else {
        let i = index_of(s, '\n');
        if i < s.len() {
            seq![strip_cr(s.take(i))] + lines_spec(s.skip(i + 1))
        } else {
            seq![s]
        }
    }
}

fn without_cr<'a>(s: &'a str) -> (r: &'a str)
    ensures
        r@ == strip_cr(s@),
{
    let v = chars_of(s);
    if v.len() > 0 && v[v.len() - 1] == '\r' {
        let r = s.substring_char(0, v.len() - 1);
        assert(r@ =~= s@.drop_last());
        r
    } else {
        s
    }
}

/// The lines of `s`.
pub fn lines<'a>(s: &'a str) -> (r: Vec<&'a str>)
    ensures
        str_views(r@) == lines_spec(s@),
{
    let mut out: Vec<&'a str> = Vec::new();
    let mut rest: &'a str = s;
    let mut more: bool = !s.is_empty();
    assert(str_views(out@) + lines_spec(rest@) =~= lines_spec(s@));
    proof {
        lemma_index_of(s@, '\n');
    }
    while more
        invariant
            more ==> rest@.len() > 0,
            more ==> str_views(out@) + lines_spec(rest@) == lines_spec(s@),
            !more ==> str_views(out@) == lines_spec(s@),
        decreases (if more { 1 + rest@.len() } else { 0 }),
    {
        let ghost before = out@;
        proof {
            lemma_index_of(rest@, '\n');
        }
        match split_once(rest, '\n') {
            Some((a, b)) => {
                let line = without_cr(a);
                out.push(line);
                assert(str_views(out@) =~= str_views(before).push(line@));
                assert(str_views(out@) + lines_spec(b@) =~= str_views(before) + (seq![line@]
                    + lines_spec(b@)));
                rest = b;
                if b.is_empty() {
                    more = false;
                    proof {
                        lemma_index_of(b@, '\n');
                    }
                    assert(lines_spec(b@) =~= Seq::<Seq<char>>::empty());
                    assert(str_views(out@) + lines_spec(b@) =~= str_views(out@));
                }
            },
            None => {
                out.push(rest);
                assert(str_views(out@) =~= str_views(before) + seq![rest@]);
                more = false;
            },
        }
    }
    out
}

// ---------------------------------------------------------------------------
// Trimming
// ---------------------------------------------------------------------------

pub open spec fn trim_start_spec(s: Seq<char>) -> Seq<char>
    decreases s.len(),
{
    if s.len() > 0 && is_space(s[0]) {
        trim_start_spec(s.drop_first())
    } else {
        s
    }
}

pub open spec fn trim_end_spec(s: Seq<char>) -> Seq<char>
    decreases s.len(),
{
    if s.len() > 0 && is_space(s.last()) {
        trim_end_spec(s.drop_last())
    } else {
        s
    }
}

/// `s` without the white space at its two ends.
pub open spec fn trim_spec(s: Seq<char>) -> Seq<char> {
    trim_end_spec(trim_start_spec(s))
}

proof fn lemma_trim_start(s: Seq<char>, k: int)
    requires
        0 <= k <= s.len(),
        forall|j: int| 0 <= j < k ==> is_space(s[j]),
        k < s.len() ==> !is_space(s[k]),
    ensures
        trim_start_spec(s) == s.skip(k),
    decreases s.len(),
{
    if k > 0 {
        let t = s.drop_first();
        assert forall|j: int| 0 <= j < k - 1 implies is_space(t[j]) by {
            assert(t[j] == s[j + 1]);
        }
        lemma_trim_start(t, k - 1);
        assert(t.skip(k - 1) =~= s.skip(k));
    } else {
        assert(s.skip(0) =~= s);
    }
}

proof fn lemma_trim_end(s: Seq<char>, k: int)
    requires
        0 <= k <= s.len(),
        forall|j: int| k <= j < s.len() ==> is_space(s[j]),
        k > 0 ==> !is_space(s[k - 1]),
    ensures
        trim_end_spec(s) == s.take(k),
    decreases s.len(),
{
    if k < s.len() {
        lemma_trim_end(s.drop_last(), k);
        assert(s.drop_last().take(k) =~= s.take(k));
    } else {
        assert(s.take(k) =~= s);
    }
}

/// `s` without the white space at its two ends.
pub fn trim<'a>(s: &'a str) -> (r: &'a str)
    ensures
        r@ == trim_spec(s@),
{
    let v = chars_of(s);
    let n = v.len();
    let mut lo: usize = 0;
    while lo < n && is_whitespace(v[lo])
        invariant
            n == v.len(),
            lo <= n,
            forall|j: int| 0 <= j < lo ==> is_space(v@[j]),
        decreases n - lo,
    {
        lo += 1;
    }
    let mut hi: usize = n;
    while hi > lo && is_whitespace(v[hi - 1])
        invariant
            n == v.len(),
            lo <= hi <= n,
            forall|j: int| hi <= j < n ==> is_space(v@[j]),
        decreases hi,
    {
        hi -= 1;
    }
    proof {
        lemma_trim_start(s@, lo as int);
        let t = s@.skip(lo as int);
        lemma_trim_end(t, hi - lo);
        assert(t.take(hi - lo) =~= s@.subrange(lo as int, hi as int));
    }
    s.substring_char(lo, hi)
}

// ---------------------------------------------------------------------------
// Joining and formatting
// ---------------------------------------------------------------------------

/// The parts in order with `sep` between each two.
pub open spec fn join_spec(parts: Seq<Seq<char>>, sep: Seq<char>) -> Seq<char>
    decreases parts.len(),
{
    if parts.len() == 0 {
        Seq::empty()
    } else if parts.len() == 1 {
        parts[0]
    } else {
        join_spec(parts.drop_last(), sep) + sep + parts.last()
    }
}

/// The parts in order with `sep` between each two.
pub fn join(parts: &Vec<String>, sep: &str) -> (r: String)
    ensures
        r@ == join_spec(string_views(parts@), sep@),
{
    let mut out = String::new();
    let mut i: usize = 0;
    while i < parts.len()
        invariant
            i <= parts.len(),
            out@ == join_spec(string_views(parts@.take(i as int)), sep@),
        decreases parts.len() - i,
    {
        let ghost now = string_views(parts@.take(i as int));
        let ghost next = string_views(parts@.take(i + 1));
        assert(next.drop_last() =~= now);
        if i > 0 {
            out.append(sep);
        }
        out.append(parts[i].as_str());
        assert(i == 0 ==> out@ =~= next[0]);
        i += 1;
    }
    assert(parts@.take(i as int) =~= parts@);
    out
}

pub open spec fn digit_char(d: nat) -> char {
    (('0' as u32) + d) as char
}

/// The decimal digits of `n`, without leading zeros.
pub open spec fn dec(n: nat) -> Seq<char>
    decreases n,
{
    if n < 10 {
        seq![digit_char(n)]
    } else {
        dec(n / 10).push(digit_char(n % 10))
    }
}

fn digit_str(d: u8) -> (r: &'static str)
    requires
        d < 16,
    ensures
        r@ == seq![hex_char(d as nat)],
{
    proof {
        reveal_strlit("0");
        reveal_strlit("1");
        reveal_strlit("2");
        reveal_strlit("3");
        reveal_strlit("4");
        reveal_strlit("5");
        reveal_strlit("6");
        reveal_strlit("7");
        reveal_strlit("8");
        reveal_strlit("9");
        reveal_strlit("a");
        reveal_strlit("b");
        reveal_strlit("c");
        reveal_strlit("d");
        reveal_strlit("e");
        reveal_strlit("f");
    }
    let r: &'static str = match d {
        0 => "0",
        1 => "1",
        2 => "2",
        3 => "3",
        4 => "4",
        5 => "5",
        6 => "6",
        7 => "7",
        8 => "8",
        9 => "9",
        10 => "a",
        11 => "b",
        12 => "c",
        13 => "d",
        14 => "e",
        _ => "f",
    };
    assert(r@ =~= seq![hex_char(d as nat)]);
    r
}

/// The decimal digits of `n`.
pub fn decimal(n: u64) -> (r: String)
    ensures
        r@ == dec(n as nat),
    decreases n,
{
    if n < 10 {
        digit_str(n as u8).to_string()
    } else {
        let mut s = decimal(n / 10);
        s.append(digit_str((n % 10) as u8));
        assert(s@ =~= dec(n as nat));
        s
    }
}

/// `n` in decimal, with a minus sign where it is negative.
pub open spec fn dec_int(n: int) -> Seq<char> {
    if n < 0 {
        seq!['-'] + dec((-n) as nat)
    } else {
        dec(n as nat)
    }
}

/// `n` in decimal, with a minus sign where it is negative.
pub fn decimal_signed(n: i32) -> (r: String)
    ensures
        r@ == dec_int(n as int),
{
    if n < 0 {
        let mut s = "-".to_string();
        let m: u64 = (-(n as i64)) as u64;
        let d = decimal(m);
        s.append(d.as_str());
        proof {
            reveal_strlit("-");
            assert("-"@ =~= seq!['-']);
        }
        s
    } else {
        decimal(n as u64)
    }
}

/// The hexadecimal digit for `d`, in small letters.
pub open spec fn hex_char(d: nat) -> char {
    if d < 10 {
        digit_char(d)
    } else {
        (('a' as u32) + (d - 10)) as char
    }
}

/// A byte as `0x` and two hexadecimal digits.
pub open spec fn hex_byte_spec(b: u8) -> Seq<char> {
    seq!['0', 'x', hex_char((b / 16) as nat), hex_char((b % 16) as nat)]
}

/// A byte as `0x` and two hexadecimal digits.
pub fn hex_byte(b: u8) -> (r: String)
    ensures
        r@ == hex_byte_spec(b),
{
    let mut s = "0x".to_string();
    proof {
        reveal_strlit("0x");
    }
    s.append(digit_str(b / 16));
    s.append(digit_str(b % 16));
    assert(s@ =~= hex_byte_spec(b));
    s
}

// ---------------------------------------------------------------------------
// Numbers in text
// ---------------------------------------------------------------------------

pub open spec fn is_digit(c: char) -> bool {
    '0' <= c <= '9'
}

pub open spec fn all_digits(s: Seq<char>) -> bool {
    forall|i: int| 0 <= i < s.len() ==> is_digit(#[trigger] s[i])
}

/// The number that a run of decimal digits denotes.
pub open spec fn digits_value(s: Seq<char>) -> nat
    decreases s.len(),
{
    if s.len() == 0 {
        0
    } else {
        digits_value(s.drop_last()) * 10 + ((s.last() as u32) - ('0' as u32)) as nat
    }
}

pub open spec fn without_plus(s: Seq<char>) -> Seq<char> {
    if s.len() > 0 && s[0] == '+' {
        s.drop_first()
    } else {
        s
    }
}

/// The number that `s` denotes: a run of decimal digits, which a plus sign may
/// precede, whose value fits.
pub open spec fn parse_u32_spec(s: Seq<char>) -> Option<u32> {
    let d = without_plus(s);
    if d.len() > 0 && all_digits(d) && digits_value(d) <= u32::MAX {
        Some(digits_value(d) as u32)
    } else {
        None
    }
}

proof fn lemma_digits_value_monotone(s: Seq<char>, k: int)
    requires
        0 <= k <= s.len(),
    ensures
        digits_value(s.take(k)) <= digits_value(s),
    decreases s.len() - k,
{
    if k < s.len() {
        lemma_digits_value_monotone(s, k + 1);
        assert(s.take(k + 1).drop_last() =~= s.take(k));
    } else {
        assert(s.take(k) =~= s);
    }
}

/// The number that `s` denotes in decimal, where it denotes one that fits.
pub fn parse_u32(s: &str) -> (r: Option<u32>)
    ensures
        r == parse_u32_spec(s@),
{
    let v = chars_of(s);
    let start: usize = if v.len() > 0 && v[0] == '+' {
        1
    } else {
        0
    };
    let ghost d = without_plus(s@);
    assert(d =~= v@.skip(start as int));
    if start == v.len() {
        return None;
    }
    let mut value: u32 = 0;
    let mut i: usize = start;
    while i < v.len()
        invariant
            start <= i <= v.len(),
            v@ == s@,
            d == v@.skip(start as int),
            d == without_plus(s@),
            all_digits(d.take(i - start)),
            value == digits_value(d.take(i - start)),
        decreases v.len() - i,
    {
        let c = v[i];
        assert(d[i - start] == c);
        assert(d.take(i - start + 1).drop_last() =~= d.take(i - start));
        if !('0' <= c && c <= '9') {
            return None;
        }
        let digit: u32 = (c as u32) - ('0' as u32);
        proof {
            lemma_digits_value_monotone(d, i - start + 1);
        }
        if value > (u32::MAX - digit) / 10 {
            assert(value * 10 + digit > u32::MAX);
            return None;
        }
        value = value * 10 + digit;
        assert forall|j: int| 0 <= j < i - start + 1 implies is_digit(
            #[trigger] d.take(i - start + 1)[j],
        ) by {
            if j < i - start {
                assert(d.take(i - start)[j] == d[j]);
            }
        }
        i += 1;
    }
    assert(d.take(v.len() - start) =~= d);
    Some(value)
}

} // verus!
