//! What holds of texts that are taken apart and put together.

use vstd::prelude::*;
use vstd::string::*;

use crate::text;

verus! {

/// A text without white space at its two ends.
pub open spec fn is_trimmed(s: Seq<char>) -> bool {
    s.len() > 0 ==> !text::is_space(s[0]) && !text::is_space(s.last())
}

pub open spec fn all_spaces(s: Seq<char>) -> bool {
    forall|i: int| 0 <= i < s.len() ==> text::is_space(#[trigger] s[i])
}

/// White space, and nothing else, is taken off the ends of a text.
pub proof fn law_trimming(before: Seq<char>, s: Seq<char>, after: Seq<char>)
    requires
        all_spaces(before),
        is_trimmed(s),
        all_spaces(after),
    ensures
        text::trim_spec(before + s + after) == s,
    decreases before.len() + after.len(),
{
    let whole = before + s + after;
    if before.len() > 0 {
        let shorter = before.drop_first();
        assert(whole[0] == before[0]);
        assert(all_spaces(shorter)) by {
            assert forall|i: int| 0 <= i < shorter.len() implies text::is_space(
                #[trigger] shorter[i],
            ) by {
                assert(shorter[i] == before[i + 1]);
            }
        }
        law_trimming(shorter, s, after);
        assert(whole.drop_first() =~= shorter + s + after);
    } else if s.len() == 0 {
        lemma_only_spaces(after);
        assert(whole =~= after);
        assert(s =~= Seq::<char>::empty());
    } else {
        assert(whole =~= s + after);
        assert(whole[0] == s[0]);
        lemma_spaces_at_the_end(s, after);
    }
}

proof fn lemma_only_spaces(s: Seq<char>)
    requires
        all_spaces(s),
    ensures
        text::trim_spec(s) == Seq::<char>::empty(),
    decreases s.len(),
{
    if s.len() > 0 {
        let t = s.drop_first();
        assert forall|i: int| 0 <= i < t.len() implies text::is_space(#[trigger] t[i]) by {
            assert(t[i] == s[i + 1]);
        }
        assert(text::is_space(s[0]));
        lemma_only_spaces(t);
    } else {
        assert(s =~= Seq::<char>::empty());
    }
}

proof fn lemma_spaces_at_the_end(s: Seq<char>, after: Seq<char>)
    requires
        s.len() > 0,
        !text::is_space(s.last()),
        all_spaces(after),
    ensures
        text::trim_end_spec(s + after) == s,
    decreases after.len(),
{
    if after.len() > 0 {
        let t = after.drop_last();
        assert forall|i: int| 0 <= i < t.len() implies text::is_space(#[trigger] t[i]) by {
            assert(t[i] == after[i]);
        }
        assert((s + after).last() == after.last());
        assert(text::is_space(after[after.len() - 1]));
        lemma_spaces_at_the_end(s, t);
        assert((s + after).drop_last() =~= s + t);
    } else {
        assert(s + after =~= s);
    }
}

/// What is trimmed stays as it is.
pub proof fn law_trimmed_stays(s: Seq<char>)
    requires
        is_trimmed(s),
    ensures
        text::trim_spec(s) == s,
{
    let e = Seq::<char>::empty();
    law_trimming(e, s, e);
    assert(e + s + e =~= s);
}

/// The result of trimming is trimmed and stands in the text between white space.
pub proof fn law_trimming_result(s: Seq<char>)
    ensures
        is_trimmed(text::trim_spec(s)),
        exists|i: int, j: int|
            0 <= i <= j <= s.len() && all_spaces(s.take(i)) && all_spaces(s.skip(j))
                && text::trim_spec(s) == #[trigger] s.subrange(i, j),
    decreases s.len(),
{
    if s.len() == 0 {
        assert(s.take(0) =~= Seq::<char>::empty());
        assert(s.skip(0) =~= Seq::<char>::empty());
        assert(text::trim_spec(s) =~= s.subrange(0, 0));
    } else if text::is_space(s[0]) {
        let t = s.drop_first();
        law_trimming_result(t);
        let (i, j) = choose|i: int, j: int|
            0 <= i <= j <= t.len() && all_spaces(t.take(i)) && all_spaces(t.skip(j))
                && text::trim_spec(t) == #[trigger] t.subrange(i, j);
        assert forall|k: int| 0 <= k < s.take(i + 1).len() implies text::is_space(
            #[trigger] s.take(i + 1)[k],
        ) by {
            if k > 0 {
                assert(s.take(i + 1)[k] == t.take(i)[k - 1]);
            }
        }
        assert(s.skip(j + 1) =~= t.skip(j));
        assert(s.subrange(i + 1, j + 1) =~= t.subrange(i, j));
        assert(text::trim_spec(s) == s.subrange(i + 1, j + 1));
    } else if text::is_space(s.last()) {
        let t = s.drop_last();
        assert(t.len() > 0 && t[0] == s[0]);
        law_trimming_result(t);
        let (i, j) = choose|i: int, j: int|
            0 <= i <= j <= t.len() && all_spaces(t.take(i)) && all_spaces(t.skip(j))
                && text::trim_spec(t) == #[trigger] t.subrange(i, j);
        assert forall|k: int| 0 <= k < s.skip(j).len() implies text::is_space(
            #[trigger] s.skip(j)[k],
        ) by {
            if j + k < t.len() {
                assert(s.skip(j)[k] == t.skip(j)[k]);
            } else {
                assert(s.skip(j)[k] == s.last());
            }
        }
        assert(s.take(i) =~= t.take(i));
        assert(s.subrange(i, j) =~= t.subrange(i, j));
        assert(text::trim_spec(s) == s.subrange(i, j));
    } else {
        law_trimmed_stays(s);
        let n = s.len() as int;
        assert(s.take(0) =~= Seq::<char>::empty());
        assert(s.skip(n) =~= Seq::<char>::empty());
        assert(s.subrange(0, n) =~= s);
    }
}

/// A text is split at the first of some characters.
pub proof fn law_split_at_the_first(a: Seq<char>, c: char, b: Seq<char>)
    requires
        !a.contains(c),
    ensures
        text::split_once_spec(a + seq![c] + b, c) == Some((a, b)),
        text::index_of(a + seq![c] + b, c) == a.len(),
        text::split_once_spec(a, c) is None,
{
    let s = a + seq![c] + b;
    assert(s[a.len() as int] == c);
    assert forall|j: int| 0 <= j < a.len() implies s[j] != c by {
        assert(s[j] == a[j]);
    }
    text::lemma_index_of_unique(s, c, a.len() as int);
    text::lemma_index_of(a, c);
    assert(s.take(a.len() as int) =~= a);
    assert(s.skip(a.len() as int + 1) =~= b);
}

/// The last of some characters is found.
pub proof fn law_last_is_found(a: Seq<char>, c: char, b: Seq<char>)
    requires
        !b.contains(c),
    ensures
        text::last_index_of(a + seq![c] + b, c) == a.len(),
        text::last_index_of(b, c) == -1,
{
    let s = a + seq![c] + b;
    assert(s[a.len() as int] == c);
    assert forall|j: int| a.len() < j < s.len() implies s[j] != c by {
        assert(s[j] == b[j - a.len() - 1]);
    }
    text::lemma_last_index_of_unique(s, c, a.len() as int);
    text::lemma_last_index_of_unique(b, c, -1);
}

/// A joined list begins with its first part.
pub proof fn lemma_join_from_the_front(parts: Seq<Seq<char>>, sep: Seq<char>)
    requires
        parts.len() >= 2,
    ensures
        text::join_spec(parts, sep) == parts[0] + sep + text::join_spec(parts.drop_first(), sep),
    decreases parts.len(),
{
    reveal_with_fuel(text::join_spec, 2);
    let rest = parts.drop_first();
    if parts.len() == 2 {
        assert(parts.drop_last().len() == 1 && parts.drop_last()[0] == parts[0]);
        assert(rest.len() == 1 && rest[0] == parts.last());
    } else {
        let shorter = parts.drop_last();
        lemma_join_from_the_front(shorter, sep);
        assert(shorter.drop_first() =~= rest.drop_last());
        assert(rest.last() == parts.last());
        let j = text::join_spec(rest.drop_last(), sep);
        assert(parts[0] + sep + j + sep + parts.last() =~= parts[0] + sep + (j + sep
            + parts.last()));
    }
}

/// Splitting takes apart what was joined of parts that lack the separator.
pub proof fn law_splitting_undoes_joining(parts: Seq<Seq<char>>, c: char)
    requires
        parts.len() > 0,
        forall|i: int| 0 <= i < parts.len() ==> !(#[trigger] parts[i]).contains(c),
    ensures
        text::split_spec(text::join_spec(parts, seq![c]), c) == parts,
    decreases parts.len(),
{
    let s = text::join_spec(parts, seq![c]);
    if parts.len() == 1 {
        text::lemma_index_of(s, c);
        assert(!parts[0].contains(c));
        assert(text::split_spec(s, c) =~= parts);
    } else {
        let rest = parts.drop_first();
        lemma_join_from_the_front(parts, seq![c]);
        assert forall|i: int| 0 <= i < rest.len() implies !(#[trigger] rest[i]).contains(c) by {
            assert(rest[i] == parts[i + 1]);
        }
        law_splitting_undoes_joining(rest, c);
        let j = text::join_spec(rest, seq![c]);
        assert(!parts[0].contains(c));
        law_split_at_the_first(parts[0], c, j);
        assert(s.take(parts[0].len() as int) =~= parts[0]);
        assert(s.skip(parts[0].len() as int + 1) =~= j);
        assert(seq![parts[0]] + rest =~= parts);
    }
}

/// The first line of a text ends at its first line feed, and the rest follows.
pub proof fn law_lines_follow_each_other(line: Seq<char>, rest: Seq<char>)
    requires
        !line.contains('\n'),
    ensures
        text::lines_spec(line + seq!['\n'] + rest) == seq![
            if line.len() > 0 && line.last() == '\r' {
                line.drop_last()
            } else {
                line
            },
        ] + text::lines_spec(rest),
        line.len() > 0 ==> text::lines_spec(line) == seq![line],
        text::lines_spec(Seq::<char>::empty()) == Seq::<Seq<char>>::empty(),
{
    let s = line + seq!['\n'] + rest;
    law_split_at_the_first(line, '\n', rest);
    text::lemma_index_of(line, '\n');
    assert(s.take(line.len() as int) =~= line);
    assert(s.skip(line.len() as int + 1) =~= rest);
}

/// A number can be read back from its decimal digits, of which the first is no
/// zero but for zero itself.
pub proof fn law_decimal_digits(n: nat)
    ensures
        text::dec(n).len() > 0,
        text::all_digits(text::dec(n)),
        text::digits_value(text::dec(n)) == n,
        n > 0 ==> text::dec(n)[0] != '0',
    decreases n,
{
    let d = text::dec(n);
    if n < 10 {
        assert(d.drop_last() =~= Seq::<char>::empty());
        assert(text::digits_value(d.drop_last()) == 0);
    } else {
        law_decimal_digits(n / 10);
        let before = text::dec(n / 10);
        assert(d.drop_last() =~= before);
        assert(d[0] == before[0]);
        assert forall|i: int| 0 <= i < d.len() implies text::is_digit(#[trigger] d[i]) by {
            if i < before.len() {
                assert(d[i] == before[i]);
            }
        }
    }
}

/// Texts of different numbers differ.
pub proof fn law_decimal_digits_tell_apart(m: nat, n: nat)
    requires
        text::dec(m) == text::dec(n),
    ensures
        m == n,
{
    law_decimal_digits(m);
    law_decimal_digits(n);
}

/// A text denotes the number that its digits were made of.
pub proof fn law_numbers_are_read_back(n: u32)
    ensures
        text::parse_u32_spec(text::dec(n as nat)) == Some(n),
        text::parse_u32_spec(seq!['+'] + text::dec(n as nat)) == Some(n),
{
    let d = text::dec(n as nat);
    law_decimal_digits(n as nat);
    assert(text::is_digit(d[0]));
    assert((seq!['+'] + d).drop_first() =~= d);
}

/// The position of a text in a list is that of its first occurrence.
pub proof fn law_position_is_the_first(list: Seq<Seq<char>>, t: Seq<char>)
    ensures
        0 <= text::position_of(list, t) <= list.len(),
        text::position_of(list, t) < list.len() ==> list[text::position_of(list, t)] == t,
        forall|j: int| 0 <= j < text::position_of(list, t) ==> #[trigger] list[j] != t,
    decreases list.len(),
{
    if list.len() > 0 && list[0] != t {
        let rest = list.drop_first();
        law_position_is_the_first(rest, t);
        assert forall|j: int| 0 <= j < text::position_of(list, t) implies #[trigger] list[j] != t by {
            if j > 0 {
                assert(list[j] == rest[j - 1]);
            }
        }
        if text::position_of(list, t) < list.len() {
            assert(list[text::position_of(list, t)] == rest[text::position_of(rest, t)]);
        }
    }
}

/// ASCII letters of either case are the same where case is ignored, and other
/// characters are not.
pub proof fn law_case_is_ignored(c: char, d: char)
    requires
        'a' <= c <= 'z',
        'a' <= d <= 'z',
    ensures
        text::same_ignoring_case(seq![c], seq![d]) == (c == d),
        text::same_ignoring_case(seq![text::ascii_upper(c)], seq![d]) == (c == d),
        text::ascii_lower(text::ascii_upper(c)) == c,
        'A' <= text::ascii_upper(c) <= 'Z',
{
    let u = text::ascii_upper(c);
    assert(seq![c][0] == c && seq![d][0] == d && seq![u][0] == u);
}

/// White space is the blank, the tab and the line breaks among others, and no
/// printable ASCII character but the blank.
pub proof fn law_white_space(c: char)
    ensures
        text::is_space(' '),
        text::is_space('\t'),
        text::is_space('\n'),
        text::is_space('\r'),
        text::is_space('\u{a0}'),
        text::is_space('\u{3000}'),
        '!' <= c <= '~' ==> !text::is_space(c),
        text::is_space(c) && c < '\u{80}' ==> c == ' ' || '\u{9}' <= c <= '\u{d}',
{
}

/// A number below ten is its digit, and one digit more stands at the end.
pub proof fn law_digits_stand_in_order(m: nat, d: nat)
    requires
        d < 10,
    ensures
        text::dec(d).len() == 1,
        text::dec(d)[0] as u32 == 48 + d,
        m > 0 ==> text::dec(10 * m + d) == text::dec(m) + text::dec(d),
        text::dec(0) == seq!['0'],
{
    if m > 0 {
        let n = 10 * m + d;
        assert(n / 10 == m);
        assert(n % 10 == d);
        assert(text::dec(n) =~= text::dec(m) + text::dec(d));
    }
}

/// A negative number has a sign before its digits.
pub proof fn law_sign_stands_before_the_digits(n: nat)
    ensures
        text::dec_int(n as int) == text::dec(n),
        n > 0 ==> text::dec_int(-(n as int)) == seq!['-'] + text::dec(n),
{
}

/// A byte is shown by its two hexadecimal digits, the higher first, in small
/// letters.
pub proof fn law_bytes_have_two_hexadecimal_digits(h: u8, l: u8)
    requires
        h < 16,
        l < 16,
    ensures
        ({
            let b = (16 * h + l) as u8;
            let t = text::hex_byte_spec(b);
            &&& t.len() == 4
            &&& t[0] == '0' && t[1] == 'x'
            &&& h < 10 ==> t[2] as u32 == 48 + h
            &&& h >= 10 ==> t[2] as u32 == 87 + h
            &&& l < 10 ==> t[3] as u32 == 48 + l
            &&& l >= 10 ==> t[3] as u32 == 87 + l
        }),
{
    let b = (16 * h + l) as u8;
    assert(b / 16 == h);
    assert(b % 16 == l);
}

/// A text begins with another exactly where it is that text and a rest.
pub proof fn law_texts_begin_with_their_prefix(p: Seq<char>, rest: Seq<char>, s: Seq<char>)
    ensures
        text::has_prefix(p + rest, p),
        text::has_prefix(s, p) ==> s == p + s.skip(p.len() as int),
{
    assert((p + rest).take(p.len() as int) =~= p);
    if text::has_prefix(s, p) {
        assert(s =~= p + s.skip(p.len() as int));
    }
}

/// Capitals and small letters of ASCII are 32 apart, and nothing else changes.
pub proof fn law_letters_change_their_case(c: char)
    ensures
        'a' <= c <= 'z' ==> text::ascii_upper(c) as u32 + 32 == c as u32,
        !('a' <= c <= 'z') ==> text::ascii_upper(c) == c,
        'A' <= c <= 'Z' ==> text::ascii_lower(c) as u32 == c as u32 + 32,
        !('A' <= c <= 'Z') ==> text::ascii_lower(c) == c,
        text::is_ascii_letter(c) <==> text::ascii_upper(c) != text::ascii_lower(c),
{
}

// ---------------------------------------------------------------------------
// Searching
// ---------------------------------------------------------------------------

/// A text is found exactly where it stands in another.
pub proof fn law_parts_are_found(s: &str, p: &str, r: bool)
    requires
        call_ensures(text::contains_str, (s, p), r),
    ensures
        r <==> exists|a: Seq<char>, b: Seq<char>| s@ == #[trigger] (a + p@ + b),
{
    text::lemma_find_from(s@, p@, 0);
    if r {
        let k = text::find_spec(s@, p@)->0;
        assert(s@ =~= s@.take(k) + p@ + s@.skip(k + p@.len()));
    }
    if exists|a: Seq<char>, b: Seq<char>| s@ == #[trigger] (a + p@ + b) {
        let (a, b) = choose|a: Seq<char>, b: Seq<char>| s@ == #[trigger] (a + p@ + b);
        text::lemma_part_stands_in(a, p@, b);
        assert(text::occurs_at(s@, p@, a.len() as int)) by {
            assert(s@.subrange(a.len() as int, (a.len() + p@.len()) as int) =~= p@);
        }
    }
}

/// Splitting gives the two sides of the first separator: put together they are
/// the text, and the separator does not stand in it any earlier.
pub proof fn law_split_at_the_first_part(
    s: &str,
    p: &str,
    r: Option<(&str, &str)>,
    found: bool,
)
    requires
        call_ensures(text::split_once_str, (s, p), r),
        call_ensures(text::contains_str, (s, p), found),
    ensures
        r is Some == found,
        r matches Some(sides) ==> s@ == sides.0@ + p@ + sides.1@,
        r matches Some(sides) ==> forall|a: Seq<char>, b: Seq<char>|
            s@ == #[trigger] (a + p@ + b) ==> sides.0@.len() <= a.len(),
{
    text::lemma_find_from(s@, p@, 0);
    if let Some(sides) = r {
        let k = text::find_spec(s@, p@)->0;
        assert(sides.0@ == s@.take(k));
        assert(sides.1@ == s@.skip(k + p@.len()));
        assert(s@ =~= s@.take(k) + p@ + s@.skip(k + p@.len()));
        assert forall|a: Seq<char>, b: Seq<char>| s@ == #[trigger] (a + p@ + b) implies k
            <= a.len() by {
            assert(text::occurs_at(s@, p@, a.len() as int)) by {
                assert(s@.subrange(a.len() as int, (a.len() + p@.len()) as int) =~= p@);
            }
        }
    }
}

/// A text in which nothing is to be replaced stays as it is.
pub proof fn law_nothing_to_replace(s: &str, p: &str, with: &str, r: String, found: bool)
    requires
        p@.len() > 0,
        call_ensures(text::replace_str, (s, p, with), r),
        call_ensures(text::contains_str, (s, p), found),
    ensures
        !found ==> r@ == s@,
{
}

/// Replacing goes from the front: what stands before the first part stays, the
/// part makes way, and the rest is treated alike.
pub proof fn law_every_part_is_replaced(
    s: &str,
    p: &str,
    with: &str,
    sides: Option<(&str, &str)>,
    rest: String,
    r: String,
)
    requires
        p@.len() > 0,
        call_ensures(text::split_once_str, (s, p), sides),
        sides is Some,
        call_ensures(text::replace_str, ((sides->0).1, p, with), rest),
        call_ensures(text::replace_str, (s, p, with), r),
    ensures
        r@ == (sides->0).0@ + with@ + rest@,
{
}

} // verus!
