//! Text: what splitting, trimming, joining and numbers come to.

use vstd::prelude::*;

use crate::text::{
    cuts, decimal, digit, entries, is_digit, is_space, joined, lowercase, number, number_within,
    pieces, texts, trim, trim_end, trim_start, unsigned, value, words, Cut,
};

verus! {

/// The texts of a list are those of its strings, one for each and in order.
pub proof fn texts_are_those_of_the_strings(list: Seq<String>)
    ensures
        texts(list).len() == list.len(),
        forall|i: int| 0 <= i < list.len() ==> #[trigger] texts(list)[i] == list[i]@,
{
}

/// White space is the blank, the tabulator and line ends, and the wider
/// Unicode spaces, and nothing else.
pub proof fn white_space_is_these_characters(c: char)
    ensures
        is_space(c) <==> {
            ||| '\u{9}' <= c <= '\u{d}'
            ||| c == ' '
            ||| c == '\u{85}'
            ||| c == '\u{a0}'
            ||| c == '\u{1680}'
            ||| '\u{2000}' <= c <= '\u{200a}'
            ||| c == '\u{2028}'
            ||| c == '\u{2029}'
            ||| c == '\u{202f}'
            ||| c == '\u{205f}'
            ||| c == '\u{3000}'
        },
{
}

/// Turning text small keeps every character in its place: an ASCII capital
/// becomes its small letter, and anything else stays.
pub proof fn only_capitals_turn_small(s: Seq<char>)
    ensures
        lowercase(s).len() == s.len(),
        forall|i: int|
            0 <= i < s.len() && 'A' <= s[i] <= 'Z' ==> #[trigger] lowercase(s)[i] as int - 'a' as int
                == s[i] as int - 'A' as int,
        forall|i: int|
            0 <= i < s.len() && !('A' <= s[i] <= 'Z') ==> #[trigger] lowercase(s)[i] == s[i],
{
}

/// Whether `s` from `i` up to `j` is what remains without the white space at
/// either end.
pub open spec fn inside(s: Seq<char>, i: int, j: int) -> bool {
    &&& 0 <= i <= j <= s.len()
    &&& forall|k: int| 0 <= k < i ==> is_space(#[trigger] s[k])
    &&& forall|k: int| j <= k < s.len() ==> is_space(#[trigger] s[k])
    &&& i < j ==> !is_space(s[i]) && !is_space(s[j - 1])
}

proof fn trim_start_at(s: Seq<char>) -> (i: int)
    ensures
        0 <= i <= s.len(),
        trim_start(s) == s.skip(i),
        forall|k: int| 0 <= k < i ==> is_space(#[trigger] s[k]),
        i < s.len() ==> !is_space(s[i]),
    decreases s.len(),
{
    if s.len() > 0 && is_space(s[0]) {
        let rest = s.drop_first();
        let i = trim_start_at(rest);
        assert(rest.skip(i) == s.skip(i + 1));
        assert forall|k: int| 0 <= k < i + 1 implies is_space(#[trigger] s[k]) by {
            if k > 0 {
                assert(rest[k - 1] == s[k]);
            }
        }
        if i + 1 < s.len() {
            assert(rest[i] == s[i + 1]);
        }
        i + 1
    } else {
        assert(s.skip(0) == s);
        0
    }
}

proof fn trim_end_at(s: Seq<char>) -> (j: int)
    ensures
        0 <= j <= s.len(),
        trim_end(s) == s.take(j),
        forall|k: int| j <= k < s.len() ==> is_space(#[trigger] s[k]),
        j > 0 ==> !is_space(s[j - 1]),
    decreases s.len(),
{
    if s.len() > 0 && is_space(s.last()) {
        let rest = s.drop_last();
        let j = trim_end_at(rest);
        assert(rest.take(j) == s.take(j));
        assert forall|k: int| j <= k < s.len() implies is_space(#[trigger] s[k]) by {
            if k < rest.len() {
                assert(rest[k] == s[k]);
            }
        }
        j
    } else {
        assert(s.take(s.len() as int) == s);
        s.len() as int
    }
}

/// Trimming takes off the white space at both ends, all of it, and nothing
/// else.
pub proof fn trimming_takes_off_both_ends(s: Seq<char>)
    ensures
        exists|i: int, j: int| #[trigger] inside(s, i, j) && trim(s) == s.subrange(i, j),
{
    let i = trim_start_at(s);
    let rest = s.skip(i);
    let j = trim_end_at(rest);
    assert(rest.take(j) == s.subrange(i, i + j));
    assert forall|k: int| i + j <= k < s.len() implies is_space(#[trigger] s[k]) by {
        assert(rest[k - i] == s[k]);
    }
    if j > 0 {
        assert(rest[j - 1] == s[i + j - 1]);
    }
    assert(inside(s, i, i + j));
}

/// Whether `c` parts the entries of a list.
pub open spec fn parts(c: char) -> bool {
    c == ',' || c == '|'
}

proof fn pieces_of_both(a: Seq<char>, c: char, b: Seq<char>, cut: Cut)
    requires
        cuts(cut, c),
    ensures
        pieces(a + seq![c] + b, cut) == pieces(a, cut) + pieces(b, cut),
        pieces(b, cut).len() > 0,
    decreases b.len(),
{
    let s = a + seq![c] + b;
    if b.len() == 0 {
        assert(s.drop_last() == a);
        assert(s.last() == c);
    } else {
        let shorter = b.drop_last();
        pieces_of_both(a, c, shorter, cut);
        assert(s.drop_last() == a + seq![c] + shorter);
        assert(s.last() == b.last());
        let before = pieces(a, cut) + pieces(shorter, cut);
        assert(before.last() == pieces(shorter, cut).last());
        assert(before.drop_last() == pieces(a, cut) + pieces(shorter, cut).drop_last());
    }
}

proof fn piece_alone(p: Seq<char>, cut: Cut)
    requires
        forall|i: int| 0 <= i < p.len() ==> !cuts(cut, #[trigger] p[i]),
    ensures
        pieces(p, cut) == seq![p],
    decreases p.len(),
{
    if p.len() == 0 {
        assert(p == Seq::<char>::empty());
    } else {
        let shorter = p.drop_last();
        assert forall|i: int| 0 <= i < shorter.len() implies !cuts(cut, #[trigger] shorter[i]) by {
            assert(shorter[i] == p[i]);
        }
        piece_alone(shorter, cut);
        assert(!cuts(cut, p[p.len() - 1]));
        assert(shorter.push(p.last()) == p);
    }
}

proof fn one_filtered(p: Seq<char>)
    ensures
        seq![p].filter(|piece: Seq<char>| piece.len() > 0) == (if p.len() > 0 {
            seq![p]
        } else {
            Seq::<Seq<char>>::empty()
        }),
{
    reveal_with_fuel(Seq::filter, 2);
    assert(seq![p].drop_last() == Seq::<Seq<char>>::empty());
}

/// A list is read from one separator to the next: the entries of two lists
/// with a comma or a bar between them are those of the one, then those of the
/// other.
pub proof fn a_list_is_read_part_by_part(a: Seq<char>, c: char, b: Seq<char>)
    requires
        c == ',' || c == '|',
    ensures
        entries(a + seq![c] + b) == entries(a) + entries(b),
{
    let full = |piece: Seq<char>| piece.len() > 0;
    let trimmed = |piece: Seq<char>| trim(piece);
    let small = |piece: Seq<char>| lowercase(piece);
    let (x, y) = (pieces(a, Cut::List), pieces(b, Cut::List));
    pieces_of_both(a, c, b, Cut::List);
    assert((x + y).map_values(trimmed) == x.map_values(trimmed) + y.map_values(trimmed));
    let (x, y) = (x.map_values(trimmed), y.map_values(trimmed));
    Seq::filter_distributes_over_add(x, y, full);
    let (x, y) = (x.filter(full), y.filter(full));
    assert((x + y).map_values(small) == x.map_values(small) + y.map_values(small));
}

/// A list without a separator is one entry, trimmed and small, or none when
/// nothing remains of it.
pub proof fn a_list_without_a_separator_is_one_entry(p: Seq<char>)
    requires
        forall|i: int| 0 <= i < p.len() ==> #[trigger] p[i] != ',' && p[i] != '|',
    ensures
        trim(p).len() > 0 ==> entries(p) == seq![lowercase(trim(p))],
        trim(p).len() == 0 ==> entries(p).len() == 0,
{
    piece_alone(p, Cut::List);
    let trimmed = |piece: Seq<char>| trim(piece);
    let small = |piece: Seq<char>| lowercase(piece);
    assert(seq![p].map_values(trimmed) == seq![trim(p)]);
    one_filtered(trim(p));
    if trim(p).len() > 0 {
        assert(seq![trim(p)].map_values(small) == seq![lowercase(trim(p))]);
    } else {
        assert(Seq::<Seq<char>>::empty().map_values(small).len() == 0);
    }
}

/// Whether `s` from `i` up to `j` stands between two separators, or the ends
/// of the list, and holds none.
pub open spec fn between(s: Seq<char>, i: int, j: int) -> bool {
    &&& 0 <= i <= j <= s.len()
    &&& i == 0 || parts(s[i - 1])
    &&& j == s.len() || parts(s[j])
    &&& forall|k: int| i <= k < j ==> !parts(#[trigger] s[k])
}

proof fn what_stands_between_is_listed(s: Seq<char>, i: int, j: int)
    requires
        between(s, i, j),
        trim(s.subrange(i, j)).len() > 0,
    ensures
        entries(s).contains(lowercase(trim(s.subrange(i, j)))),
{
    let p = s.subrange(i, j);
    let entry = lowercase(trim(p));
    assert forall|k: int| 0 <= k < p.len() implies #[trigger] p[k] != ',' && p[k] != '|' by {
        assert(p[k] == s[i + k]);
    }
    a_list_without_a_separator_is_one_entry(p);
    assert(entries(p)[0] == entry);
    let upto = s.take(j);
    if i > 0 {
        let a = s.take(i - 1);
        assert(a + seq![s[i - 1]] + p == upto);
        a_list_is_read_part_by_part(a, s[i - 1], p);
        assert(entries(upto)[entries(a).len() as int] == entry);
    } else {
        assert(p == upto);
    }
    assert(entries(upto).contains(entry));
    if j < s.len() {
        let b = s.skip(j + 1);
        assert(upto + seq![s[j]] + b == s);
        a_list_is_read_part_by_part(upto, s[j], b);
        let k = choose|k: int| 0 <= k < entries(upto).len() && entries(upto)[k] == entry;
        assert(entries(s)[k] == entry);
    } else {
        assert(upto == s);
    }
}

proof fn what_is_listed_stands_between(s: Seq<char>, entry: Seq<char>) -> (r: (int, int))
    requires
        entries(s).contains(entry),
    ensures
        between(s, r.0, r.1),
        trim(s.subrange(r.0, r.1)).len() > 0,
        entry == lowercase(trim(s.subrange(r.0, r.1))),
    decreases s.len(),
{
    if exists|k: int| 0 <= k < s.len() && parts(#[trigger] s[k]) {
        let k = choose|k: int| 0 <= k < s.len() && parts(#[trigger] s[k]);
        let (a, b) = (s.take(k), s.skip(k + 1));
        assert(a + seq![s[k]] + b == s);
        a_list_is_read_part_by_part(a, s[k], b);
        let n = choose|n: int| 0 <= n < entries(s).len() && entries(s)[n] == entry;
        if n < entries(a).len() {
            assert(entries(a)[n] == entry);
            let (i, j) = what_is_listed_stands_between(a, entry);
            assert(a.subrange(i, j) == s.subrange(i, j));
            assert forall|m: int| i <= m < j implies !parts(#[trigger] s[m]) by {
                assert(a[m] == s[m]);
            }
            if i > 0 {
                assert(a[i - 1] == s[i - 1]);
            }
            if j < a.len() {
                assert(a[j] == s[j]);
            }
            (i, j)
        } else {
            assert(entries(b)[n - entries(a).len()] == entry);
            let (i, j) = what_is_listed_stands_between(b, entry);
            let at = k + 1;
            assert(b.subrange(i, j) == s.subrange(at + i, at + j));
            assert forall|m: int| at + i <= m < at + j implies !parts(#[trigger] s[m]) by {
                assert(b[m - at] == s[m]);
            }
            if i > 0 {
                assert(b[i - 1] == s[at + i - 1]);
            }
            if j < b.len() {
                assert(b[j] == s[at + j]);
            }
            (at + i, at + j)
        }
    } else {
        assert(s.subrange(0, s.len() as int) == s);
        a_list_without_a_separator_is_one_entry(s);
        assert(between(s, 0, s.len() as int));
        (0, s.len() as int)
    }
}

/// The entries of a list are what stands between its separators, trimmed and
/// small: everything of which something remains is one, and every one is that.
pub proof fn the_entries_are_what_stands_between_separators(s: Seq<char>, entry: Seq<char>)
    ensures
        entries(s).contains(entry) <==> exists|i: int, j: int| #[trigger]
            between(s, i, j) && trim(s.subrange(i, j)).len() > 0 && entry == lowercase(
                trim(s.subrange(i, j)),
            ),
{
    if entries(s).contains(entry) {
        let (i, j) = what_is_listed_stands_between(s, entry);
        assert(between(s, i, j));
    }
    if exists|i: int, j: int| #[trigger]
        between(s, i, j) && trim(s.subrange(i, j)).len() > 0 && entry == lowercase(
            trim(s.subrange(i, j)),
        ) {
        let (i, j) = choose|i: int, j: int| #[trigger]
            between(s, i, j) && trim(s.subrange(i, j)).len() > 0 && entry == lowercase(
                trim(s.subrange(i, j)),
            );
        what_stands_between_is_listed(s, i, j);
    }
}

/// The words of two texts with white space between them are those of the one,
/// then those of the other.
pub proof fn words_are_read_part_by_part(a: Seq<char>, c: char, b: Seq<char>)
    requires
        is_space(c),
    ensures
        words(a + seq![c] + b) == words(a) + words(b),
{
    pieces_of_both(a, c, b, Cut::Space);
    Seq::filter_distributes_over_add(
        pieces(a, Cut::Space),
        pieces(b, Cut::Space),
        |piece: Seq<char>| piece.len() > 0,
    );
}

/// A text without white space is one word, as it stands, and an empty one is
/// none.
pub proof fn a_text_without_white_space_is_one_word(p: Seq<char>)
    requires
        forall|i: int| 0 <= i < p.len() ==> !is_space(#[trigger] p[i]),
    ensures
        p.len() > 0 ==> words(p) == seq![p],
        p.len() == 0 ==> words(p).len() == 0,
{
    piece_alone(p, Cut::Space);
    one_filtered(p);
}

/// Joining puts the separator between any two texts and nowhere else.
pub proof fn joining_puts_the_separator_between(
    a: Seq<Seq<char>>,
    b: Seq<Seq<char>>,
    text: Seq<char>,
    between: Seq<char>,
)
    ensures
        joined(Seq::empty(), between) == Seq::<char>::empty(),
        joined(seq![text], between) == text,
        a.len() > 0 && b.len() > 0 ==> joined(a + b, between) == joined(a, between) + between
            + joined(b, between),
    decreases b.len(),
{
    if a.len() > 0 && b.len() > 0 {
        let shorter = b.drop_last();
        assert((a + b).drop_last() == a + shorter);
        assert((a + b).last() == b.last());
        if shorter.len() == 0 {
            assert(a + shorter == a);
        } else {
            joining_puts_the_separator_between(a, shorter, text, between);
            assert(joined(a, between) + between + joined(shorter, between) + between + b.last()
                == joined(a, between) + between + (joined(shorter, between) + between + b.last()));
        }
    }
}

proof fn decimal_is_read_back(n: nat)
    ensures
        decimal(n).len() > 0,
        forall|i: int| 0 <= i < decimal(n).len() ==> is_digit(#[trigger] decimal(n)[i]),
        value(decimal(n)) == n,
        n > 0 ==> decimal(n)[0] != '0',
        n < 10 ==> decimal(n).len() == 1,
    decreases n,
{
    if n < 10 {
        assert(decimal(n).drop_last() == Seq::<char>::empty());
        assert(value(decimal(n).drop_last()) == 0);
        assert(decimal(n).last() == digit(n));
    } else {
        decimal_is_read_back(n / 10);
        assert(decimal(n).drop_last() == decimal(n / 10));
        assert(decimal(n).last() == digit(n % 10));
    }
}

/// A number that is written in decimal is read back.
pub proof fn a_written_number_is_read_back(n: nat)
    ensures
        number(decimal(n)) == Some(n),
{
    decimal_is_read_back(n);
    assert(is_digit(decimal(n)[0]));
    assert(unsigned(decimal(n)) == decimal(n));
}

/// A number is written in ASCII digits alone, at least one, and with no zero
/// before it.
pub proof fn a_number_is_written_in_digits(n: nat)
    ensures
        decimal(n).len() > 0,
        forall|i: int| 0 <= i < decimal(n).len() ==> '0' <= #[trigger] decimal(n)[i] <= '9',
        decimal(n).len() > 1 ==> decimal(n)[0] != '0',
{
    decimal_is_read_back(n);
    assert forall|i: int| 0 <= i < decimal(n).len() implies '0' <= #[trigger] decimal(n)[i]
        <= '9' by {
        assert(is_digit(decimal(n)[i]));
    }
}

/// A number is read digit by digit, each ten times the next, behind a plus
/// sign or none; nothing is a number that holds anything else or no digit.
pub proof fn a_number_is_read_digit_by_digit(s: Seq<char>, c: char)
    ensures
        number(Seq::empty()) is None,
        number(seq!['+']) is None,
        '0' <= c <= '9' ==> number(seq![c]) == Some((c as int - '0' as int) as nat),
        '0' <= c <= '9' ==> number(seq!['+', c]) == Some((c as int - '0' as int) as nat),
        number(s) matches Some(n) ==> '0' <= c <= '9' ==> number(s.push(c)) == Some(
            (10 * n + (c as int - '0' as int)) as nat,
        ),
        number(s) is None && s.len() > 0 && s != seq!['+'] ==> number(s.push(c)) is None,
        s.len() > 0 && !('0' <= c <= '9') ==> number(s.push(c)) is None,
        !('0' <= c <= '9') ==> number(seq![c]) is None,
{
    let plus = seq!['+'];
    assert(plus.drop_first().len() == 0);
    let one = seq![c];
    assert(one.drop_last() == Seq::<char>::empty());
    assert(value(Seq::<char>::empty()) == 0);
    assert(one.last() == c);
    assert(seq!['+', c].drop_first() == one);
    assert(one[0] == c);
    if '0' <= c <= '9' {
        assert(is_digit(c));
        assert(value(one) == (c as int - '0' as int) as nat);
    } else {
        if c == '+' {
            assert(one == plus);
        } else {
            assert(unsigned(one) == one);
            assert(!is_digit(one[0]));
        }
    }
    let longer = s.push(c);
    if s.len() > 0 {
        let digits = unsigned(s);
        assert(unsigned(longer) == digits.push(c)) by {
            assert(longer[0] == s[0]);
            if s[0] == '+' {
                assert(longer.drop_first() == s.drop_first().push(c));
            }
        }
        let more = digits.push(c);
        assert(more.drop_last() == digits);
        assert(more.last() == c);
        assert(more[digits.len() as int] == c);
        if number(longer) is Some {
            assert(is_digit(more[digits.len() as int]));
            assert forall|i: int| 0 <= i < digits.len() implies is_digit(#[trigger] digits[i]) by {
                assert(is_digit(more[i]));
            }
            if digits.len() == 0 {
                assert(s == plus) by {
                    assert(s.len() == 1);
                }
            }
        }
        if number(s) is Some && '0' <= c <= '9' {
            assert forall|i: int| 0 <= i < more.len() implies is_digit(#[trigger] more[i]) by {
                if i < digits.len() {
                    assert(more[i] == digits[i]);
                    assert(is_digit(digits[i]));
                }
            }
        }
    }
}

/// A limit turns away what is larger, and nothing else.
pub proof fn a_limit_turns_away_what_is_larger(s: Seq<char>, max: nat, n: nat)
    ensures
        number_within(s, max) == Some(n) <==> number(s) == Some(n) && n <= max,
{
}

} // verus!
