//! Text as the player reads and writes it: splitting, trimming, folding the
//! case of ASCII letters, and decimal numbers.

use vstd::prelude::*;
use vstd::string::*;

verus! {

/// `String::push` appends one character to the end of the string.
pub assume_specification[ String::push ](text: &mut String, c: char)
    ensures
        final(text)@ == old(text)@.push(c),
;

/// The characters with the Unicode `White_Space` property.
pub open spec fn is_space(c: char) -> bool {
    let point = c as u32;
    ||| 0x9 <= point <= 0xd
    ||| point == 0x20
    ||| point == 0x85
    ||| point == 0xa0
    ||| point == 0x1680
    ||| 0x2000 <= point <= 0x200a
    ||| point == 0x2028
    ||| point == 0x2029
    ||| point == 0x202f
    ||| point == 0x205f
    ||| point == 0x3000
}

/// Whether `c` is white space.
pub fn whitespace(c: char) -> (r: bool)
    ensures
        r == is_space(c),
{
    let point: u32 = c as u32;
    (0x9 <= point && point <= 0xd) || point == 0x20 || point == 0x85 || point == 0xa0 || point
        == 0x1680 || (0x2000 <= point && point <= 0x200a) || point == 0x2028 || point == 0x2029
        || point == 0x202f || point == 0x205f || point == 0x3000
}

/// `c` with an ASCII capital turned small.
pub open spec fn lower(c: char) -> char {
    if 'A' <= c <= 'Z' {
        (c as u32 + 32) as char
    } else {
        c
    }
}

/// `s` with every ASCII capital turned small.
pub open spec fn lowercase(s: Seq<char>) -> Seq<char> {
    s.map_values(|c: char| lower(c))
}

fn lower_char(c: char) -> (r: char)
    ensures
        r == lower(c),
{
    if 'A' <= c && c <= 'Z' {
        let point: u8 = c as u8;
        (point + 32) as char
    } else {
        c
    }
}

/// The characters of `text`, in order.
pub fn chars_of(text: &str) -> (r: Vec<char>)
    ensures
        r@ == text@,
{
    let mut r: Vec<char> = Vec::new();
    for c in it: text.chars()
        invariant
            it.seq() == text@,
            r@ == text@.take(it.index()),
    {
        r.push(c);
    }
    r
}

/// The string that `chars` spell.
pub fn text_of(chars: &Vec<char>) -> (r: String)
    ensures
        r@ == chars@,
{
    let mut r = String::new();
    for i in 0..chars.len()
        invariant
            r@ == chars@.take(i as int),
    {
        r.push(chars[i]);
        assert(chars@.take(i as int).push(chars@[i as int]) == chars@.take(i + 1));
    }
    assert(chars@.take(chars@.len() as int) == chars@);
    r
}

/// `text` with every ASCII capital turned small.
pub fn to_lowercase(text: &str) -> (r: String)
    ensures
        r@ == lowercase(text@),
{
    let chars = chars_of(text);
    let mut r = String::new();
    for i in 0..chars.len()
        invariant
            chars@ == text@,
            r@ == lowercase(text@).take(i as int),
    {
        r.push(lower_char(chars[i]));
    }
    r
}

/// A copy of an optional string.
pub fn copy_if(text: &Option<String>) -> (r: Option<String>)
    ensures
        r == *text,
{
    match text {
        Some(text) => Some(text.clone()),
        None => None,
    }
}

/// Whether two texts spell the same characters.
pub fn same(a: &str, b: &str) -> (r: bool)
    ensures
        r == (a@ == b@),
{
    a.to_owned() == b.to_owned()
}

/// Whether `list` holds `text`.
pub fn names(list: &Vec<String>, text: &String) -> (r: bool)
    ensures
        r == texts(list@).contains(text@),
{
    for i in 0..list.len()
        invariant
            forall|j: int| 0 <= j < i ==> texts(list@)[j] != text@,
    {
        if list[i] == *text {
            assert(texts(list@)[i as int] == text@);
            return true;
        }
    }
    false
}

/// Whether `text` ends in `tail`.
pub fn ends_with(text: &str, tail: &str) -> (r: bool)
    ensures
        r == tail@.is_suffix_of(text@),
{
    let whole = chars_of(text);
    let end = chars_of(tail);
    if end.len() > whole.len() {
        return false;
    }
    let skipped: usize = whole.len() - end.len();
    for i in 0..end.len()
        invariant
            whole@ == text@,
            end@ == tail@,
            skipped + end.len() == whole.len(),
            forall|j: int| 0 <= j < i ==> end@[j] == whole@[skipped + j],
    {
        if end[i] != whole[skipped + i] {
            assert(tail@[i as int] != text@.subrange(skipped as int, text@.len() as int)[i as int]);
            return false;
        }
    }
    assert(tail@ == text@.subrange(skipped as int, text@.len() as int));
    true
}

/// What remains of `s` without the white space it starts with.
pub open spec fn trim_start(s: Seq<char>) -> Seq<char>
    decreases s.len(),
{
    if s.len() > 0 && is_space(s[0]) {
        trim_start(s.drop_first())
    } else {
        s
    }
}

/// What remains of `s` without the white space it ends in.
pub open spec fn trim_end(s: Seq<char>) -> Seq<char>
    decreases s.len(),
{
    if s.len() > 0 && is_space(s.last()) {
        trim_end(s.drop_last())
    } else {
        s
    }
}

/// What remains of `s` without the white space at either end.
pub open spec fn trim(s: Seq<char>) -> Seq<char> {
    trim_end(trim_start(s))
}

fn trim_chars(chars: &Vec<char>) -> (r: Vec<char>)
    ensures
        r@ == trim(chars@),
{
    let mut from: usize = 0;
    let ghost whole = chars@;
    assert(whole.skip(0) == whole);
    while from < chars.len() && whitespace(chars[from])
        invariant
            whole == chars@,
            from <= chars.len(),
            trim_start(whole) == trim_start(whole.skip(from as int)),
        decreases chars.len() - from,
    {
        assert(whole.skip(from as int).drop_first() == whole.skip(from + 1));
        from += 1;
    }
    let ghost kept = whole.skip(from as int);
    assert(trim_start(whole) == kept);
    let mut to: usize = chars.len();
    assert(whole.subrange(from as int, to as int) == kept);
    while to > from && whitespace(chars[to - 1])
        invariant
            whole == chars@,
            from <= to <= chars.len(),
            trim_end(kept) == trim_end(whole.subrange(from as int, to as int)),
        decreases to,
    {
        let ghost now = whole.subrange(from as int, to as int);
        assert(now.last() == chars@[to - 1]);
        assert(now.drop_last() == whole.subrange(from as int, to - 1));
        to -= 1;
    }
    assert(trim_end(kept) == whole.subrange(from as int, to as int));
    let mut r: Vec<char> = Vec::new();
    let mut i: usize = from;
    while i < to
        invariant
            whole == chars@,
            from <= i <= to <= chars.len(),
            r@ == whole.subrange(from as int, i as int),
        decreases to - i,
    {
        r.push(chars[i]);
        i += 1;
    }
    r
}

/// What cuts a text into pieces.
#[derive(Clone, Copy, Debug, PartialEq, Eq, Structural)]
pub enum Cut {
    /// A comma or a bar, between the entries of a list.
    List,
    /// White space, between words.
    Space,
}

/// Whether `c` stands between two pieces.
pub open spec fn cuts(cut: Cut, c: char) -> bool {
    match cut {
        Cut::List => c == ',' || c == '|',
        Cut::Space => is_space(c),
    }
}

/// The pieces of `s` between the characters that cut it, empty ones too.
pub open spec fn pieces(s: Seq<char>, cut: Cut) -> Seq<Seq<char>>
    decreases s.len(),
{
    if s.len() == 0 {
        seq![Seq::<char>::empty()]
    } else {
        let before = pieces(s.drop_last(), cut);
        if cuts(cut, s.last()) {
            before.push(Seq::<char>::empty())
        } else {
            before.drop_last().push(before.last().push(s.last()))
        }
    }
}

/// The characters of each piece.
pub open spec fn spelled(list: Seq<Vec<char>>) -> Seq<Seq<char>> {
    list.map_values(|v: Vec<char>| v@)
}

/// The text of each string.
pub open spec fn texts(list: Seq<String>) -> Seq<Seq<char>> {
    list.map_values(|s: String| s@)
}

fn split(text: &str, cut: Cut) -> (r: Vec<Vec<char>>)
    ensures
        spelled(r@) == pieces(text@, cut),
{
    let chars = chars_of(text);
    let mut done: Vec<Vec<char>> = Vec::new();
    let mut piece: Vec<char> = Vec::new();
    assert(pieces(text@.take(0), cut) == spelled(done@).push(piece@));
    for i in 0..chars.len()
        invariant
            chars@ == text@,
            pieces(text@.take(i as int), cut) == spelled(done@).push(piece@),
    {
        let c = chars[i];
        let cutting = match cut {
            Cut::List => c == ',' || c == '|',
            Cut::Space => whitespace(c),
        };
        let ghost before = spelled(done@).push(piece@);
        assert(text@.take(i + 1).drop_last() == text@.take(i as int));
        assert(text@.take(i + 1).last() == c);
        if cutting {
            let ghost was = done@;
            let ghost last = piece@;
            done.push(piece);
            piece = Vec::new();
            assert(spelled(done@) == spelled(was).push(last));
            assert(before.push(Seq::<char>::empty()) == spelled(done@).push(piece@));
        } else {
            piece.push(c);
            assert(before.drop_last() == spelled(done@));
        }
    }
    assert(text@.take(text@.len() as int) == text@);
    let ghost was = done@;
    let ghost last = piece@;
    done.push(piece);
    assert(spelled(done@) == spelled(was).push(last));
    done
}

/// The words of `s`: its pieces between white space that are not empty.
pub open spec fn words(s: Seq<char>) -> Seq<Seq<char>> {
    pieces(s, Cut::Space).filter(|piece: Seq<char>| piece.len() > 0)
}

/// The words of `text`, in order.
pub fn split_whitespace(text: &str) -> (r: Vec<String>)
    ensures
        texts(r@) == words(text@),
{
    let all = split(text, Cut::Space);
    let mut r: Vec<String> = Vec::new();
    let ghost listed = pieces(text@, Cut::Space);
    let ghost full = |piece: Seq<char>| piece.len() > 0;
    assert(texts(r@) == listed.take(0).filter(full));
    for i in 0..all.len()
        invariant
            spelled(all@) == listed,
            full == (|piece: Seq<char>| piece.len() > 0),
            texts(r@) == listed.take(i as int).filter(full),
    {
        let ghost was = r@;
        proof {
            assert(listed.take(i + 1) == listed.take(i as int).push(listed[i as int]));
            listed.take(i as int).lemma_filter_push(listed[i as int], full);
            assert(listed[i as int] == all@[i as int]@);
        }
        if all[i].len() > 0 {
            let word = text_of(&all[i]);
            r.push(word);
            assert(texts(r@) == texts(was).push(word@));
        }
    }
    assert(listed.take(listed.len() as int) == listed);
    r
}

/// The entries of a list that commas and bars part: trimmed, small, and
/// without the empty ones.
pub open spec fn entries(s: Seq<char>) -> Seq<Seq<char>> {
    pieces(s, Cut::List).map_values(|piece: Seq<char>| trim(piece)).filter(
        |piece: Seq<char>| piece.len() > 0,
    ).map_values(|piece: Seq<char>| lowercase(piece))
}

/// The entries of `text`, in order.
pub fn split_entries(text: &str) -> (r: Vec<String>)
    ensures
        texts(r@) == entries(text@),
{
    let all = split(text, Cut::List);
    let mut r: Vec<String> = Vec::new();
    let ghost trimmed = pieces(text@, Cut::List).map_values(|piece: Seq<char>| trim(piece));
    let ghost full = |piece: Seq<char>| piece.len() > 0;
    let ghost small = |piece: Seq<char>| lowercase(piece);
    assert(texts(r@) == trimmed.take(0).filter(full).map_values(small));
    for i in 0..all.len()
        invariant
            spelled(all@) == pieces(text@, Cut::List),
            trimmed == pieces(text@, Cut::List).map_values(|piece: Seq<char>| trim(piece)),
            full == (|piece: Seq<char>| piece.len() > 0),
            small == (|piece: Seq<char>| lowercase(piece)),
            texts(r@) == trimmed.take(i as int).filter(full).map_values(small),
    {
        let ghost was = r@;
        let ghost before = trimmed.take(i as int).filter(full);
        let piece = trim_chars(&all[i]);
        proof {
            assert(spelled(all@)[i as int] == all@[i as int]@);
            assert(trimmed[i as int] == piece@);
            assert(trimmed.take(i + 1) == trimmed.take(i as int).push(piece@));
            trimmed.take(i as int).lemma_filter_push(piece@, full);
        }
        if piece.len() > 0 {
            let entry = to_lowercase(text_of(&piece).as_str());
            r.push(entry);
            assert(texts(r@) == texts(was).push(entry@));
            assert(before.push(piece@).map_values(small) == before.map_values(small).push(entry@));
        }
    }
    assert(trimmed.take(trimmed.len() as int) == trimmed);
    r
}

/// The texts of `list` in order, with `between` between any two.
pub open spec fn joined(list: Seq<Seq<char>>, between: Seq<char>) -> Seq<char>
    decreases list.len(),
{
    if list.len() == 0 {
        Seq::empty()
    } else if list.len() == 1 {
        list[0]
    } else {
        joined(list.drop_last(), between) + between + list.last()
    }
}

/// The strings of `list` in order, with `between` between any two.
pub fn join(list: &Vec<String>, between: &str) -> (r: String)
    ensures
        r@ == joined(texts(list@), between@),
{
    let mut r = String::new();
    let ghost all = texts(list@);
    for i in 0..list.len()
        invariant
            all == texts(list@),
            r@ == joined(all.take(i as int), between@),
    {
        let ghost now = all.take(i + 1);
        assert(now.drop_last() == all.take(i as int));
        assert(now.last() == list@[i as int]@);
        if i > 0 {
            r.append(between);
        }
        r.append(list[i].as_str());
        assert(r@ == joined(now, between@));
    }
    assert(all.take(all.len() as int) == all);
    r
}

/// The character that writes `d`, for `d` below ten.
pub open spec fn digit(d: nat) -> char {
    (48 + d) as char
}

/// The decimal writing of `n`, with no leading zero.
pub open spec fn decimal(n: nat) -> Seq<char>
    decreases n,
{
    if n < 10 {
        seq![digit(n)]
    } else {
        decimal(n / 10).push(digit(n % 10))
    }
}

/// Writes `n` in decimal.
pub fn to_decimal(n: u64) -> (r: String)
    ensures
        r@ == decimal(n as nat),
    decreases n,
{
    let last: u8 = 48 + (n % 10) as u8;
    let mut r = if n < 10 {
        String::new()
    } else {
        to_decimal(n / 10)
    };
    r.push(last as char);
    r
}

/// Whether `c` is an ASCII digit.
pub open spec fn is_digit(c: char) -> bool {
    '0' <= c <= '9'
}

/// The number that the digits `s` write.
pub open spec fn value(s: Seq<char>) -> nat
    decreases s.len(),
{
    if s.len() == 0 {
        0
    } else {
        value(s.drop_last()) * 10 + (s.last() as u32 - 48) as nat
    }
}

/// `s` without the plus sign it may start with.
pub open spec fn unsigned(s: Seq<char>) -> Seq<char> {
    if s.len() > 0 && s[0] == '+' {
        s.drop_first()
    } else {
        s
    }
}

/// The whole number that `s` writes: digits, at least one, behind a plus
/// sign or none.
pub open spec fn number(s: Seq<char>) -> Option<nat> {
    let digits = unsigned(s);
    if digits.len() > 0 && (forall|i: int| 0 <= i < digits.len() ==> is_digit(#[trigger] digits[i])) {
        Some(value(digits))
    } else {
        None
    }
}

/// The number that `s` writes, if it writes one of at most `max`.
pub open spec fn number_within(s: Seq<char>, max: nat) -> Option<nat> {
    match number(s) {
        Some(n) => if n <= max {
            Some(n)
        } else {
            None
        },
        None => None,
    }
}

/// Reads a whole number of at most `max`.
pub fn parse_number(text: &str, max: u64) -> (r: Option<u64>)
    ensures
        (match r {
            Some(n) => Some(n as nat),
            None => None,
        }) == number_within(text@, max as nat),
{
    let chars = chars_of(text);
    let from: usize = if chars.len() > 0 && chars[0] == '+' {
        1
    } else {
        0
    };
    let ghost digits = unsigned(text@);
    assert(digits == text@.skip(from as int));
    if chars.len() == from {
        return None;
    }
    let mut n: u64 = 0;
    let mut over = false;
    for i in from..chars.len()
        invariant
            chars@ == text@,
            digits == text@.skip(from as int),
            from < chars.len(),
            digits == unsigned(text@),
            forall|j: int| 0 <= j < i - from ==> is_digit(#[trigger] digits[j]),
            over ==> value(digits.take(i - from)) > max,
            !over ==> value(digits.take(i - from)) == n,
            n <= max,
    {
        let c = chars[i];
        let ghost at = i - from;
        assert(c == digits[at]);
        assert(digits.take(at + 1).drop_last() == digits.take(at));
        if c < '0' || '9' < c {
            assert(!is_digit(digits[at]));
            return None;
        }
        let d: u64 = c as u64 - 48;
        if !over {
            if n > max / 10 || d > max - n * 10 {
                over = true;
            } else {
                n = n * 10 + d;
            }
        }
    }
    assert(digits.take(digits.len() as int) == digits);
    if over {
        None
    } else {
        Some(n)
    }
}

} // verus!
