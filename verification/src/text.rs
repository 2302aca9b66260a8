//! Text as sequences of characters: reading a string's characters, cutting
//! pieces out of it, and writing numbers in decimal.

use vstd::prelude::*;
use vstd::string::*;

verus! {

/// The characters of `s`, in order.
pub fn chars_of(s: &str) -> (chars: Vec<char>)
    ensures
        chars@ == s@,
{
    let mut chars: Vec<char> = Vec::new();
    for c in it: s.chars()
        invariant
            chars@ == s@.take(it.index() as int),
            it.seq() == s@,
    {
        chars.push(c);
        assert(s@.take(it.index() + 1) == s@.take(it.index() as int).push(s@[it.index() as int]));
    }
    chars
}

/// Whether two strings hold the same characters.
pub fn same_text(a: &str, b: &str) -> (same: bool)
    ensures
        same == (a@ == b@),
{
    let left = String::from_str(a);
    let right = String::from_str(b);
    left == right
}

/// The character that writes the digit `d`.
pub open spec fn digit_char(d: nat) -> char {
    if d == 0 {
        '0'
    } else if d == 1 {
        '1'
    } else if d == 2 {
        '2'
    } else if d == 3 {
        '3'
    } else if d == 4 {
        '4'
    } else if d == 5 {
        '5'
    } else if d == 6 {
        '6'
    } else if d == 7 {
        '7'
    } else if d == 8 {
        '8'
    } else {
        '9'
    }
}

/// `n` written in decimal, without sign and without leading zeros.
pub open spec fn decimal_text(n: nat) -> Seq<char>
    decreases n,
{
    if n < 10 {
        seq![digit_char(n)]
    } else {
        decimal_text(n / 10).push(digit_char(n % 10))
    }
}

/// `n` written in decimal, with a leading minus sign when it is negative.
pub open spec fn signed_decimal_text(n: int) -> Seq<char> {
    if n < 0 {
        seq!['-'] + decimal_text((-n) as nat)
    } else {
        decimal_text(n as nat)
    }
}

/// The one-character string that writes the digit `d`.
pub fn digit_str(d: u64) -> (s: &'static str)
    requires
        d < 10,
    ensures
        s@ == seq![digit_char(d as nat)],
{
    proof {
        reveal_strlit("0");
        reveal_strlit("1");
        reveal_strlit("2");
        reveal_strlit("3");
        reveal_strlit("4");
        reveal_strlit("5");
        reveal_strlit("6");
        reveal_strlit("7");
        reveal_strlit("8");
        reveal_strlit("9");
    }
    let s = if d == 0 {
        "0"
    } else if d == 1 {
        "1"
    } else if d == 2 {
        "2"
    } else if d == 3 {
        "3"
    } else if d == 4 {
        "4"
    } else if d == 5 {
        "5"
    } else if d == 6 {
        "6"
    } else if d == 7 {
        "7"
    } else if d == 8 {
        "8"
    } else {
        "9"
    };
    assert(s@ =~= seq![digit_char(d as nat)]);
    s
}

/// Writes `n` in decimal.
pub fn decimal(n: u64) -> (text: String)
    ensures
        text@ == decimal_text(n as nat),
    decreases n,
{
    if n < 10 {
        String::from_str(digit_str(n))
    } else {
        let mut text = decimal(n / 10);
        text.append(digit_str(n % 10));
        assert(text@ =~= decimal_text(n as nat));
        text
    }
}

/// Writes `n` in decimal, with a minus sign in front when it is negative.
pub fn signed_decimal(n: i64) -> (text: String)
    ensures
        text@ == signed_decimal_text(n as int),
{
    if n < 0 {
        let magnitude: u64 = (-(n + 1)) as u64 + 1;
        let mut text = String::from_str("-");
        let digits = decimal(magnitude);
        text.append(digits.as_str());
        proof {
            reveal_strlit("-");
            assert(text@ =~= signed_decimal_text(n as int));
        }
        text
    } else {
        decimal(n as u64)
    }
}

/// The texts that `strings` hold.
pub open spec fn texts(strings: Seq<String>) -> Seq<Seq<char>> {
    Seq::new(strings.len(), |i: int| strings[i]@)
}

/// Where `c` first stands in `text`, or the length of `text` if it stands
/// nowhere.
pub open spec fn first_index(text: Seq<char>, c: char) -> int
    decreases text.len(),
{
    if text.len() == 0 {
        0
    } else if text[0] == c {
        0
    } else {
        1 + first_index(text.skip(1), c)
    }
}

/// The pieces that `text` falls into when it is cut at every `c`. There is
/// always at least one piece, and a piece may be empty.
pub open spec fn split_text(text: Seq<char>, c: char) -> Seq<Seq<char>>
    decreases text.len(),
{
    let cut = first_index(text, c);
    if 0 <= cut < text.len() {
        seq![text.take(cut)] + split_text(text.skip(cut + 1), c)
    } else {
        seq![text]
    }
}

/// `first_index` finds the first `c`: nothing before it is a `c`, and it
/// lies within the text exactly when the text holds a `c`.
pub proof fn lemma_first_index(text: Seq<char>, c: char)
    ensures
        0 <= first_index(text, c) <= text.len(),
        first_index(text, c) < text.len() ==> text[first_index(text, c)] == c,
        forall|i: int| 0 <= i < first_index(text, c) ==> text[i] != c,
    decreases text.len(),
{
    if text.len() > 0 && text[0] != c {
        let rest = text.skip(1);
        lemma_first_index(rest, c);
        assert forall|i: int| 0 <= i < first_index(text, c) implies text[i] != c by {
            if i > 0 {
                assert(rest[i - 1] == text[i]);
            }
        }
    }
}

/// Where the first `c` stands is settled by these three facts.
pub proof fn lemma_first_index_is(text: Seq<char>, c: char, at: int)
    requires
        0 <= at <= text.len(),
        at < text.len() ==> text[at] == c,
        forall|i: int| 0 <= i < at ==> text[i] != c,
    ensures
        first_index(text, c) == at,
{
    lemma_first_index(text, c);
    let found = first_index(text, c);
    if found < at {
        assert(text[found] != c);
    } else if at < found {
        assert(text[at] != c);
    }
}

/// Cuts `text` at every `c`.
pub fn split(text: &str, c: char) -> (pieces: Vec<String>)
    ensures
        pieces.len() >= 1,
        texts(pieces@) == split_text(text@, c),
{
    let chars = chars_of(text);
    let mut pieces: Vec<String> = Vec::new();
    let mut start: usize = 0;
    let mut i: usize = 0;
    proof {
        assert(text@.skip(0) =~= text@);
        assert(texts(pieces@) + split_text(text@, c) =~= split_text(text@, c));
    }
    while i < chars.len()
        invariant
            chars@ == text@,
            start <= i <= chars.len(),
            forall|j: int| start <= j < i ==> chars@[j] != c,
            texts(pieces@) + split_text(text@.skip(start as int), c) == split_text(text@, c),
        decreases chars.len() - i,
    {
        if chars[i] == c {
            let piece = String::from_str(text.substring_char(start, i));
            proof {
                let rest = text@.skip(start as int);
                assert forall|j: int| 0 <= j < i - start implies rest[j] != c by {
                    assert(rest[j] == chars@[start + j]);
                }
                lemma_first_index_is(rest, c, i - start);
                assert(rest.take(i - start) =~= text@.subrange(start as int, i as int));
                assert(rest.skip(i - start + 1) =~= text@.skip(i + 1));
                assert(texts(pieces@).push(piece@) + split_text(text@.skip(i + 1), c)
                    =~= texts(pieces@) + split_text(rest, c));
                assert(texts(pieces@.push(piece)) =~= texts(pieces@).push(piece@));
            }
            pieces.push(piece);
            start = i + 1;
        }
        i += 1;
    }
    let piece = String::from_str(text.substring_char(start, chars.len()));
    proof {
        let rest = text@.skip(start as int);
        assert forall|j: int| 0 <= j < rest.len() implies rest[j] != c by {
            assert(rest[j] == chars@[start + j]);
        }
        lemma_first_index_is(rest, c, rest.len() as int);
        assert(rest =~= text@.subrange(start as int, chars.len() as int));
        assert(texts(pieces@).push(piece@) =~= texts(pieces@) + split_text(rest, c));
        assert(texts(pieces@.push(piece)) =~= texts(pieces@).push(piece@));
    }
    pieces.push(piece);
    pieces
}

/// `text` without the run of `c` at its end.
pub open spec fn trimmed_end(text: Seq<char>, c: char) -> Seq<char>
    decreases text.len(),
{
    if text.len() > 0 && text.last() == c {
        trimmed_end(text.drop_last(), c)
    } else {
        text
    }
}

/// Drops every `c` that `text` ends in.
pub fn trim_end(text: &str, c: char) -> (trimmed: &str)
    ensures
        trimmed@ == trimmed_end(text@, c),
{
    let chars = chars_of(text);
    let mut end: usize = chars.len();
    proof {
        assert(text@.take(end as int) =~= text@);
    }
    while end > 0 && chars[end - 1] == c
        invariant
            chars@ == text@,
            end <= chars.len(),
            trimmed_end(text@.take(end as int), c) == trimmed_end(text@, c),
        decreases end,
    {
        proof {
            assert(text@.take(end as int).drop_last() =~= text@.take(end - 1));
        }
        end -= 1;
    }
    proof {
        assert(text@.take(end as int) =~= text@.subrange(0, end as int));
    }
    text.substring_char(0, end)
}

/// The texts of `parts` one after the other, with `between` between each
/// two of them.
pub open spec fn joined(parts: Seq<Seq<char>>, between: Seq<char>) -> Seq<char>
    decreases parts.len(),
{
    if parts.len() == 0 {
        Seq::empty()
    } else if parts.len() == 1 {
        parts[0]
    } else {
        joined(parts.drop_last(), between) + between + parts.last()
    }
}

/// Writes `parts` one after the other, with `between` between each two of
/// them.
pub fn join(parts: &Vec<String>, between: &str) -> (text: String)
    ensures
        text@ == joined(texts(parts@), between@),
{
    let mut text = String::new();
    let mut i: usize = 0;
    while i < parts.len()
        invariant
            i <= parts.len(),
            text@ == joined(texts(parts@).take(i as int), between@),
        decreases parts.len() - i,
    {
        proof {
            let upto = texts(parts@).take(i + 1);
            assert(upto.drop_last() =~= texts(parts@).take(i as int));
            assert(upto.last() == parts@[i as int]@);
        }
        if i > 0 {
            text.append(between);
        }
        text.append(parts[i].as_str());
        proof {
            if i == 0 {
                assert(text@ =~= parts@[0]@);
            }
        }
        i += 1;
    }
    proof {
        assert(texts(parts@).take(parts.len() as int) =~= texts(parts@));
    }
    text
}

/// Whether `part` stands in `text` at position `at`.
pub open spec fn occurs_at(text: Seq<char>, part: Seq<char>, at: int) -> bool {
    0 <= at && at + part.len() <= text.len() && text.subrange(at, at + part.len()) == part
}

/// Whether `part` stands somewhere in `text`.
pub open spec fn contains_text(text: Seq<char>, part: Seq<char>) -> bool {
    exists|at: int| occurs_at(text, part, at)
}

/// Whether `text` ends in `part`.
pub open spec fn ends_in(text: Seq<char>, part: Seq<char>) -> bool {
    occurs_at(text, part, text.len() - part.len())
}

/// Whether `part` stands in `text` at position `at`.
fn matches_at(text: &Vec<char>, part: &Vec<char>, at: usize) -> (matches: bool)
    requires
        at + part.len() <= text.len(),
    ensures
        matches == occurs_at(text@, part@, at as int),
{
    let mut i: usize = 0;
    while i < part.len()
        invariant
            at + part.len() <= text.len(),
            i <= part.len(),
            forall|j: int| 0 <= j < i ==> text@[at + j] == part@[j],
        decreases part.len() - i,
    {
        if text[at + i] != part[i] {
            proof {
                let piece = text@.subrange(at as int, at + part.len());
                assert(piece[i as int] != part@[i as int]);
            }
            return false;
        }
        i += 1;
    }
    proof {
        assert(text@.subrange(at as int, at + part.len()) =~= part@);
    }
    true
}

/// Whether `part` stands somewhere in `text`.
pub fn contains(text: &str, part: &str) -> (found: bool)
    ensures
        found == contains_text(text@, part@),
{
    let all = chars_of(text);
    let wanted = chars_of(part);
    if wanted.len() > all.len() {
        return false;
    }
    let last: usize = all.len() - wanted.len();
    let mut at: usize = 0;
    loop
        invariant
            all@ == text@,
            wanted@ == part@,
            last == all.len() - wanted.len(),
            at <= last,
            forall|j: int| 0 <= j < at ==> !occurs_at(text@, part@, j),
        decreases last - at,
    {
        if matches_at(&all, &wanted, at) {
            return true;
        }
        if at == last {
            return false;
        }
        at += 1;
    }
}

/// Whether `text` ends in `part`.
pub fn ends_with(text: &str, part: &str) -> (ends: bool)
    ensures
        ends == ends_in(text@, part@),
{
    let all = chars_of(text);
    let wanted = chars_of(part);
    if wanted.len() > all.len() {
        return false;
    }
    matches_at(&all, &wanted, all.len() - wanted.len())
}

/// `text` with every `from` in it replaced by `to`. The text is read from
/// left to right, and what has been replaced is not looked at again. An
/// empty `from` is found before every character and at the end.
pub open spec fn replaced(text: Seq<char>, from: Seq<char>, to: Seq<char>) -> Seq<char>
    decreases text.len(),
{
    if text.len() == 0 {
        if from.len() == 0 {
            to
        } else {
            text
        }
    } else if from.len() == 0 {
        to + seq![text[0]] + replaced(text.skip(1), from, to)
    } else if occurs_at(text, from, 0) {
        to + replaced(text.skip(from.len() as int), from, to)
    } else {
        seq![text[0]] + replaced(text.skip(1), from, to)
    }
}

/// Replacing a part by itself changes nothing.
pub proof fn lemma_replaced_by_itself(text: Seq<char>, part: Seq<char>)
    ensures
        replaced(text, part, part) == text,
    decreases text.len(),
{
    if text.len() == 0 {
        assert(replaced(text, part, part) =~= text);
    } else if part.len() == 0 {
        lemma_replaced_by_itself(text.skip(1), part);
        assert(part + seq![text[0]] + text.skip(1) =~= text);
    } else if occurs_at(text, part, 0) {
        lemma_replaced_by_itself(text.skip(part.len() as int), part);
        assert(text.subrange(0, part.len() as int) + text.skip(part.len() as int) =~= text);
    } else {
        lemma_replaced_by_itself(text.skip(1), part);
        assert(seq![text[0]] + text.skip(1) =~= text);
    }
}

/// Replaces every `from` in `text` by `to`.
pub fn replace(text: &str, from: &str, to: &str) -> (result: String)
    ensures
        result@ == replaced(text@, from@, to@),
{
    let all = chars_of(text);
    let wanted = chars_of(from);
    let mut result = String::new();
    let mut kept: usize = 0;
    let mut i: usize = 0;
    proof {
        assert(text@.skip(0) =~= text@);
        assert(result@ + text@.subrange(0, 0) + replaced(text@, from@, to@) =~= replaced(
            text@,
            from@,
            to@,
        ));
    }
    while i < all.len()
        invariant
            all@ == text@,
            wanted@ == from@,
            kept <= i <= all.len(),
            result@ + text@.subrange(kept as int, i as int) + replaced(
                text@.skip(i as int),
                from@,
                to@,
            ) == replaced(text@, from@, to@),
        decreases all.len() - i,
    {
        let ghost rest = text@.skip(i as int);
        let ghost pending = text@.subrange(kept as int, i as int);
        let ghost before = result@;
        if wanted.len() == 0 {
            result.append(text.substring_char(kept, i));
            result.append(to);
            proof {
                let later = replaced(text@.skip(i + 1), from@, to@);
                assert(rest.skip(1) =~= text@.skip(i + 1));
                assert(text@.subrange(i as int, i + 1) =~= seq![rest[0]]);
                assert(result@ + text@.subrange(i as int, i + 1) + later =~= before + pending + (to@
                    + seq![rest[0]] + later));
            }
            kept = i;
            i += 1;
        } else if wanted.len() <= all.len() - i && matches_at(&all, &wanted, i) {
            result.append(text.substring_char(kept, i));
            result.append(to);
            proof {
                let later = replaced(text@.skip(i + from@.len()), from@, to@);
                assert(text@.subrange(i as int, i + from@.len()) =~= rest.subrange(
                    0,
                    from@.len() as int,
                ));
                assert(occurs_at(rest, from@, 0));
                assert(rest.skip(from@.len() as int) =~= text@.skip(i + from@.len()));
                assert(result@ + text@.subrange(i + from@.len(), i + from@.len()) + later
                    =~= before + pending + (to@ + later));
            }
            i += wanted.len();
            kept = i;
        } else {
            proof {
                let later = replaced(text@.skip(i + 1), from@, to@);
                if occurs_at(rest, from@, 0) {
                    assert(text@.subrange(i as int, i + from@.len()) =~= rest.subrange(
                        0,
                        from@.len() as int,
                    ));
                }
                assert(rest.skip(1) =~= text@.skip(i + 1));
                assert(result@ + text@.subrange(kept as int, i + 1) + later =~= before + pending
                    + (seq![rest[0]] + later));
            }
            i += 1;
        }
    }
    let ghost before = result@;
    result.append(text.substring_char(kept, all.len()));
    if wanted.len() == 0 {
        result.append(to);
    }
    proof {
        let pending = text@.subrange(kept as int, i as int);
        let rest = text@.skip(i as int);
        assert(rest.len() == 0);
        assert(result@ =~= before + pending + replaced(rest, from@, to@));
    }
    result
}

/// Whether `c` is a blank: one of the characters that Unicode counts as
/// white space.
pub open spec fn is_blank(c: char) -> bool {
    ||| '\u{9}' <= c <= '\u{d}'
    ||| c == ' '
    ||| c == '\u{85}'
    ||| c == '\u{a0}'
    ||| c == '\u{1680}'
    ||| '\u{2000}' <= c <= '\u{200a}'
    ||| c == '\u{2028}'
    ||| c == '\u{2029}'
    ||| c == '\u{202f}'
    ||| c == '\u{205f}'
    ||| c == '\u{3000}'
}

/// `text` without the blanks at its start.
pub open spec fn without_leading_blanks(text: Seq<char>) -> Seq<char>
    decreases text.len(),
{
    if text.len() > 0 && is_blank(text[0]) {
        without_leading_blanks(text.skip(1))
    } else {
        text
    }
}

/// `text` without the blanks at its end.
pub open spec fn without_trailing_blanks(text: Seq<char>) -> Seq<char>
    decreases text.len(),
{
    if text.len() > 0 && is_blank(text.last()) {
        without_trailing_blanks(text.drop_last())
    } else {
        text
    }
}

/// `text` without the blanks around it.
pub open spec fn trimmed(text: Seq<char>) -> Seq<char> {
    without_trailing_blanks(without_leading_blanks(text))
}

/// Whether `c` is a blank.
fn blank(c: char) -> (blank: bool)
    ensures
        blank == is_blank(c),
{
    ('\u{9}' <= c && c <= '\u{d}') || c == ' ' || c == '\u{85}' || c == '\u{a0}' || c == '\u{1680}'
        || ('\u{2000}' <= c && c <= '\u{200a}') || c == '\u{2028}' || c == '\u{2029}' || c
        == '\u{202f}' || c == '\u{205f}' || c == '\u{3000}'
}

/// Drops the blanks around `text`.
pub fn trim(text: &str) -> (result: &str)
    ensures
        result@ == trimmed(text@),
{
    let chars = chars_of(text);
    let mut start: usize = 0;
    proof {
        assert(text@.skip(0) =~= text@);
    }
    while start < chars.len() && blank(chars[start])
        invariant
            chars@ == text@,
            start <= chars.len(),
            without_leading_blanks(text@.skip(start as int)) == without_leading_blanks(text@),
        decreases chars.len() - start,
    {
        proof {
            assert(text@.skip(start as int).skip(1) =~= text@.skip(start + 1));
        }
        start += 1;
    }
    let mut end: usize = chars.len();
    proof {
        assert(text@.subrange(start as int, end as int) =~= text@.skip(start as int));
    }
    while end > start && blank(chars[end - 1])
        invariant
            chars@ == text@,
            start <= end <= chars.len(),
            without_trailing_blanks(text@.subrange(start as int, end as int)) == trimmed(text@),
        decreases end,
    {
        proof {
            assert(text@.subrange(start as int, end as int).drop_last() =~= text@.subrange(
                start as int,
                end - 1,
            ));
        }
        end -= 1;
    }
    text.substring_char(start, end)
}

} // verus!
