//! Text operations on `&str`, stated over the characters of the text.
use vstd::prelude::*;
use vstd::string::*;
use vstd::utf8::*;

verus! {

broadcast use vstd::string::group_string_axioms;

/// `pattern` stands in `text` at position `at`.
pub open spec fn occurs_at(text: Seq<char>, pattern: Seq<char>, at: int) -> bool {
    &&& 0 <= at
    &&& at + pattern.len() <= text.len()
    &&& text.subrange(at, at + pattern.len()) == pattern
}

/// `pattern` stands somewhere in `text`.
pub open spec fn has_text(text: Seq<char>, pattern: Seq<char>) -> bool {
    exists|at: int| occurs_at(text, pattern, at)
}

/// `text` begins with `prefix`.
pub open spec fn has_prefix(text: Seq<char>, prefix: Seq<char>) -> bool {
    occurs_at(text, prefix, 0)
}

/// The leftmost position at or behind `from` at which `pattern` stands in `text`.
pub open spec fn first_from(text: Seq<char>, pattern: Seq<char>, from: int) -> Option<int>
    decreases text.len() - from + 1,
{
    if from < 0 || from + pattern.len() > text.len() {
        None
    } else if occurs_at(text, pattern, from) {
        Some(from)
    } else {
        first_from(text, pattern, from + 1)
    }
}

/// The rightmost position at or before `upto` at which `pattern` stands in `text`.
pub open spec fn last_upto(text: Seq<char>, pattern: Seq<char>, upto: int) -> Option<int>
    decreases upto + 1,
{
    if upto < 0 {
        None
    } else if occurs_at(text, pattern, upto) {
        Some(upto)
    } else {
        last_upto(text, pattern, upto - 1)
    }
}

/// What stands before and behind the leftmost `pattern` in `text`.
pub open spec fn parted_once(text: Seq<char>, pattern: Seq<char>) -> Option<(Seq<char>, Seq<char>)> {
    match first_from(text, pattern, 0) {
        Some(at) => Some(
            (text.subrange(0, at), text.subrange(at + pattern.len(), text.len() as int)),
        ),
        None => None,
    }
}

/// What stands before and behind the rightmost `pattern` in `text`.
pub open spec fn parted_last(text: Seq<char>, pattern: Seq<char>) -> Option<(Seq<char>, Seq<char>)> {
    match last_upto(text, pattern, text.len() - pattern.len()) {
        Some(at) => Some(
            (text.subrange(0, at), text.subrange(at + pattern.len(), text.len() as int)),
        ),
        None => None,
    }
}

/// The Unicode property `White_Space`.
pub open spec fn white_space(c: char) -> bool {
    ||| 0x9 <= c as u32 <= 0xd
    ||| c as u32 == 0x20
    ||| c as u32 == 0x85
    ||| c as u32 == 0xa0
    ||| c as u32 == 0x1680
    ||| 0x2000 <= c as u32 <= 0x200a
    ||| c as u32 == 0x2028
    ||| c as u32 == 0x2029
    ||| c as u32 == 0x202f
    ||| c as u32 == 0x205f
    ||| c as u32 == 0x3000
}

/// `text` without its leading white space.
pub open spec fn trimmed_start(text: Seq<char>) -> Seq<char>
    decreases text.len(),
{
    if text.len() > 0 && white_space(text[0]) {
        trimmed_start(text.subrange(1, text.len() as int))
    } else {
        text
    }
}

/// `text` without its trailing white space.
pub open spec fn trimmed_end(text: Seq<char>) -> Seq<char>
    decreases text.len(),
{
    if text.len() > 0 && white_space(text.last()) {
        trimmed_end(text.drop_last())
    } else {
        text
    }
}

/// `text` without the white space at its two ends.
pub open spec fn trimmed(text: Seq<char>) -> Seq<char> {
    trimmed_end(trimmed_start(text))
}

/// `text` without the line feeds at its end.
pub open spec fn without_final_newlines(text: Seq<char>) -> Seq<char>
    decreases text.len(),
{
    if text.len() > 0 && text.last() == '\n' {
        without_final_newlines(text.drop_last())
    } else {
        text
    }
}

/// The position of the first line feed at or behind `from`, or the length of the text.
pub open spec fn line_end(text: Seq<char>, from: int) -> int
    decreases text.len() - from,
{
    if from < 0 || from >= text.len() {
        text.len() as int
    } else if text[from] == '\n' {
        from
    } else {
        line_end(text, from + 1)
    }
}

/// A line without the carriage return that stood before its line feed.
pub open spec fn without_carriage_return(line: Seq<char>) -> Seq<char> {
    if line.len() > 0 && line.last() == '\r' {
        line.drop_last()
    } else {
        line
    }
}

/// The lines of `text` from position `from` on. A line ends at a line feed, which is not part
/// of it, nor is a carriage return right before the line feed. No empty line follows the last
/// line feed.
pub open spec fn lines_from(text: Seq<char>, from: int) -> Seq<Seq<char>>
    decreases text.len() - from,
{
    if from < 0 || from >= text.len() {
        Seq::empty()
    } else {
        let end = line_end(text, from);
        if end < from || end >= text.len() {
            seq![text.subrange(from, text.len() as int)]
        } else {
            seq![without_carriage_return(text.subrange(from, end))] + lines_from(text, end + 1)
        }
    }
}

/// The decimal digits of `n`.
pub open spec fn decimal_digits(n: nat) -> Seq<char>
    decreases n,
{
    if n < 10 {
        seq![digit_char(n)]
    } else {
        decimal_digits(n / 10).push(digit_char(n % 10))
    }
}

/// The character of a digit below sixteen, in lower case.
pub open spec fn digit_char(d: nat) -> char {
    if d < 10 {
        (48 + d) as char
    } else {
        (87 + d) as char
    }
}

/// `text` is one or more decimal digits.
pub open spec fn all_digits(text: Seq<char>) -> bool {
    &&& text.len() > 0
    &&& forall|i: int| 0 <= i < text.len() ==> '0' <= #[trigger] text[i] <= '9'
}

/// The number that decimal digits write.
pub open spec fn digits_value(text: Seq<char>) -> nat
    decreases text.len(),
{
    if text.len() == 0 {
        0
    } else {
        10 * digits_value(text.drop_last()) + ((text.last() as u32 - 48) as nat)
    }
}

/// The `u16` that `text` writes: decimal digits, with at most one plus sign before them.
pub open spec fn u16_value(text: Seq<char>) -> Option<u16> {
    let digits = if text.len() > 0 && text[0] == '+' {
        text.subrange(1, text.len() as int)
    } else {
        text
    };
    if all_digits(digits) && digits_value(digits) <= u16::MAX {
        Some(digits_value(digits) as u16)
    } else {
        None
    }
}

/// The characters of `text`, one by one.
pub fn chars_of(text: &str) -> (chars: Vec<char>)
    ensures
        chars@ == text@,
{
    let mut chars: Vec<char> = Vec::new();
    for c in it: text.chars()
        invariant
            chars@ == text@.take(it.index()),
            it.seq() == text@,
    {
        assert(text@.take(it.index() + 1) == text@.take(it.index()).push(c));
        chars.push(c);
    }
    assert(text@.take(text@.len() as int) == text@);
    chars
}

/// Where `pattern` stands first in `text`, looking from position `from` on.
fn find_from(text: &Vec<char>, pattern: &Vec<char>, from: usize) -> (found: Option<usize>)
    requires
        from <= text.len(),
    ensures
        match found {
            Some(at) => first_from(text@, pattern@, from as int) == Some(at as int),
            None => first_from(text@, pattern@, from as int) is None,
        },
{
    let mut at: usize = from;
    while pattern.len() <= text.len() - at
        invariant
            at <= text.len(),
            first_from(text@, pattern@, from as int) == first_from(text@, pattern@, at as int),
        decreases text.len() - at,
    {
        if stands_at(text, pattern, at) {
            return Some(at);
        }
        if at == text.len() {
            assert(first_from(text@, pattern@, at + 1) is None);
            return None;
        }
        at = at + 1;
    }
    None
}

/// Whether `pattern` stands in `text` at position `at`.
fn stands_at(text: &Vec<char>, pattern: &Vec<char>, at: usize) -> (stands: bool)
    requires
        at + pattern.len() <= text.len(),
    ensures
        stands == occurs_at(text@, pattern@, at as int),
{
    let mut i: usize = 0;
    while i < pattern.len()
        invariant
            i <= pattern.len(),
            at + pattern.len() <= text.len(),
            forall|j: int| 0 <= j < i ==> text@[at + j] == pattern@[j],
        decreases pattern.len() - i,
    {
        if text[at + i] != pattern[i] {
            assert(text@.subrange(at as int, at + pattern@.len())[i as int] != pattern@[i as int]);
            return false;
        }
        i = i + 1;
    }
    assert(text@.subrange(at as int, at + pattern@.len()) =~= pattern@);
    true
}

/// Where `pattern` stands last in `text`.
fn find_last(text: &Vec<char>, pattern: &Vec<char>) -> (found: Option<usize>)
    ensures
        match found {
            Some(at) => last_upto(text@, pattern@, text@.len() - pattern@.len()) == Some(
                at as int,
            ),
            None => last_upto(text@, pattern@, text@.len() - pattern@.len()) is None,
        },
{
    if pattern.len() > text.len() {
        return None;
    }
    let mut at: usize = text.len() - pattern.len();
    while !stands_at(text, pattern, at)
        invariant
            at + pattern.len() <= text.len(),
            last_upto(text@, pattern@, text@.len() - pattern@.len()) == last_upto(
                text@,
                pattern@,
                at as int,
            ),
        decreases at,
    {
        if at == 0 {
            assert(last_upto(text@, pattern@, -1) is None);
            return None;
        }
        at = at - 1;
    }
    Some(at)
}

/// Whether two texts hold the same characters.
pub fn same_text(left: &str, right: &str) -> (same: bool)
    ensures
        same == (left@ == right@),
{
    left.to_owned() == right.to_owned()
}

/// Whether `pattern` stands in `text`.
pub fn contains_text(text: &str, pattern: &str) -> (found: bool)
    ensures
        found == has_text(text@, pattern@),
{
    let found = find_from(&chars_of(text), &chars_of(pattern), 0);
    proof {
        lemma_first_from(text@, pattern@, 0);
    }
    found.is_some()
}

/// Whether `text` begins with `prefix`.
pub fn starts_with(text: &str, prefix: &str) -> (starts: bool)
    ensures
        starts == has_prefix(text@, prefix@),
{
    let chars = chars_of(text);
    let wanted = chars_of(prefix);
    wanted.len() <= chars.len() && stands_at(&chars, &wanted, 0)
}

/// An ASCII capital as its small letter, any other character as it is.
pub open spec fn ascii_lower(c: char) -> char {
    if 'A' <= c <= 'Z' {
        (c as u32 + 32) as char
    } else {
        c
    }
}

/// A text with its ASCII capitals as small letters.
pub open spec fn ascii_lowered(text: Seq<char>) -> Seq<char> {
    Seq::new(text.len(), |i: int| ascii_lower(text[i]))
}

/// Whether `pattern` stands in `text` once the ASCII capitals of `text` are small letters.
pub fn contains_lowered(text: &str, pattern: &str) -> (found: bool)
    ensures
        found == has_text(ascii_lowered(text@), pattern@),
{
    let chars = chars_of(text);
    let mut lowered: Vec<char> = Vec::new();
    let mut i: usize = 0;
    while i < chars.len()
        invariant
            chars@ == text@,
            i <= chars.len(),
            lowered@ == ascii_lowered(text@).take(i as int),
        decreases chars.len() - i,
    {
        let c: char = chars[i];
        if 'A' <= c && c <= 'Z' {
            lowered.push((c as u8 + 32) as char);
        } else {
            lowered.push(c);
        }
        assert(lowered@ =~= ascii_lowered(text@).take(i + 1));
        i = i + 1;
    }
    assert(ascii_lowered(text@).take(i as int) =~= ascii_lowered(text@));
    let found = find_from(&lowered, &chars_of(pattern), 0);
    proof {
        lemma_first_from(ascii_lowered(text@), pattern@, 0);
    }
    found.is_some()
}

/// Splits `text` at the first `pattern`.
pub fn split_once<'a>(text: &'a str, pattern: &str) -> (parts: Option<(&'a str, &'a str)>)
    ensures
        match parts {
            Some((head, tail)) => parted_once(text@, pattern@) == Some((head@, tail@)),
            None => parted_once(text@, pattern@) is None,
        },
{
    let chars = chars_of(text);
    let wanted = chars_of(pattern);
    let total: usize = chars.len();
    match find_from(&chars, &wanted, 0) {
        Some(at) => {
            proof {
                lemma_first_from(text@, pattern@, 0);
                assert(occurs_at(text@, pattern@, at as int));
            }
            Some(
                (
                    text.substring_char(0, at),
                    text.substring_char(at + wanted.len(), total),
                ),
            )
        },
        None => None,
    }
}

/// Splits `text` at the last `pattern`.
pub fn rsplit_once<'a>(text: &'a str, pattern: &str) -> (parts: Option<(&'a str, &'a str)>)
    ensures
        match parts {
            Some((head, tail)) => parted_last(text@, pattern@) == Some((head@, tail@)),
            None => parted_last(text@, pattern@) is None,
        },
{
    let chars = chars_of(text);
    let wanted = chars_of(pattern);
    let total: usize = chars.len();
    match find_last(&chars, &wanted) {
        Some(at) => {
            proof {
                lemma_last_upto(text@, pattern@, text@.len() - pattern@.len());
                assert(occurs_at(text@, pattern@, at as int));
            }
            Some(
                (
                    text.substring_char(0, at),
                    text.substring_char(at + wanted.len(), total),
                ),
            )
        },
        None => None,
    }
}

/// Whether a character is white space.
fn is_white_space(c: char) -> (white: bool)
    ensures
        white == white_space(c),
{
    let u: u32 = c as u32;
    (0x9 <= u && u <= 0xd) || u == 0x20 || u == 0x85 || u == 0xa0 || u == 0x1680 || (0x2000 <= u
        && u <= 0x200a) || u == 0x2028 || u == 0x2029 || u == 0x202f || u == 0x205f || u == 0x3000
}

/// `text` without the white space at its two ends.
pub fn trim<'a>(text: &'a str) -> (inner: &'a str)
    ensures
        inner@ == trimmed(text@),
{
    let chars = chars_of(text);
    let mut start: usize = 0;
    assert(text@.subrange(0, text@.len() as int) =~= text@);
    while start < chars.len() && is_white_space(chars[start])
        invariant
            chars@ == text@,
            start <= chars.len(),
            trimmed_start(text@) == trimmed_start(text@.subrange(start as int, text@.len() as int)),
        decreases chars.len() - start,
    {
        let ghost rest = text@.subrange(start as int, text@.len() as int);
        assert(rest.subrange(1, rest.len() as int) =~= text@.subrange(
            start + 1,
            text@.len() as int,
        ));
        start = start + 1;
    }
    let ghost body = trimmed_start(text@);
    assert(body == text@.subrange(start as int, text@.len() as int));
    let mut end: usize = chars.len();
    while end > start && is_white_space(chars[end - 1])
        invariant
            chars@ == text@,
            start <= end <= chars.len(),
            trimmed_end(body) == trimmed_end(text@.subrange(start as int, end as int)),
        decreases end,
    {
        assert(text@.subrange(start as int, end as int).drop_last() =~= text@.subrange(
            start as int,
            end - 1,
        ));
        end = end - 1;
    }
    text.substring_char(start, end)
}

/// `text` without the line feeds at its end.
pub fn trim_final_newlines<'a>(text: &'a str) -> (inner: &'a str)
    ensures
        inner@ == without_final_newlines(text@),
{
    let chars = chars_of(text);
    let mut end: usize = chars.len();
    assert(text@.subrange(0, text@.len() as int) =~= text@);
    while end > 0 && chars[end - 1] == '\n'
        invariant
            chars@ == text@,
            end <= chars.len(),
            without_final_newlines(text@) == without_final_newlines(text@.subrange(0, end as int)),
        decreases end,
    {
        assert(text@.subrange(0, end as int).drop_last() =~= text@.subrange(0, end - 1));
        end = end - 1;
    }
    text.substring_char(0, end)
}

/// The views of borrowed texts.
pub open spec fn str_views(texts: Seq<&str>) -> Seq<Seq<char>> {
    Seq::new(texts.len(), |i: int| texts[i]@)
}

/// The position of the first line feed at or behind `from`, or the length of the text.
fn find_line_end(chars: &Vec<char>, from: usize) -> (end: usize)
    requires
        from <= chars.len(),
    ensures
        from <= end <= chars.len(),
        end == line_end(chars@, from as int),
{
    let mut at: usize = from;
    while at < chars.len() && chars[at] != '\n'
        invariant
            from <= at <= chars.len(),
            line_end(chars@, from as int) == line_end(chars@, at as int),
        decreases chars.len() - at,
    {
        at = at + 1;
    }
    at
}

/// The lines of `text`.
pub fn lines<'a>(text: &'a str) -> (found: Vec<&'a str>)
    ensures
        str_views(found@) == lines_from(text@, 0),
{
    let chars = chars_of(text);
    let mut found: Vec<&'a str> = Vec::new();
    let mut from: usize = 0;
    assert(str_views(found@) + lines_from(text@, 0) =~= lines_from(text@, 0));
    while from < chars.len()
        invariant
            chars@ == text@,
            from <= chars.len(),
            str_views(found@) + lines_from(text@, from as int) == lines_from(text@, 0),
        decreases chars.len() - from,
    {
        let ghost before = found@;
        let end: usize = find_line_end(&chars, from);
        if end == chars.len() {
            found.push(text.substring_char(from, end));
            assert(str_views(found@) =~= str_views(before).push(
                text@.subrange(from as int, text@.len() as int),
            ));
            assert(str_views(found@) =~= lines_from(text@, 0));
            return found;
        }
        let ghost line = text@.subrange(from as int, end as int);
        let stop: usize = if end > from && chars[end - 1] == '\r' {
            end - 1
        } else {
            end
        };
        found.push(text.substring_char(from, stop));
        proof {
            if stop < end {
                assert(line.last() == '\r');
                assert(line.drop_last() =~= text@.subrange(from as int, stop as int));
            } else if line.len() > 0 {
                assert(line.last() == chars@[end - 1]);
            }
            let stripped = without_carriage_return(line);
            assert(str_views(found@) =~= str_views(before).push(stripped));
            assert(str_views(found@) + lines_from(text@, end + 1) =~= str_views(before) + (
            seq![stripped] + lines_from(text@, end + 1)));
        }
        from = end + 1;
    }
    assert(str_views(found@) =~= lines_from(text@, 0));
    found
}

/// Owned copies of `parts`.
pub fn texts(parts: &[&str]) -> (owned: Vec<String>)
    ensures
        views(owned@) == str_views(parts@),
{
    let mut owned: Vec<String> = Vec::new();
    let mut i: usize = 0;
    assert(views(owned@) =~= str_views(parts@).take(0));
    while i < parts.len()
        invariant
            i <= parts.len(),
            views(owned@) == str_views(parts@).take(i as int),
        decreases parts.len() - i,
    {
        let ghost before = owned@;
        owned.push(parts[i].to_owned());
        assert(views(owned@) =~= views(before).push(parts@[i as int]@));
        assert(str_views(parts@).take(i + 1) =~= str_views(parts@).take(i as int).push(
            parts@[i as int]@,
        ));
        i = i + 1;
    }
    assert(str_views(parts@).take(i as int) =~= str_views(parts@));
    owned
}

/// `more` behind `texts`.
pub fn extend(texts: &mut Vec<String>, more: Vec<String>)
    ensures
        views(final(texts)@) == views(old(texts)@) + views(more@),
{
    let mut more = more;
    let ghost before = texts@;
    let ghost added = more@;
    texts.append(&mut more);
    assert(views(texts@) =~= views(before) + views(added));
}

/// How a text is written in quotes, with escapes where it needs them.
pub uninterp spec fn quoted_text(text: Seq<char>) -> Seq<char>;

/// `format!` with `{:?}` of a text: the text in quotes, with escapes where it needs them.
#[verifier::external_body]
pub(crate) fn quoted(text: &str) -> (words: String)
    ensures
        words@ == quoted_text(text@),
{
    format!("{:?}", text)
}

/// The digit below sixteen as text.
fn digit_text(d: u8) -> (text: &'static str)
    requires
        d < 16,
    ensures
        text@ == seq![digit_char(d as nat)],
{
    proof {
        reveal_strlit("0");
        reveal_strlit("1");
        reveal_strlit("2");
        reveal_strlit("3");
        reveal_strlit("4");
        reveal_strlit("5");
        reveal_strlit("6");
        reveal_strlit("7");
        reveal_strlit("8");
        reveal_strlit("9");
        reveal_strlit("a");
        reveal_strlit("b");
        reveal_strlit("c");
        reveal_strlit("d");
        reveal_strlit("e");
        reveal_strlit("f");
    }
    let text = match d {
        0 => "0",
        1 => "1",
        2 => "2",
        3 => "3",
        4 => "4",
        5 => "5",
        6 => "6",
        7 => "7",
        8 => "8",
        9 => "9",
        10 => "a",
        11 => "b",
        12 => "c",
        13 => "d",
        14 => "e",
        _ => "f",
    };
    assert(text@ =~= seq![digit_char(d as nat)]);
    text
}

/// `n` in decimal digits.
pub fn decimal(n: u128) -> (text: String)
    ensures
        text@ == decimal_digits(n as nat),
    decreases n,
{
    if n < 10 {
        digit_text(n as u8).to_owned()
    } else {
        let mut text = decimal(n / 10);
        text.append(digit_text((n % 10) as u8));
        assert(text@ =~= decimal_digits(n as nat));
        text
    }
}

/// The two lower-case hexadecimal digits of a byte.
pub open spec fn hex_pair(byte: u8) -> Seq<char> {
    seq![digit_char((byte / 16) as nat), digit_char((byte % 16) as nat)]
}

/// The lower-case hexadecimal digits of `bytes`.
pub open spec fn hex_digits(bytes: Seq<u8>) -> Seq<char>
    decreases bytes.len(),
{
    if bytes.len() == 0 {
        Seq::empty()
    } else {
        hex_digits(bytes.drop_last()) + hex_pair(bytes.last())
    }
}

/// `bytes` in lower-case hexadecimal digits.
pub fn hex(bytes: &[u8]) -> (text: String)
    ensures
        text@ == hex_digits(bytes@),
{
    let mut text = String::new();
    let mut i: usize = 0;
    while i < bytes.len()
        invariant
            i <= bytes.len(),
            text@ == hex_digits(bytes@.take(i as int)),
        decreases bytes.len() - i,
    {
        text.append(digit_text(bytes[i] / 16));
        text.append(digit_text(bytes[i] % 16));
        proof {
            let longer = bytes@.take(i + 1);
            assert(longer.drop_last() =~= bytes@.take(i as int));
            assert(text@ =~= hex_digits(longer));
        }
        i = i + 1;
    }
    assert(bytes@.take(bytes@.len() as int) =~= bytes@);
    text
}

/// The views of texts.
pub open spec fn views(texts: Seq<String>) -> Seq<Seq<char>> {
    Seq::new(texts.len(), |i: int| texts[i]@)
}

/// `texts` with `separator` between any two of them.
pub open spec fn joined_with(texts: Seq<Seq<char>>, separator: Seq<char>) -> Seq<char>
    decreases texts.len(),
{
    if texts.len() == 0 {
        Seq::empty()
    } else if texts.len() == 1 {
        texts[0]
    } else {
        joined_with(texts.drop_last(), separator) + separator + texts.last()
    }
}

/// Joins `texts` with `separator`.
pub fn join(texts: &[&str], separator: &str) -> (text: String)
    ensures
        text@ == joined_with(str_views(texts@), separator@),
{
    let mut text = String::new();
    let mut i: usize = 0;
    while i < texts.len()
        invariant
            i <= texts.len(),
            text@ == joined_with(str_views(texts@).take(i as int), separator@),
        decreases texts.len() - i,
    {
        if i > 0 {
            text.append(separator);
        }
        text.append(texts[i]);
        proof {
            let longer = str_views(texts@).take(i + 1);
            assert(longer.drop_last() =~= str_views(texts@).take(i as int));
            assert(text@ =~= joined_with(longer, separator@));
        }
        i = i + 1;
    }
    assert(str_views(texts@).take(texts@.len() as int) =~= str_views(texts@));
    text
}

/// `character`, `count` times.
pub open spec fn repeated(character: char, count: nat) -> Seq<char> {
    Seq::new(count, |i: int| character)
}

/// `character` as text, `count` times.
pub fn repeat(character: &str, count: usize) -> (text: String)
    requires
        character@.len() == 1,
    ensures
        text@ == repeated(character@[0], count as nat),
{
    let mut text = String::new();
    let mut i: usize = 0;
    while i < count
        invariant
            i <= count,
            character@.len() == 1,
            text@ == repeated(character@[0], i as nat),
        decreases count - i,
    {
        text.append(character);
        assert(text@ =~= repeated(character@[0], (i + 1) as nat));
        i = i + 1;
    }
    text
}

/// Two texts, one behind the other.
pub fn concat2(a: &str, b: &str) -> (text: String)
    ensures
        text@ == a@ + b@,
{
    let mut text = a.to_owned();
    text.append(b);
    text
}

/// Three texts, one behind the other.
pub fn concat3(a: &str, b: &str, c: &str) -> (text: String)
    ensures
        text@ == a@ + b@ + c@,
{
    let mut text = concat2(a, b);
    text.append(c);
    text
}

/// Four texts, one behind the other.
pub fn concat4(a: &str, b: &str, c: &str, d: &str) -> (text: String)
    ensures
        text@ == a@ + b@ + c@ + d@,
{
    let mut text = concat3(a, b, c);
    text.append(d);
    text
}

/// Five texts, one behind the other.
pub fn concat5(a: &str, b: &str, c: &str, d: &str, e: &str) -> (text: String)
    ensures
        text@ == a@ + b@ + c@ + d@ + e@,
{
    let mut text = concat4(a, b, c, d);
    text.append(e);
    text
}

/// `left` comes before `right` in the order of their code points.
pub open spec fn text_before(left: Seq<char>, right: Seq<char>) -> bool
    decreases left.len(),
{
    if right.len() == 0 {
        false
    } else if left.len() == 0 {
        true
    } else if left[0] != right[0] {
        left[0] < right[0]
    } else {
        text_before(left.drop_first(), right.drop_first())
    }
}

/// Whether `left` comes before `right`.
pub fn text_is_before(left: &str, right: &str) -> (before: bool)
    ensures
        before == text_before(left@, right@),
{
    let a = chars_of(left);
    let b = chars_of(right);
    let mut i: usize = 0;
    assert(left@.skip(0) =~= left@);
    assert(right@.skip(0) =~= right@);
    while i < a.len() && i < b.len() && a[i] == b[i]
        invariant
            a@ == left@,
            b@ == right@,
            i <= a.len(),
            i <= b.len(),
            text_before(left@, right@) == text_before(
                left@.skip(i as int),
                right@.skip(i as int),
            ),
        decreases a.len() - i,
    {
        assert(left@.skip(i as int).drop_first() =~= left@.skip(i + 1));
        assert(right@.skip(i as int).drop_first() =~= right@.skip(i + 1));
        i = i + 1;
    }
    if i >= b.len() {
        false
    } else if i >= a.len() {
        true
    } else {
        a[i] < b[i]
    }
}

/// Of two texts that differ, one comes before the other.
pub proof fn lemma_text_before(left: Seq<char>, right: Seq<char>)
    ensures
        !(text_before(left, right) && text_before(right, left)),
        left != right ==> text_before(left, right) || text_before(right, left),
        !text_before(left, left),
    decreases left.len() + right.len(),
{
    if left.len() > 0 && right.len() > 0 && left[0] == right[0] {
        lemma_text_before(left.drop_first(), right.drop_first());
        if left.drop_first() == right.drop_first() {
            assert(left =~= seq![left[0]] + left.drop_first());
            assert(right =~= seq![right[0]] + right.drop_first());
        }
    } else if left.len() == 0 && right.len() == 0 {
        assert(left =~= right);
    }
    lemma_text_never_before_itself(left);
}

proof fn lemma_text_never_before_itself(text: Seq<char>)
    ensures
        !text_before(text, text),
    decreases text.len(),
{
    if text.len() > 0 {
        lemma_text_never_before_itself(text.drop_first());
    }
}

/// What comes before a text comes before what comes behind that text.
pub proof fn lemma_text_before_transitive(a: Seq<char>, b: Seq<char>, c: Seq<char>)
    requires
        text_before(a, b),
        text_before(b, c),
    ensures
        text_before(a, c),
    decreases a.len(),
{
    if a.len() > 0 && a[0] == b[0] && b[0] == c[0] {
        lemma_text_before_transitive(a.drop_first(), b.drop_first(), c.drop_first());
    }
}

/// What the error says that bytes are not UTF-8.
pub uninterp spec fn utf8_error_text(bytes: Seq<u8>) -> Seq<char>;

/// Bytes as text, with what is not UTF-8 replaced.
pub uninterp spec fn utf8_lossy(bytes: Seq<u8>) -> Seq<char>;

/// What the error says that a text is no `u16`.
pub uninterp spec fn u16_error_text(text: Seq<char>) -> Seq<char>;

/// `String::from_utf8`: the text whose UTF-8 encoding the bytes are, or the error's words where
/// they are not UTF-8.
#[verifier::external_body]
pub(crate) fn decode(bytes: Vec<u8>) -> (decoded: Result<String, String>)
    ensures
        match decoded {
            Ok(text) => valid_utf8(bytes@) && text@ == decode_utf8(bytes@),
            Err(words) => !valid_utf8(bytes@) && words@ == utf8_error_text(bytes@),
        },
{
    String::from_utf8(bytes).map_err(|error| error.to_string())
}

/// `String::from_utf8_lossy`: the text of the bytes. It is the text that they encode where they
/// are UTF-8; nothing more is said of the characters that take the place of other bytes.
#[verifier::external_body]
pub(crate) fn decode_lossy(bytes: &[u8]) -> (text: String)
    ensures
        text@ == utf8_lossy(bytes@),
        valid_utf8(bytes@) ==> text@ == decode_utf8(bytes@),
{
    String::from_utf8_lossy(bytes).into_owned()
}

/// `str::parse` into a `u16`: decimal digits with at most one plus sign before them, of a number
/// that fits; otherwise the error's words.
#[verifier::external_body]
pub(crate) fn parse_u16(text: &str) -> (parsed: Result<u16, String>)
    ensures
        match parsed {
            Ok(number) => u16_value(text@) == Some(number),
            Err(words) => u16_value(text@) is None && words@ == u16_error_text(text@),
        },
{
    text.parse::<u16>().map_err(|error| error.to_string())
}

/// What `first_from` finds is an occurrence with none before it, and it finds one if there is
/// one.
pub proof fn lemma_first_from(text: Seq<char>, pattern: Seq<char>, from: int)
    requires
        0 <= from,
    ensures
        match first_from(text, pattern, from) {
            Some(at) => {
                &&& from <= at
                &&& occurs_at(text, pattern, at)
                &&& forall|i: int| from <= i < at ==> !occurs_at(text, pattern, i)
            },
            None => forall|i: int| from <= i ==> !occurs_at(text, pattern, i),
        },
    decreases text.len() - from + 1,
{
    if from + pattern.len() <= text.len() && !occurs_at(text, pattern, from) {
        lemma_first_from(text, pattern, from + 1);
    }
}

/// What `last_upto` finds is an occurrence with none behind it, and it finds one if there is
/// one.
pub proof fn lemma_last_upto(text: Seq<char>, pattern: Seq<char>, upto: int)
    ensures
        match last_upto(text, pattern, upto) {
            Some(at) => {
                &&& at <= upto
                &&& occurs_at(text, pattern, at)
                &&& forall|i: int| at < i <= upto ==> !occurs_at(text, pattern, i)
            },
            None => forall|i: int| i <= upto ==> !occurs_at(text, pattern, i),
        },
    decreases upto + 1,
{
    if 0 <= upto && !occurs_at(text, pattern, upto) {
        lemma_last_upto(text, pattern, upto - 1);
    }
}

/// The decimal digits of a number write that number, and nothing but digits.
pub proof fn lemma_decimal_digits(n: nat)
    ensures
        all_digits(decimal_digits(n)),
        digits_value(decimal_digits(n)) == n,
    decreases n,
{
    let text = decimal_digits(n);
    if n >= 10 {
        lemma_decimal_digits(n / 10);
        assert(text.drop_last() =~= decimal_digits(n / 10));
        assert(digits_value(text) == 10 * digits_value(text.drop_last()) + n % 10);
    } else {
        assert(text.drop_last() =~= Seq::empty());
        assert(digits_value(text.drop_last()) == 0);
    }
}

/// A number below a hundred thousand has at most five decimal digits.
pub proof fn lemma_decimal_width(n: nat)
    requires
        n < 100000,
    ensures
        decimal_digits(n).len() <= 5,
{
    reveal_with_fuel(decimal_digits, 6);
}

/// Every byte has two hexadecimal digits.
pub proof fn lemma_hex_width(bytes: Seq<u8>)
    ensures
        hex_digits(bytes).len() == 2 * bytes.len(),
    decreases bytes.len(),
{
    if bytes.len() > 0 {
        lemma_hex_width(bytes.drop_last());
    }
}

/// Bytes that differ have different hexadecimal digits.
pub proof fn lemma_hex_tells_apart(left: Seq<u8>, right: Seq<u8>)
    requires
        hex_digits(left) == hex_digits(right),
    ensures
        left == right,
    decreases left.len(),
{
    lemma_hex_width(left);
    lemma_hex_width(right);
    if left.len() > 0 {
        let a = hex_digits(left);
        let b = hex_digits(right);
        let n = a.len();
        assert(a[n - 2] == digit_char((left.last() / 16) as nat));
        assert(b[n - 2] == digit_char((right.last() / 16) as nat));
        assert(a[n - 1] == digit_char((left.last() % 16) as nat));
        assert(b[n - 1] == digit_char((right.last() % 16) as nat));
        assert(left.last() == right.last());
        assert(a.take(n - 2) =~= hex_digits(left.drop_last()));
        assert(b.take(n - 2) =~= hex_digits(right.drop_last()));
        lemma_hex_tells_apart(left.drop_last(), right.drop_last());
        assert(left =~= left.drop_last().push(left.last()));
        assert(right =~= right.drop_last().push(right.last()));
    } else {
        assert(left =~= right);
    }
}

/// White space around a text that neither begins nor ends with white space is what `trimmed`
/// takes away.
pub proof fn lemma_trimmed(before: Seq<char>, inner: Seq<char>, after: Seq<char>)
    requires
        inner.len() > 0,
        !white_space(inner[0]),
        !white_space(inner.last()),
        forall|i: int| 0 <= i < before.len() ==> white_space(#[trigger] before[i]),
        forall|i: int| 0 <= i < after.len() ==> white_space(#[trigger] after[i]),
    ensures
        trimmed(before + inner + after) == inner,
    decreases before.len() + after.len(),
{
    let whole = before + inner + after;
    if before.len() > 0 {
        let fewer = before.subrange(1, before.len() as int);
        assert(whole.subrange(1, whole.len() as int) =~= fewer + inner + after);
        assert(whole[0] == before[0]);
        lemma_trimmed(fewer, inner, after);
    } else if after.len() > 0 {
        assert(whole[0] == inner[0]);
        assert(trimmed_start(whole) == whole);
        assert(whole.last() == after.last());
        let shorter = before + inner + after.drop_last();
        assert(whole.drop_last() =~= shorter);
        assert(shorter[0] == inner[0]);
        assert(trimmed_start(shorter) == shorter);
        lemma_trimmed(before, inner, after.drop_last());
    } else {
        assert(whole =~= inner);
    }
}

/// Trimming takes away white space at the two ends and nothing else: what is left is a part of the
/// text with only white space before it and behind it, and neither begins nor ends with any.
pub proof fn law_trimming_takes_away_outer_white_space(text: Seq<char>) -> (from: int)
    ensures
        0 <= from,
        from + trimmed(text).len() <= text.len(),
        trimmed(text) == text.subrange(from, from + trimmed(text).len()),
        forall|i: int| 0 <= i < from ==> white_space(#[trigger] text[i]),
        forall|i: int|
            from + trimmed(text).len() <= i < text.len() ==> white_space(#[trigger] text[i]),
        trimmed(text).len() > 0 ==> !white_space(trimmed(text)[0]) && !white_space(
            trimmed(text).last(),
        ),
{
    let from = lemma_trimmed_start(text);
    let rest = trimmed_start(text);
    lemma_trimmed_end(rest);
    let kept = trimmed(text);
    assert(kept =~= text.subrange(from, from + kept.len()));
    assert forall|i: int| from + kept.len() <= i < text.len() implies white_space(
        #[trigger] text[i],
    ) by {
        assert(rest[i - from] == text[i]);
    }
    if kept.len() > 0 {
        assert(kept[0] == rest[0]);
    }
    from
}

/// Only leading white space is taken away.
proof fn lemma_trimmed_start(text: Seq<char>) -> (from: int)
    ensures
        0 <= from <= text.len(),
        trimmed_start(text) == text.subrange(from, text.len() as int),
        forall|i: int| 0 <= i < from ==> white_space(#[trigger] text[i]),
        from < text.len() ==> !white_space(text[from]),
    decreases text.len(),
{
    if text.len() > 0 && white_space(text[0]) {
        let rest = text.subrange(1, text.len() as int);
        let from = lemma_trimmed_start(rest);
        assert(rest.subrange(from, rest.len() as int) =~= text.subrange(
            from + 1,
            text.len() as int,
        ));
        assert forall|i: int| 0 <= i < from + 1 implies white_space(#[trigger] text[i]) by {
            if i > 0 {
                assert(rest[i - 1] == text[i]);
            }
        }
        from + 1
    } else {
        assert(text.subrange(0, text.len() as int) =~= text);
        0
    }
}

/// Only trailing white space is taken away.
proof fn lemma_trimmed_end(text: Seq<char>)
    ensures
        trimmed_end(text).len() <= text.len(),
        trimmed_end(text) == text.subrange(0, trimmed_end(text).len() as int),
        forall|i: int| trimmed_end(text).len() <= i < text.len() ==> white_space(#[trigger] text[i]),
        trimmed_end(text).len() > 0 ==> !white_space(trimmed_end(text).last()),
    decreases text.len(),
{
    if text.len() > 0 && white_space(text.last()) {
        let rest = text.drop_last();
        lemma_trimmed_end(rest);
        let kept = trimmed_end(rest);
        assert(rest.subrange(0, kept.len() as int) =~= text.subrange(0, kept.len() as int));
        assert forall|i: int| kept.len() <= i < text.len() implies white_space(
            #[trigger] text[i],
        ) by {
            if i < rest.len() {
                assert(rest[i] == text[i]);
            }
        }
    } else {
        assert(text.subrange(0, text.len() as int) =~= text);
    }
}

/// The line feeds at the end are taken away, and nothing else: what is left begins the text, does
/// not end in a line feed, and only line feeds follow it.
pub proof fn law_only_final_newlines_are_taken_away(text: Seq<char>)
    ensures
        without_final_newlines(text).len() <= text.len(),
        without_final_newlines(text) == text.take(without_final_newlines(text).len() as int),
        forall|i: int|
            without_final_newlines(text).len() <= i < text.len() ==> #[trigger] text[i] == '\n',
        without_final_newlines(text).len() > 0 ==> without_final_newlines(text).last() != '\n',
    decreases text.len(),
{
    if text.len() > 0 && text.last() == '\n' {
        let rest = text.drop_last();
        law_only_final_newlines_are_taken_away(rest);
        let kept = without_final_newlines(rest);
        assert(rest.take(kept.len() as int) =~= text.take(kept.len() as int));
        assert forall|i: int| kept.len() <= i < text.len() implies #[trigger] text[i] == '\n' by {
            if i < rest.len() {
                assert(rest[i] == text[i]);
            }
        }
    } else {
        assert(text.take(text.len() as int) =~= text);
    }
}

/// A line feed parts a text into its lines: what stands before the first one, but for a carriage
/// return at its end, is the first line, and the others are the lines of what follows.
pub proof fn law_lines_are_parted_by_newlines(line: Seq<char>, rest: Seq<char>)
    requires
        forall|i: int| 0 <= i < line.len() ==> #[trigger] line[i] != '\n',
    ensures
        lines_from(line + seq!['\n'] + rest, 0) == seq![
            if line.len() > 0 && line.last() == '\r' {
                line.drop_last()
            } else {
                line
            },
        ] + lines_from(rest, 0),
        line.len() > 0 ==> lines_from(line, 0) == seq![line],
        lines_from(Seq::<char>::empty(), 0) == Seq::<Seq<char>>::empty(),
{
    let text = line + seq!['\n'] + rest;
    let end = line.len() as int;
    assert(text[end] == '\n');
    assert forall|i: int| 0 <= i < end implies #[trigger] text[i] != '\n' by {
        assert(text[i] == line[i]);
    }
    lemma_line_end(text, 0, end);
    assert(text.subrange(0, end) =~= line);
    assert(rest =~= text.subrange(end + 1, text.len() as int));
    lemma_later_lines(text, rest, end + 1, 0);
    if line.len() > 0 {
        lemma_line_end(line, 0, end);
        assert(line.subrange(0, end) =~= line);
    }
}

/// A line ends where its first line feed stands.
proof fn lemma_line_end(text: Seq<char>, from: int, end: int)
    requires
        0 <= from <= end <= text.len(),
        forall|i: int| from <= i < end ==> #[trigger] text[i] != '\n',
        end < text.len() ==> text[end] == '\n',
    ensures
        line_end(text, from) == end,
    decreases end - from,
{
    if from < end {
        lemma_line_end(text, from + 1, end);
    }
}

/// The lines behind a position are those of what stands behind it.
proof fn lemma_later_lines(text: Seq<char>, rest: Seq<char>, offset: int, from: int)
    requires
        0 <= offset <= text.len(),
        0 <= from,
        rest == text.subrange(offset, text.len() as int),
    ensures
        lines_from(text, offset + from) == lines_from(rest, from),
    decreases rest.len() - from,
{
    if from < rest.len() {
        lemma_shifted_line_end(text, rest, offset, from);
        let end = line_end(rest, from);
        lemma_line_end_is_behind(rest, from);
        if end < rest.len() {
            assert(text.subrange(offset + from, offset + end) =~= rest.subrange(from, end));
            lemma_later_lines(text, rest, offset, end + 1);
        } else {
            assert(text.subrange(offset + from, text.len() as int) =~= rest.subrange(
                from,
                rest.len() as int,
            ));
        }
    }
}

/// A line ends at or behind its beginning, and within the text.
proof fn lemma_line_end_is_behind(text: Seq<char>, from: int)
    requires
        0 <= from <= text.len(),
    ensures
        from <= line_end(text, from) <= text.len(),
    decreases text.len() - from,
{
    if from < text.len() && text[from] != '\n' {
        lemma_line_end_is_behind(text, from + 1);
    }
}

/// A line of what stands behind a position ends at the same character.
proof fn lemma_shifted_line_end(text: Seq<char>, rest: Seq<char>, offset: int, from: int)
    requires
        0 <= offset <= text.len(),
        0 <= from,
        rest == text.subrange(offset, text.len() as int),
    ensures
        from <= rest.len() ==> line_end(text, offset + from) == offset + line_end(rest, from),
    decreases rest.len() - from,
{
    if from < rest.len() && rest[from] != '\n' {
        lemma_shifted_line_end(text, rest, offset, from + 1);
    }
}

/// What is joined can be told apart again at its separators: joining a text to others puts the
/// separator and the text behind them.
pub proof fn law_joining_puts_separators_between(
    texts: Seq<Seq<char>>,
    last: Seq<char>,
    separator: Seq<char>,
)
    ensures
        joined_with(Seq::<Seq<char>>::empty(), separator) == Seq::<char>::empty(),
        joined_with(seq![last], separator) == last,
        texts.len() > 0 ==> joined_with(texts.push(last), separator) == joined_with(
            texts,
            separator,
        ) + separator + last,
{
    assert(texts.push(last).drop_last() =~= texts);
}

/// Hexadecimal digits are written byte by byte, the higher half of a byte first, in lower case.
pub proof fn law_hex_digits_write_the_bytes(bytes: Seq<u8>, at: int)
    requires
        0 <= at < bytes.len(),
    ensures
        hex_digits(bytes).len() == 2 * bytes.len(),
        hex_digits(bytes)[2 * at] == "0123456789abcdef"@[bytes[at] as int / 16],
        hex_digits(bytes)[2 * at + 1] == "0123456789abcdef"@[bytes[at] as int % 16],
    decreases bytes.len(),
{
    lemma_hex_width(bytes);
    lemma_hex_width(bytes.drop_last());
    reveal_strlit("0123456789abcdef");
    if at < bytes.len() - 1 {
        law_hex_digits_write_the_bytes(bytes.drop_last(), at);
    }
}

} // verus!
