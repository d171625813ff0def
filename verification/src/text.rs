//! Text building blocks: numbers written in decimal and hexadecimal, and paths.

use vstd::prelude::*;
use vstd::string::*;

verus! {

/// The character that writes the digit `d` in base 16 (and, below ten, in base 10).
pub open spec fn digit_char(d: nat) -> char {
    if d == 0 {
        '0'
    } else if d == 1 {
        '1'
    } else if d == 2 {
        '2'
    } else if d == 3 {
        '3'
    } else if d == 4 {
        '4'
    } else if d == 5 {
        '5'
    } else if d == 6 {
        '6'
    } else if d == 7 {
        '7'
    } else if d == 8 {
        '8'
    } else if d == 9 {
        '9'
    } else if d == 10 {
        'a'
    } else if d == 11 {
        'b'
    } else if d == 12 {
        'c'
    } else if d == 13 {
        'd'
    } else if d == 14 {
        'e'
    } else {
        'f'
    }
}

/// `n` written in base `base`, most significant digit first, without leading zeros.
pub open spec fn numeral(n: nat, base: nat) -> Seq<char>
    recommends
        2 <= base <= 16,
    decreases n,
{
    if n < base || base < 2 {
        seq![digit_char(n)]
    } else {
        proof {
            lemma_quotient_is_smaller(n, base);
        }
        numeral(n / base, base).push(digit_char(n % base))
    }
}

/// Dividing a positive number by at least two makes it smaller.
pub proof fn lemma_quotient_is_smaller(n: nat, base: nat)
    requires
        2 <= base <= n,
    ensures
        n / base < n,
        n % base < base,
{
    assert(n / base < n && n % base < base) by (nonlinear_arith)
        requires
            2 <= base <= n,
    ;
}

/// `digits` with zeros in front until it is at least `width` long.
pub open spec fn zero_padded(digits: Seq<char>, width: nat) -> Seq<char> {
    if digits.len() >= width {
        digits
    } else {
        Seq::new((width - digits.len()) as nat, |i: int| '0') + digits
    }
}

/// `n` in decimal, at least `width` digits wide.
pub open spec fn decimal(n: nat, width: nat) -> Seq<char> {
    zero_padded(numeral(n, 10), width)
}

/// `n` in lower-case hexadecimal, at least `width` digits wide.
pub open spec fn hexadecimal(n: nat, width: nat) -> Seq<char> {
    zero_padded(numeral(n, 16), width)
}

fn digit_str(d: u128) -> (s: &'static str)
    requires
        d < 16,
    ensures
        s@ == seq![digit_char(d as nat)],
{
    proof {
        reveal_strlit("0");
        reveal_strlit("1");
        reveal_strlit("2");
        reveal_strlit("3");
        reveal_strlit("4");
        reveal_strlit("5");
        reveal_strlit("6");
        reveal_strlit("7");
        reveal_strlit("8");
        reveal_strlit("9");
        reveal_strlit("a");
        reveal_strlit("b");
        reveal_strlit("c");
        reveal_strlit("d");
        reveal_strlit("e");
        reveal_strlit("f");
    }
    let s = match d {
        0 => "0",
        1 => "1",
        2 => "2",
        3 => "3",
        4 => "4",
        5 => "5",
        6 => "6",
        7 => "7",
        8 => "8",
        9 => "9",
        10 => "a",
        11 => "b",
        12 => "c",
        13 => "d",
        14 => "e",
        _ => "f",
    };
    assert(s@ =~= seq![digit_char(d as nat)]);
    s
}

fn numeral_string(n: u128, base: u128) -> (s: String)
    requires
        2 <= base <= 16,
    ensures
        s@ == numeral(n as nat, base as nat),
    decreases n,
{
    if n < base {
        String::from_str(digit_str(n))
    } else {
        proof {
            lemma_quotient_is_smaller(n as nat, base as nat);
        }
        let mut s = numeral_string(n / base, base);
        s.append(digit_str(n % base));
        s
    }
}

fn pad_with_zeros(digits: String, width: usize) -> (s: String)
    ensures
        s@ == zero_padded(digits@, width as nat),
{
    let len = digits.as_str().unicode_len();
    if len >= width {
        return digits;
    }
    let mut s = String::new();
    let mut i: usize = 0;
    proof {
        reveal_strlit("0");
    }
    while i < width - len
        invariant
            len < width,
            i <= width - len,
            s@ == Seq::new(i as nat, |k: int| '0'),
            "0"@ == seq!['0'],
        decreases width - len - i,
    {
        s.append("0");
        i += 1;
        assert(s@ =~= Seq::new(i as nat, |k: int| '0'));
    }
    s.append(digits.as_str());
    s
}

/// Writes `n` in decimal, with zeros in front up to `width` digits.
pub fn decimal_string(n: u64, width: usize) -> (s: String)
    ensures
        s@ == decimal(n as nat, width as nat),
{
    pad_with_zeros(numeral_string(n as u128, 10), width)
}

/// Writes `n` in lower-case hexadecimal, with zeros in front up to `width` digits.
pub fn hexadecimal_string(n: u128, width: usize) -> (s: String)
    ensures
        s@ == hexadecimal(n as nat, width as nat),
{
    pad_with_zeros(numeral_string(n, 16), width)
}

/// Whether two texts hold the same characters.
pub fn same_text(a: &str, b: &str) -> (same: bool)
    ensures
        same == (a@ == b@),
{
    String::from_str(a) == String::from_str(b)
}

/// The characters of an optional text.
pub open spec fn option_text(text: Option<String>) -> Option<Seq<char>> {
    match text {
        Some(t) => Some(t@),
        None => None,
    }
}

/// The characters of each text of a list.
pub open spec fn texts(list: Seq<String>) -> Seq<Seq<char>> {
    list.map_values(|t: String| t@)
}

/// The characters of each text of an optional list.
pub open spec fn option_texts(list: Option<Vec<String>>) -> Option<Seq<Seq<char>>> {
    match list {
        Some(l) => Some(texts(l@)),
        None => None,
    }
}

/// A copy of an optional text.
pub fn clone_option_text(text: &Option<String>) -> (copy: Option<String>)
    ensures
        option_text(copy) == option_text(*text),
{
    match text {
        Some(t) => Some(t.clone()),
        None => None,
    }
}

/// A copy of a list of texts.
pub fn clone_texts(list: &Vec<String>) -> (copy: Vec<String>)
    ensures
        texts(copy@) == texts(list@),
{
    let mut copy: Vec<String> = Vec::new();
    let mut i: usize = 0;
    while i < list.len()
        invariant
            i <= list.len(),
            copy@.len() == i,
            forall|j: int| 0 <= j < i ==> copy@[j]@ == list@[j]@,
        decreases list.len() - i,
    {
        copy.push(list[i].clone());
        i += 1;
    }
    assert(texts(copy@) =~= texts(list@));
    copy
}

/// A copy of an optional list of texts.
pub fn clone_option_texts(list: &Option<Vec<String>>) -> (copy: Option<Vec<String>>)
    ensures
        option_texts(copy) == option_texts(*list),
{
    match list {
        Some(l) => Some(clone_texts(l)),
        None => None,
    }
}

/// The path of `child` under `base`, with `/` between the two where `base` does
/// not end in one. An absolute `child` stands for itself.
pub open spec fn joined(base: Seq<char>, child: Seq<char>) -> Seq<char> {
    if child.len() > 0 && child[0] == '/' {
        child
    } else if base.len() == 0 || base.last() == '/' {
        base + child
    } else {
        base + seq!['/'] + child
    }
}

/// Builds the path of `child` under `base`.
pub fn join_path(base: &str, child: &str) -> (path: String)
    ensures
        path@ == joined(base@, child@),
{
    proof {
        reveal_strlit("/");
    }
    if child.unicode_len() > 0 && child.get_char(0) == '/' {
        return String::from_str(child);
    }
    let len = base.unicode_len();
    let mut path = String::from_str(base);
    if len > 0 && base.get_char(len - 1) != '/' {
        path.append("/");
        assert("/"@ =~= seq!['/']);
    }
    path.append(child);
    path
}

/// `text` without the run of `c` at its end.
pub open spec fn without_trailing(text: Seq<char>, c: char) -> Seq<char>
    decreases text.len(),
{
    if text.len() > 0 && text.last() == c {
        without_trailing(text.drop_last(), c)
    } else {
        text
    }
}

/// Cuts the run of `c` off the end of `text`.
pub fn trim_trailing(text: &str, c: char) -> (trimmed: String)
    ensures
        trimmed@ == without_trailing(text@, c),
{
    let mut end = text.unicode_len();
    assert(text@.take(end as int) =~= text@);
    while end > 0 && text.get_char(end - 1) == c
        invariant
            end <= text@.len(),
            without_trailing(text@, c) == without_trailing(text@.take(end as int), c),
        decreases end,
    {
        assert(text@.take(end as int).drop_last() =~= text@.take(end - 1));
        end -= 1;
    }
    assert(text@.subrange(0, end as int) =~= text@.take(end as int));
    String::from_str(text.substring_char(0, end))
}

/// The lowercase form of a text, as `str::to_lowercase` of the standard library gives it.
pub uninterp spec fn lowercase(text: Seq<char>) -> Seq<char>;

/// The lowercase form of `text`. Calls `str::to_lowercase`, which maps each
/// character as Unicode says; the result depends on the characters alone.
#[verifier::external_body]
pub(crate) fn to_lowercase(text: &str) -> (lower: String)
    ensures
        lower@ == lowercase(text@),
{
    text.to_lowercase()
}

/// The characters of each text of a list of literals.
pub open spec fn views_of(list: Seq<&'static str>) -> Seq<Seq<char>> {
    list.map_values(|t: &'static str| t@)
}

/// Whether `text` is one of the texts of `list`.
pub fn is_one_of(text: &str, list: &Vec<&'static str>) -> (found: bool)
    ensures
        found == views_of(list@).contains(text@),
{
    let mut i: usize = 0;
    while i < list.len()
        invariant
            i <= list.len(),
            forall|j: int| 0 <= j < i ==> views_of(list@)[j] != text@,
        decreases list.len() - i,
    {
        if same_text(list[i], text) {
            assert(views_of(list@)[i as int] == text@);
            return true;
        }
        i += 1;
    }
    false
}

/// The characters of a text, one by one.
pub fn chars_of(text: &str) -> (chars: Vec<char>)
    ensures
        chars@ == text@,
{
    let mut chars: Vec<char> = Vec::new();
    for c in it: text.chars()
        invariant
            it.seq() == text@,
            chars@ == it.seq().take(it.index() as int),
    {
        chars.push(c);
        assert(chars@ =~= it.seq().take(it.index() + 1));
    }
    assert(text@.take(text@.len() as int) =~= text@);
    chars
}

/// The part of `text` from the character at place `from` up to the one at
/// place `to`. `ascii` says whether the text is known to hold ASCII only, in
/// which case the cut takes no time to find.
fn text_between(text: &str, ascii: bool, from: usize, to: usize) -> (part: String)
    requires
        from <= to <= text@.len(),
        ascii ==> is_ascii(text),
    ensures
        part@ == text@.subrange(from as int, to as int),
{
    if ascii {
        String::from_str(text.substring_ascii(from, to))
    } else {
        String::from_str(text.substring_char(from, to))
    }
}

/// Whether Unicode counts `c` as white space.
pub open spec fn is_white_space(c: char) -> bool {
    let code = c as u32;
    ||| 0x09 <= code <= 0x0D
    ||| code == 0x20
    ||| code == 0x85
    ||| code == 0xA0
    ||| code == 0x1680
    ||| 0x2000 <= code <= 0x200A
    ||| code == 0x2028
    ||| code == 0x2029
    ||| code == 0x202F
    ||| code == 0x205F
    ||| code == 0x3000
}

fn white_space(c: char) -> (space: bool)
    ensures
        space == is_white_space(c),
{
    let code = c as u32;
    (0x09 <= code && code <= 0x0D) || code == 0x20 || code == 0x85 || code == 0xA0 || code
        == 0x1680 || (0x2000 <= code && code <= 0x200A) || code == 0x2028 || code == 0x2029
        || code == 0x202F || code == 0x205F || code == 0x3000
}

/// A text without the white space at its start.
pub open spec fn without_leading_space(text: Seq<char>) -> Seq<char>
    decreases text.len(),
{
    if text.len() > 0 && is_white_space(text[0]) {
        without_leading_space(text.drop_first())
    } else {
        text
    }
}

/// A text without the white space at its end.
pub open spec fn without_trailing_space(text: Seq<char>) -> Seq<char>
    decreases text.len(),
{
    if text.len() > 0 && is_white_space(text.last()) {
        without_trailing_space(text.drop_last())
    } else {
        text
    }
}

/// A text without the white space at its ends.
pub open spec fn trimmed(text: Seq<char>) -> Seq<char> {
    without_trailing_space(without_leading_space(text))
}

/// Cuts the white space off both ends of `text`.
pub fn trim_text(text: &str) -> (inner: String)
    ensures
        inner@ == trimmed(text@),
{
    let chars = chars_of(text);
    let ascii = text.is_ascii();
    let mut start: usize = 0;
    assert(chars@.skip(0) =~= chars@);
    while start < chars.len() && white_space(chars[start])
        invariant
            start <= chars@.len(),
            without_leading_space(chars@) == without_leading_space(chars@.skip(start as int)),
        decreases chars@.len() - start,
    {
        assert(chars@.skip(start as int).drop_first() =~= chars@.skip(start + 1));
        start += 1;
    }
    let ghost rest = chars@.skip(start as int);
    assert(without_leading_space(chars@) == rest);
    let mut end: usize = chars.len();
    assert(rest.take(end - start) =~= rest);
    while end > start && white_space(chars[end - 1])
        invariant
            start <= end <= chars@.len(),
            chars@ == text@,
            rest == chars@.skip(start as int),
            without_trailing_space(rest) == without_trailing_space(rest.take(end - start)),
        decreases end,
    {
        assert(rest.take(end - start).drop_last() =~= rest.take(end - start - 1));
        end -= 1;
    }
    assert(rest.take(end - start) =~= text@.subrange(start as int, end as int));
    text_between(text, ascii, start, end)
}

/// How many characters stand before the first line feed of a text, or in all
/// of it where it has none.
pub open spec fn line_length(text: Seq<char>) -> int
    decreases text.len(),
{
    if text.len() == 0 || text[0] == '\n' {
        0
    } else {
        1 + line_length(text.drop_first())
    }
}

/// The first line of a text is no longer than the text.
pub proof fn lemma_line_length_is_in_range(text: Seq<char>)
    ensures
        0 <= line_length(text) <= text.len(),
    decreases text.len(),
{
    if text.len() > 0 && text[0] != '\n' {
        lemma_line_length_is_in_range(text.drop_first());
    }
}

/// A line without the carriage return at its end.
pub open spec fn without_carriage_return(line: Seq<char>) -> Seq<char> {
    if line.len() > 0 && line.last() == '\r' {
        line.drop_last()
    } else {
        line
    }
}

/// The lines of a text. A line ends at a line feed, or at a carriage return
/// followed by one; neither belongs to the line. What follows the last line
/// feed is a line if it is not empty, with a carriage return at its end if it
/// has one.
pub open spec fn lines_of(text: Seq<char>) -> Seq<Seq<char>>
    decreases text.len(),
{
    if text.len() == 0 {
        Seq::empty()
    } else {
        let end = line_length(text);
        if end >= text.len() {
            seq![text]
        } else {
            proof {
                lemma_line_length_is_in_range(text);
            }
            seq![without_carriage_return(text.take(end))] + lines_of(text.skip(end + 1))
        }
    }
}

/// Where the first line of a text ends: before the first line feed.
pub proof fn lemma_line_length(text: Seq<char>, end: int)
    requires
        0 <= end <= text.len(),
        forall|i: int| 0 <= i < end ==> text[i] != '\n',
        end < text.len() ==> text[end] == '\n',
    ensures
        line_length(text) == end,
    decreases text.len(),
{
    if text.len() > 0 && text[0] != '\n' {
        lemma_line_length(text.drop_first(), end - 1);
    }
}

/// Splits `text` into its lines.
pub fn split_lines(text: &str) -> (lines: Vec<String>)
    ensures
        texts(lines@) == lines_of(text@),
{
    let chars = chars_of(text);
    let ascii = text.is_ascii();
    let mut lines: Vec<String> = Vec::new();
    let mut start: usize = 0;
    proof {
        assert(chars@.skip(0) =~= chars@);
        assert(texts(lines@) + lines_of(chars@) =~= lines_of(chars@));
    }
    while start < chars.len()
        invariant
            start <= chars@.len(),
            chars@ == text@,
            ascii ==> is_ascii(text),
            lines_of(chars@) == texts(lines@) + lines_of(chars@.skip(start as int)),
        decreases chars@.len() - start,
    {
        let ghost rest = chars@.skip(start as int);
        let ghost done = texts(lines@);
        let mut end: usize = start;
        while end < chars.len() && chars[end] != '\n'
            invariant
                start <= end <= chars@.len(),
                forall|i: int| start <= i < end ==> chars@[i] != '\n',
            decreases chars@.len() - end,
        {
            end += 1;
        }
        proof {
            lemma_line_length(rest, end - start);
            assert(rest.take(end - start) =~= chars@.subrange(start as int, end as int));
        }
        if end == chars.len() {
            lines.push(text_between(text, ascii, start, end));
            proof {
                assert(rest =~= chars@.subrange(start as int, end as int));
                assert(texts(lines@) =~= done.push(rest));
                assert(chars@.skip(end as int).len() == 0);
                assert(done + seq![rest] =~= done.push(rest) + lines_of(chars@.skip(end as int)));
            }
            start = end;
        } else {
            let stop = if end > start && chars[end - 1] == '\r' {
                end - 1
            } else {
                end
            };
            lines.push(text_between(text, ascii, start, stop));
            proof {
                let line = without_carriage_return(rest.take(end - start));
                assert(chars@.subrange(start as int, stop as int) =~= line);
                assert(texts(lines@) =~= done.push(line));
                assert(rest.skip(end - start + 1) =~= chars@.skip(end + 1));
                assert(done + (seq![line] + lines_of(chars@.skip(end + 1))) =~= done.push(line)
                    + lines_of(chars@.skip(end + 1)));
            }
            start = end + 1;
        }
    }
    proof {
        assert(chars@.skip(start as int).len() == 0);
        assert(texts(lines@) + Seq::<Seq<char>>::empty() =~= texts(lines@));
    }
    lines
}

/// The first `n` characters of a text, or all of it where it has fewer.
pub open spec fn first_chars(text: Seq<char>, n: nat) -> Seq<char> {
    if text.len() >= n {
        text.take(n as int)
    } else {
        text
    }
}

/// Cuts `text` down to its first `n` characters.
pub fn take_chars(text: &str, n: usize) -> (head: String)
    ensures
        head@ == first_chars(text@, n as nat),
{
    if text.unicode_len() >= n {
        let head = String::from_str(text.substring_char(0, n));
        assert(text@.subrange(0, n as int) =~= text@.take(n as int));
        head
    } else {
        String::from_str(text)
    }
}

/// The texts of a list that are not empty.
pub open spec fn non_empty(list: Seq<Seq<char>>) -> Seq<Seq<char>> {
    list.filter(|t: Seq<char>| t.len() > 0)
}

/// Counts the texts of `list` that are not empty.
pub fn count_non_empty(list: &Vec<String>) -> (count: usize)
    ensures
        count == non_empty(texts(list@)).len(),
{
    let ghost all = texts(list@);
    let ghost filled = |t: Seq<char>| t.len() > 0;
    let mut count: usize = 0;
    let mut i: usize = 0;
    proof {
        reveal(Seq::filter);
        assert(non_empty(all.take(0)).len() == 0);
    }
    while i < list.len()
        invariant
            i <= list.len(),
            all == texts(list@),
            filled == |t: Seq<char>| t.len() > 0,
            count == non_empty(all.take(i as int)).len(),
            count <= i,
        decreases list.len() - i,
    {
        proof {
            all.take(i as int).lemma_filter_push(all[i as int], filled);
            assert(all.take(i + 1) =~= all.take(i as int).push(all[i as int]));
        }
        if !list[i].as_str().is_empty() {
            count += 1;
        }
        i += 1;
    }
    assert(all.take(i as int) =~= all);
    count
}

/// Whether `text` ends in `suffix`.
pub open spec fn has_suffix(text: Seq<char>, suffix: Seq<char>) -> bool {
    text.len() >= suffix.len() && text.skip(text.len() - suffix.len()) == suffix
}

/// Whether `text` ends in `suffix`.
pub fn ends_with(text: &str, suffix: &str) -> (ends: bool)
    ensures
        ends == has_suffix(text@, suffix@),
{
    let len = text.unicode_len();
    let tail = suffix.unicode_len();
    if len < tail {
        return false;
    }
    let end = text.substring_char(len - tail, len);
    assert(text@.subrange(len - tail, len as int) =~= text@.skip(len - tail));
    same_text(end, suffix)
}

/// The digit that a character writes; zero for a character that writes none.
pub open spec fn digit_value(c: char) -> nat {
    if c == '1' {
        1
    } else if c == '2' {
        2
    } else if c == '3' {
        3
    } else if c == '4' {
        4
    } else if c == '5' {
        5
    } else if c == '6' {
        6
    } else if c == '7' {
        7
    } else if c == '8' {
        8
    } else if c == '9' {
        9
    } else if c == 'a' {
        10
    } else if c == 'b' {
        11
    } else if c == 'c' {
        12
    } else if c == 'd' {
        13
    } else if c == 'e' {
        14
    } else if c == 'f' {
        15
    } else {
        0
    }
}

/// The number that a row of digits writes in base `base`.
pub open spec fn numeral_value(digits: Seq<char>, base: nat) -> nat
    decreases digits.len(),
{
    if digits.len() == 0 {
        0
    } else {
        numeral_value(digits.drop_last(), base) * base + digit_value(digits.last())
    }
}

/// `base` multiplied by itself `exp` times.
pub open spec fn power(base: nat, exp: nat) -> nat
    decreases exp,
{
    if exp == 0 {
        1
    } else {
        base * power(base, (exp - 1) as nat)
    }
}

/// A numeral writes the number that it was made from.
pub proof fn lemma_numeral_value(n: nat, base: nat)
    requires
        2 <= base <= 16,
    ensures
        numeral_value(numeral(n, base), base) == n,
    decreases n,
{
    if n < base {
        let digits = numeral(n, base);
        assert(digits.drop_last() =~= Seq::<char>::empty());
        assert(numeral_value(digits.drop_last(), base) == 0);
        assert(numeral_value(digits, base) == 0 * base + digit_value(digit_char(n)));
    } else {
        lemma_quotient_is_smaller(n, base);
        lemma_numeral_value(n / base, base);
        let rest = numeral(n / base, base);
        let digits = rest.push(digit_char(n % base));
        assert(digits.drop_last() =~= rest);
        assert(n == (n / base) * base + n % base) by (nonlinear_arith)
            requires
                base > 0,
        ;
    }
}

/// Zeros in front of a numeral do not change the number that it writes.
pub proof fn lemma_padding_keeps_value(digits: Seq<char>, width: nat, base: nat)
    ensures
        numeral_value(zero_padded(digits, width), base) == numeral_value(digits, base),
    decreases digits.len(),
{
    if digits.len() < width {
        let zeros = Seq::new((width - digits.len()) as nat, |i: int| '0');
        lemma_zeros_write_zero(zeros, base);
        lemma_value_after_zeros(zeros, digits, base);
    }
}

proof fn lemma_zeros_write_zero(zeros: Seq<char>, base: nat)
    requires
        forall|i: int| 0 <= i < zeros.len() ==> zeros[i] == '0',
    ensures
        numeral_value(zeros, base) == 0,
    decreases zeros.len(),
{
    if zeros.len() > 0 {
        lemma_zeros_write_zero(zeros.drop_last(), base);
        assert(0 * base == 0);
    }
}

proof fn lemma_value_after_zeros(zeros: Seq<char>, digits: Seq<char>, base: nat)
    requires
        numeral_value(zeros, base) == 0,
    ensures
        numeral_value(zeros + digits, base) == numeral_value(digits, base),
    decreases digits.len(),
{
    if digits.len() == 0 {
        assert(zeros + digits =~= zeros);
    } else {
        lemma_value_after_zeros(zeros, digits.drop_last(), base);
        assert((zeros + digits).drop_last() =~= zeros + digits.drop_last());
    }
}

/// A number below the `width`th power of the base has a numeral of at most
/// `width` digits, so that padding makes it exactly `width` wide.
pub proof fn lemma_numeral_width(n: nat, base: nat, width: nat)
    requires
        2 <= base <= 16,
        width >= 1,
        n < power(base, width),
    ensures
        numeral(n, base).len() <= width,
        zero_padded(numeral(n, base), width).len() == width,
    decreases width,
{
    if n >= base {
        lemma_quotient_is_smaller(n, base);
        if width == 1 {
            assert(power(base, 0) == 1);
            assert(power(base, 1) == base * power(base, 0));
            assert(base * 1 == base);
            assert(false);
        }
        let below = power(base, (width - 1) as nat);
        assert(n / base < below) by (nonlinear_arith)
            requires
                n < base * below,
                base > 0,
        ;
        lemma_numeral_width(n / base, base, (width - 1) as nat);
    }
}

} // verus!
