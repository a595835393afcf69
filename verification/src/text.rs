//! Character-level helpers on strings.
//!
//! Strings are modelled by their sequence of characters (`Seq<char>`). The
//! functions here turn a string into a vector of characters, work on indices
//! into that vector, and turn the result back into a string.

use vstd::prelude::*;
use vstd::string::StringExecFns;

verus! {

/// `String::push` appends one character to the end of the string.
pub assume_specification[ std::string::String::push ](s: &mut std::string::String, ch: char)
    ensures
        final(s)@ == old(s)@.push(ch),
;

/// `==` on string slices holds exactly of slices with the same characters.
pub assume_specification[ <str as PartialEq>::eq ](a: &str, b: &str) -> (out: bool)
    ensures
        out == (a@ == b@),
;

/// The characters of `s`, in order.
pub fn chars_of(s: &str) -> (out: Vec<char>)
    ensures
        out@ == s@,
{
    let mut out: Vec<char> = Vec::new();
    for c in it: s.chars()
        invariant
            it.seq() == s@,
            out@ == s@.take(it.index() as int),
    {
        out.push(c);
    }
    out
}

/// The string made of the characters `chars[from..to]`.
pub fn string_of_range(chars: &Vec<char>, from: usize, to: usize) -> (out: String)
    requires
        from <= to <= chars.len(),
    ensures
        out@ == chars@.subrange(from as int, to as int),
{
    let mut out = String::new();
    let mut i: usize = from;
    while i < to
        invariant
            from <= i <= to <= chars.len(),
            out@ == chars@.subrange(from as int, i as int),
        decreases to - i,
    {
        out.push(chars[i]);
        i += 1;
        assert(chars@.subrange(from as int, i as int) == chars@.subrange(
            from as int,
            i - 1,
        ).push(chars@[i - 1]));
    }
    out
}

/// The string made of all of `chars`.
pub fn string_of(chars: &Vec<char>) -> (out: String)
    ensures
        out@ == chars@,
{
    let out = string_of_range(chars, 0, chars.len());
    assert(chars@.subrange(0, chars.len() as int) == chars@);
    out
}

/// The decimal digit for `d`, which is below ten.
pub open spec fn digit_char(d: nat) -> char {
    (('0' as nat) + d) as char
}

/// The decimal numeral of `n`: no sign, no leading zero, `"0"` for zero.
pub open spec fn decimal(n: nat) -> Seq<char>
    decreases n,
{
    if n < 10 {
        seq![digit_char(n)]
    } else {
        decimal(n / 10).push(digit_char(n % 10))
    }
}

/// The decimal numeral of a signed number, with `-` before a negative one.
pub open spec fn signed_decimal(i: int) -> Seq<char> {
    if i < 0 {
        seq!['-'] + decimal((-i) as nat)
    } else {
        decimal(i as nat)
    }
}

/// The decimal digit for `d`, which is below ten.
fn digit(d: u8) -> (c: char)
    requires
        d < 10,
    ensures
        c == digit_char(d as nat),
{
    (48u8 + d) as char
}

/// The decimal numeral of `n`, as `n.to_string()` writes it.
pub fn decimal_string(n: u64) -> (out: String)
    ensures
        out@ == decimal(n as nat),
{
    let mut rev: Vec<char> = Vec::new();
    let mut rest: u64 = n;
    rev.push(digit((rest % 10) as u8));
    rest = rest / 10;
    // `rev` holds, last digit first, the digits of `n` below those of `rest`.
    while rest > 0
        invariant
            rev.len() >= 1,
            decimal(n as nat) == if rest == 0 {
                rev@.reverse()
            } else {
                decimal(rest as nat) + rev@.reverse()
            },
        decreases rest,
    {
        let ghost before = rev@;
        let ghost r0 = rest;
        rev.push(digit((rest % 10) as u8));
        rest = rest / 10;
        proof {
            let d = digit_char((r0 % 10) as nat);
            assert(rev@.reverse() =~= seq![d] + before.reverse());
            if r0 < 10 {
                assert(decimal(r0 as nat) == seq![d]);
            } else {
                assert(decimal(r0 as nat) == decimal((r0 / 10) as nat).push(d));
                assert(decimal((r0 / 10) as nat).push(d) + before.reverse() =~= decimal(
                    (r0 / 10) as nat,
                ) + (seq![d] + before.reverse()));
            }
        }
    }
    let mut out = String::new();
    let mut i: usize = rev.len();
    while i > 0
        invariant
            i <= rev.len(),
            out@ == rev@.reverse().take(rev.len() - i),
        decreases i,
    {
        i -= 1;
        out.push(rev[i]);
        assert(rev@.reverse().take(rev.len() - i) =~= rev@.reverse().take(rev.len() - i - 1).push(
            rev@[i as int],
        ));
    }
    assert(rev@.reverse().take(rev.len() as int) =~= rev@.reverse());
    out
}

/// The decimal numeral of `i`, as `i.to_string()` writes it.
pub fn signed_decimal_string(i: i64) -> (out: String)
    ensures
        out@ == signed_decimal(i as int),
{
    if i < 0 {
        let magnitude: u64 = if i == i64::MIN {
            9223372036854775808u64
        } else {
            (-i) as u64
        };
        let mut out = String::new();
        out.push('-');
        let digits = decimal_string(magnitude);
        out.append(digits.as_str());
        assert(out@ =~= seq!['-'] + decimal((-i) as nat));
        out
    } else {
        decimal_string(i as u64)
    }
}

/// `items` written one after another with `sep` between neighbours.
pub open spec fn joined(items: Seq<Seq<char>>, sep: Seq<char>) -> Seq<char>
    decreases items.len(),
{
    if items.len() == 0 {
        Seq::empty()
    } else if items.len() == 1 {
        items[0]
    } else {
        joined(items.drop_last(), sep) + sep + items.last()
    }
}

/// The views of the strings of `items`.
pub open spec fn views(items: Seq<String>) -> Seq<Seq<char>> {
    items.map_values(|s: String| s@)
}

/// The views of a list with one more string are the views of the list with
/// one more view.
pub proof fn lemma_views_push(items: Seq<String>, last: String)
    ensures
        views(items.push(last)) == views(items).push(last@),
{
    assert(views(items.push(last)) =~= views(items).push(last@));
}

/// A list with one more item holds what the list held, and that item.
pub proof fn lemma_push_contains<A>(items: Seq<A>, last: A, x: A)
    ensures
        items.push(last).contains(x) <==> (items.contains(x) || x == last),
{
    let longer = items.push(last);
    if longer.contains(x) {
        let w = choose|w: int| 0 <= w < longer.len() && longer[w] == x;
        if w < items.len() {
            assert(items[w] == x);
        }
    }
    if items.contains(x) {
        let w = choose|w: int| 0 <= w < items.len() && items[w] == x;
        assert(longer[w] == x);
    }
    if x == last {
        assert(longer[items.len() as int] == x);
    }
}

/// `items` joined by `sep`, as `items.join(sep)` does.
pub fn join(items: &Vec<String>, sep: &str) -> (out: String)
    ensures
        out@ == joined(views(items@), sep@),
{
    let mut out = String::new();
    let mut i: usize = 0;
    while i < items.len()
        invariant
            i <= items.len(),
            out@ == joined(views(items@).take(i as int), sep@),
        decreases items.len() - i,
    {
        let ghost prefix = views(items@).take(i as int);
        let ghost next = views(items@).take(i + 1);
        if i > 0 {
            out.append(sep);
        }
        out.append(items[i].as_str());
        proof {
            assert(next.drop_last() =~= prefix);
            assert(next.last() == items@[i as int]@);
        }
        i += 1;
    }
    assert(views(items@).take(items.len() as int) =~= views(items@));
    out
}

/// A copy of `items`.
pub fn copy_strings(items: &Vec<String>) -> (out: Vec<String>)
    ensures
        views(out@) == views(items@),
{
    let mut out: Vec<String> = Vec::new();
    let mut i: usize = 0;
    while i < items.len()
        invariant
            i <= items.len(),
            views(out@) == views(items@).take(i as int),
        decreases items.len() - i,
    {
        let ghost before = out@;
        out.push(String::from_str(items[i].as_str()));
        i += 1;
        assert(views(out@) =~= views(before).push(items@[i - 1]@));
        assert(views(items@).take(i as int) =~= views(items@).take(i - 1).push(items@[i - 1]@));
    }
    assert(views(items@).take(items.len() as int) =~= views(items@));
    out
}

/// Whether `s` begins with `prefix`, as `s.starts_with(prefix)` tells.
pub fn starts_with(s: &str, prefix: &str) -> (out: bool)
    ensures
        out == prefix@.is_prefix_of(s@),
{
    let text = chars_of(s);
    let start = chars_of(prefix);
    begins_with(&text, 0, &start)
}

/// Whether `text` holds `part` from place `at` on.
pub open spec fn occurs_at(text: Seq<char>, at: int, part: Seq<char>) -> bool {
    0 <= at && at + part.len() <= text.len() && text.subrange(at, at + part.len()) == part
}

/// Whether `text` holds `part` from place `at` on.
pub fn begins_with(text: &Vec<char>, at: usize, part: &Vec<char>) -> (out: bool)
    ensures
        out == occurs_at(text@, at as int, part@),
{
    if at > text.len() || part.len() > text.len() - at {
        return false;
    }
    let mut i: usize = 0;
    while i < part.len()
        invariant
            i <= part.len(),
            at + part.len() <= text.len(),
            forall|e: int| 0 <= e < i ==> text@[at + e] == part@[e],
        decreases part.len() - i,
    {
        if text[at + i] != part[i] {
            assert(text@.subrange(at as int, at + part.len())[i as int] != part@[i as int]);
            return false;
        }
        i += 1;
    }
    assert(text@.subrange(at as int, at + part.len()) =~= part@);
    true
}

/// Whether `c` is white space, as `char::is_whitespace` tells: one of the
/// code points with the Unicode property `White_Space`.
pub open spec fn is_space(c: char) -> bool {
    let u = c as u32;
    ||| 0x09 <= u <= 0x0d
    ||| u == 0x20
    ||| u == 0x85
    ||| u == 0xa0
    ||| u == 0x1680
    ||| 0x2000 <= u <= 0x200a
    ||| u == 0x2028
    ||| u == 0x2029
    ||| u == 0x202f
    ||| u == 0x205f
    ||| u == 0x3000
}

/// Whether `c` is white space.
pub fn space(c: char) -> (out: bool)
    ensures
        out == is_space(c),
{
    let u = c as u32;
    (0x09 <= u && u <= 0x0d) || u == 0x20 || u == 0x85 || u == 0xa0 || u == 0x1680 || (0x2000 <= u
        && u <= 0x200a) || u == 0x2028 || u == 0x2029 || u == 0x202f || u == 0x205f || u == 0x3000
}

/// Where the part of `text[from..to]` begins that is left when the white
/// space at its front is taken away.
pub open spec fn trim_start(text: Seq<char>, from: int, to: int) -> int
    decreases to - from,
{
    if from < to && 0 <= from < text.len() && is_space(text[from]) {
        trim_start(text, from + 1, to)
    } else {
        from
    }
}

/// Where the part of `text[from..to]` ends that is left when the white space
/// at its back is taken away.
pub open spec fn trim_end(text: Seq<char>, from: int, to: int) -> int
    decreases to - from,
{
    if from < to && 0 < to <= text.len() && is_space(text[to - 1]) {
        trim_end(text, from, to - 1)
    } else {
        to
    }
}

/// `text[from..to]` without the white space at its front and at its back,
/// as `trim` leaves it.
pub open spec fn trimmed(text: Seq<char>, from: int, to: int) -> Seq<char> {
    let start = trim_start(text, from, to);
    text.subrange(start, trim_end(text, start, to))
}

/// The bounds of `text[from..to]` without the white space at its front and
/// at its back.
pub fn trim_range(text: &Vec<char>, from: usize, to: usize) -> (out: (usize, usize))
    requires
        from <= to <= text.len(),
    ensures
        out.0 == trim_start(text@, from as int, to as int),
        out.1 == trim_end(text@, out.0 as int, to as int),
        from <= out.0 <= out.1 <= to,
{
    let mut start: usize = from;
    while start < to && space(text[start])
        invariant
            from <= start <= to <= text.len(),
            trim_start(text@, from as int, to as int) == trim_start(text@, start as int, to as int),
        decreases to - start,
    {
        start += 1;
    }
    let mut end: usize = to;
    while start < end && space(text[end - 1])
        invariant
            start <= end <= to <= text.len(),
            trim_end(text@, start as int, to as int) == trim_end(text@, start as int, end as int),
        decreases end - start,
    {
        end -= 1;
    }
    (start, end)
}

/// The first place from `from` on where `text` holds `part`, if there is
/// one.
pub open spec fn first_at(text: Seq<char>, part: Seq<char>, from: int, at: int) -> bool {
    &&& from <= at
    &&& occurs_at(text, at, part)
    &&& forall|e: int| from <= e < at ==> !occurs_at(text, e, part)
}

/// The first place in `text[from..to]` where `text` holds `part` and `part`
/// ends by `to`, if there is one.
pub fn find_sub(text: &Vec<char>, part: &Vec<char>, from: usize, to: usize) -> (out: Option<usize>)
    requires
        from <= to <= text.len(),
    ensures
        match out {
            Some(at) => first_at(text@, part@, from as int, at as int) && at + part@.len() <= to,
            None => forall|e: int| from <= e && e + part@.len() <= to ==> !occurs_at(text@, e, part@),
        },
{
    if part.len() > to - from {
        return None;
    }
    let last = to - part.len();
    let mut at: usize = from;
    loop
        invariant
            from <= at <= last,
            last == to - part.len(),
            to <= text.len(),
            forall|e: int| from <= e < at ==> !occurs_at(text@, e, part@),
        decreases last - at,
    {
        if begins_with(text, at, part) {
            return Some(at);
        }
        if at == last {
            return None;
        }
        at += 1;
    }
}

/// Whether `text` holds `part` somewhere.
pub open spec fn holds_sub(text: Seq<char>, part: Seq<char>) -> bool {
    exists|at: int| occurs_at(text, at, part)
}

/// Whether `text` holds `part` somewhere, as `text.contains(part)` tells.
pub fn contains_sub(text: &Vec<char>, part: &Vec<char>) -> (out: bool)
    ensures
        out == holds_sub(text@, part@),
{
    match find_sub(text, part, 0, text.len()) {
        Some(at) => true,
        None => {
            assert forall|at: int| !occurs_at(text@, at, part@) by {}
            false
        },
    }
}

/// How many of `text[..n]` are `c`.
pub open spec fn count_of(text: Seq<char>, c: char, n: int) -> nat
    decreases n,
{
    if n <= 0 || n > text.len() {
        0
    } else if text[n - 1] == c {
        count_of(text, c, n - 1) + 1
    } else {
        count_of(text, c, n - 1)
    }
}

/// How many of `text[..n]` are `c`.
pub fn count_char(text: &Vec<char>, c: char, n: usize) -> (out: usize)
    requires
        n <= text.len(),
    ensures
        out == count_of(text@, c, n as int),
        out <= n,
{
    let mut out: usize = 0;
    let mut i: usize = 0;
    while i < n
        invariant
            i <= n <= text.len(),
            out == count_of(text@, c, i as int),
            out <= i,
        decreases n - i,
    {
        if text[i] == c {
            out += 1;
        }
        i += 1;
    }
    out
}

/// How many bytes the UTF-8 encoding of `c` takes.
pub open spec fn utf8_width(c: char) -> nat {
    let u = c as u32;
    if u < 0x80 {
        1
    } else if u < 0x800 {
        2
    } else if u < 0x10000 {
        3
    } else {
        4
    }
}

/// How many bytes the UTF-8 encoding of `text[..n]` takes.
pub open spec fn byte_length(text: Seq<char>, n: int) -> nat
    decreases n,
{
    if n <= 0 || n > text.len() {
        0
    } else {
        byte_length(text, n - 1) + utf8_width(text[n - 1])
    }
}

/// Whether `n` is the place among the characters of `text` that byte
/// `offset` of its UTF-8 encoding falls on: that of the character that
/// begins there, or of the next one where none begins there, or the number
/// of characters where `offset` is beyond the end.
pub open spec fn is_char_index(text: Seq<char>, offset: int, n: int) -> bool {
    &&& 0 <= n <= text.len()
    &&& byte_length(text, n) >= offset || n == text.len()
    &&& forall|e: int| 0 <= e < n ==> byte_length(text, e) < offset
}

/// The place among the characters of `text` that byte `offset` of its UTF-8
/// encoding falls on.
pub open spec fn char_index(text: Seq<char>, offset: int) -> int {
    choose|n: int| is_char_index(text, offset, n)
}

/// There is one place only that a byte offset falls on.
pub proof fn lemma_char_index(text: Seq<char>, offset: int, n: int)
    requires
        is_char_index(text, offset, n),
    ensures
        char_index(text, offset) == n,
{
    let m = char_index(text, offset);
    assert(is_char_index(text, offset, m));
    if m < n {
        assert(byte_length(text, m) < offset);
    }
    if n < m {
        assert(byte_length(text, n) < offset);
    }
}

/// The place among the characters of `text` that byte `offset` of its UTF-8
/// encoding falls on.
pub fn char_index_at(text: &Vec<char>, offset: usize) -> (out: usize)
    ensures
        out == char_index(text@, offset as int),
        out <= text.len(),
{
    let mut n: usize = 0;
    let mut bytes: usize = 0;
    while n < text.len() && bytes < offset
        invariant
            n <= text.len(),
            bytes == byte_length(text@, n as int) || (bytes >= offset && byte_length(
                text@,
                n as int,
            ) >= offset),
            bytes <= byte_length(text@, n as int),
            forall|e: int| 0 <= e < n ==> byte_length(text@, e) < offset,
        decreases text.len() - n,
    {
        let u = text[n] as u32;
        let width: usize = if u < 0x80 {
            1
        } else if u < 0x800 {
            2
        } else if u < 0x10000 {
            3
        } else {
            4
        };
        assert(byte_length(text@, n + 1) == byte_length(text@, n as int) + width);
        bytes = if bytes > usize::MAX - width {
            usize::MAX
        } else {
            bytes + width
        };
        n += 1;
    }
    proof {
        lemma_char_index(text@, offset as int, n as int);
    }
    n
}

/// The number that the decimal digits `digits[..n]` write.
pub open spec fn digits_value(digits: Seq<char>, n: int) -> nat
    decreases n,
{
    if n <= 0 || n > digits.len() {
        0
    } else {
        digits_value(digits, n - 1) * 10 + ((digits[n - 1] as u32 - '0' as u32) as nat)
    }
}

/// Whether every one of `digits` is one of `0` to `9`.
pub open spec fn all_digits(digits: Seq<char>) -> bool {
    forall|i: int| 0 <= i < digits.len() ==> '0' <= #[trigger] digits[i] <= '9'
}

/// The number that `text[from..to]` writes in decimal digits, as `parse`
/// reads it: nothing where the text is empty, holds anything but digits, or
/// writes a number beyond the greatest `usize`. A sign is not read.
pub fn parse_number(text: &Vec<char>, from: usize, to: usize) -> (out: Option<usize>)
    requires
        from <= to <= text.len(),
    ensures
        out is Some <==> (from < to && all_digits(text@.subrange(from as int, to as int))
            && digits_value(text@.subrange(from as int, to as int), to - from) <= usize::MAX),
        out matches Some(n) ==> n == digits_value(
            text@.subrange(from as int, to as int),
            to - from,
        ),
{
    let ghost digits = text@.subrange(from as int, to as int);
    if from == to {
        return None;
    }
    let mut value: usize = 0;
    let mut i: usize = from;
    while i < to
        invariant
            from <= i <= to <= text.len(),
            digits == text@.subrange(from as int, to as int),
            value == digits_value(digits, i - from),
            forall|e: int| 0 <= e < i - from ==> '0' <= #[trigger] digits[e] <= '9',
        decreases to - i,
    {
        let c = text[i];
        assert(digits[i - from] == c);
        if c < '0' || c > '9' {
            return None;
        }
        let d: usize = (c as u32 - '0' as u32) as usize;
        assert(digits_value(digits, i - from + 1) == digits_value(digits, i - from) * 10 + d);
        if value > (usize::MAX - d) / 10 {
            proof {
                lemma_digits_grow(digits, i - from + 1, to - from);
            }
            return None;
        }
        value = value * 10 + d;
        i += 1;
    }
    Some(value)
}

/// More digits write no smaller number.
pub proof fn lemma_digits_grow(digits: Seq<char>, n: int, m: int)
    requires
        0 <= n <= m <= digits.len(),
    ensures
        digits_value(digits, n) <= digits_value(digits, m),
    decreases m - n,
{
    if n < m {
        lemma_digits_grow(digits, n, m - 1);
    }
}

/// `text` with every occurrence of `from` replaced by `to`, as
/// `text.replace(from, to)` gives it where `from` is not empty: occurrences
/// are taken from the left and do not overlap.
pub open spec fn replaced(text: Seq<char>, from: Seq<char>, to: Seq<char>) -> Seq<char>
    decreases text.len(),
{
    if from.len() == 0 || text.len() < from.len() {
        text
    } else if occurs_at(text, 0, from) {
        to + replaced(text.skip(from.len() as int), from, to)
    } else {
        seq![text[0]] + replaced(text.skip(1), from, to)
    }
}

/// `text` with every occurrence of `from` replaced by `to`.
pub fn replace_all(text: &Vec<char>, from: &Vec<char>, to: &Vec<char>) -> (out: Vec<char>)
    ensures
        out@ == replaced(text@, from@, to@),
{
    let mut out: Vec<char> = Vec::new();
    let mut i: usize = 0;
    assert(text@.skip(0) =~= text@);
    while i < text.len()
        invariant
            i <= text.len(),
            replaced(text@, from@, to@) == out@ + replaced(text@.skip(i as int), from@, to@),
        decreases text.len() - i,
    {
        let ghost rest = text@.skip(i as int);
        let ghost before = out@;
        if from.len() == 0 || text.len() - i < from.len() {
            out.push(text[i]);
            i += 1;
            proof {
                let shorter = text@.skip(i as int);
                assert(rest =~= seq![rest[0]] + shorter);
                assert(replaced(rest, from@, to@) == rest);
                assert(replaced(shorter, from@, to@) == shorter);
                assert(out@ + shorter =~= before + rest);
            }
        } else if begins_with(text, i, from) {
            let mut k: usize = 0;
            while k < to.len()
                invariant
                    k <= to.len(),
                    out@ == before + to@.take(k as int),
                decreases to.len() - k,
            {
                out.push(to[k]);
                k += 1;
                assert(before + to@.take(k as int) =~= (before + to@.take(k - 1)).push(
                    to@[k - 1],
                ));
            }
            proof {
                assert(to@.take(to.len() as int) =~= to@);
                assert(rest.subrange(0, from@.len() as int) =~= text@.subrange(
                    i as int,
                    i + from@.len(),
                ));
                assert(occurs_at(rest, 0, from@));
                assert(rest.skip(from@.len() as int) =~= text@.skip(i + from@.len()));
                assert(out@ + replaced(text@.skip(i + from@.len()), from@, to@) =~= before + (to@
                    + replaced(rest.skip(from@.len() as int), from@, to@)));
            }
            i += from.len();
        } else {
            proof {
                assert(rest.subrange(0, from@.len() as int) =~= text@.subrange(
                    i as int,
                    i + from@.len(),
                ));
                assert(!occurs_at(rest, 0, from@));
                assert(rest.skip(1) =~= text@.skip(i + 1));
                assert((before.push(text@[i as int])) + replaced(
                    text@.skip(i + 1),
                    from@,
                    to@,
                ) =~= before + (seq![rest[0]] + replaced(rest.skip(1), from@, to@)));
            }
            out.push(text[i]);
            i += 1;
        }
    }
    proof {
        assert(text@.skip(text.len() as int) =~= Seq::<char>::empty());
        assert(out@ + Seq::<char>::empty() =~= out@);
    }
    out
}

/// Where the first `c` of `text` at or after `from` stands, or the length
/// of `text` if there is none.
pub open spec fn next_char(text: Seq<char>, c: char, from: int) -> int
    decreases text.len() - from,
{
    if from >= text.len() || from < 0 {
        text.len() as int
    } else if text[from] == c {
        from
    } else {
        next_char(text, c, from + 1)
    }
}

/// Where the first `c` of `text` at or after `from` stands, or the length
/// of `text` if there is none.
pub fn find_char(text: &Vec<char>, c: char, from: usize) -> (out: usize)
    requires
        from <= text.len(),
    ensures
        out == next_char(text@, c, from as int),
        from <= out <= text.len(),
        out < text.len() ==> text@[out as int] == c,
        forall|e: int| from <= e < out ==> text@[e] != c,
{
    let mut at: usize = from;
    while at < text.len() && text[at] != c
        invariant
            from <= at <= text.len(),
            next_char(text@, c, from as int) == next_char(text@, c, at as int),
            forall|e: int| from <= e < at ==> text@[e] != c,
        decreases text.len() - at,
    {
        at += 1;
    }
    at
}

/// Where the first line break of `text` at or after `from` stands, or the
/// length of `text` if there is none.
pub open spec fn line_break(text: Seq<char>, from: int) -> int {
    next_char(text, '\n', from)
}

/// Where the first line break of `text` at or after `from` stands, or the
/// length of `text` if there is none.
pub fn find_line_break(text: &Vec<char>, from: usize) -> (out: usize)
    requires
        from <= text.len(),
    ensures
        out == line_break(text@, from as int),
        from <= out <= text.len(),
        out < text.len() ==> text@[out as int] == '\n',
        forall|e: int| from <= e < out ==> text@[e] != '\n',
{
    find_char(text, '\n', from)
}

/// Where the line that `text` has from `from` to the line break at `stop`
/// ends, as `lines` gives it: before the break, and before a carriage return
/// that stands directly before the break. The last line, which no break
/// follows, ends where the text ends.
pub open spec fn line_end(text: Seq<char>, from: int, stop: int) -> int {
    if stop < text.len() && from < stop && text[stop - 1] == '\r' {
        stop - 1
    } else {
        stop
    }
}

/// Line `k`, counted from zero, of the lines of `text` from `from` on, or
/// the empty text if there are not so many.
pub open spec fn nth_line(text: Seq<char>, from: int, k: nat) -> Seq<char>
    decreases k,
{
    if from >= text.len() || from < 0 {
        Seq::empty()
    } else {
        let stop = line_break(text, from);
        if k == 0 {
            text.subrange(from, line_end(text, from, stop))
        } else {
            nth_line(text, stop + 1, (k - 1) as nat)
        }
    }
}

/// Line `k`, counted from zero, of `text`, or the empty text if there are
/// not so many lines.
pub fn line_of(text: &Vec<char>, k: usize) -> (out: String)
    ensures
        out@ == nth_line(text@, 0, k as nat),
{
    let mut from: usize = 0;
    let mut left: usize = k;
    loop
        invariant
            from <= text.len(),
            nth_line(text@, 0, k as nat) == nth_line(text@, from as int, left as nat),
        decreases left,
    {
        if from >= text.len() {
            return String::new();
        }
        let stop = find_line_break(text, from);
        if left == 0 {
            let end = if stop < text.len() && from < stop && text[stop - 1] == '\r' {
                stop - 1
            } else {
                stop
            };
            return string_of_range(text, from, end);
        }
        if stop >= text.len() {
            assert(nth_line(text@, stop + 1, (left - 1) as nat) =~= Seq::<char>::empty());
            return String::new();
        }
        from = stop + 1;
        left -= 1;
    }
}

/// Where `text[..to]` ends once every `c` at its end is taken away.
pub open spec fn stripped_end(text: Seq<char>, c: char, to: int) -> int
    decreases to,
{
    if 0 < to <= text.len() && text[to - 1] == c {
        stripped_end(text, c, to - 1)
    } else {
        to
    }
}

/// Where `text[from..to]` ends once every `c` at its end is taken away.
pub fn strip_end(text: &Vec<char>, c: char, from: usize, to: usize) -> (out: usize)
    requires
        from <= to <= text.len(),
    ensures
        out == stripped_end(text@.subrange(from as int, to as int), c, to - from) + from,
        from <= out <= to,
{
    let ghost part = text@.subrange(from as int, to as int);
    let mut end: usize = to;
    while end > from && text[end - 1] == c
        invariant
            from <= end <= to <= text.len(),
            part == text@.subrange(from as int, to as int),
            stripped_end(part, c, to - from) == stripped_end(part, c, end - from),
        decreases end - from,
    {
        assert(part[end - 1 - from] == text@[end - 1]);
        end -= 1;
    }
    proof {
        if end > from {
            assert(part[end - 1 - from] == text@[end - 1]);
        }
    }
    end
}

/// The least number of single-character insertions, deletions and
/// replacements that turn `a[..i]` into `b[..j]`.
pub open spec fn edit_distance(a: Seq<char>, b: Seq<char>, i: int, j: int) -> nat
    decreases
            (if i > 0 {
                i
            } else {
                0
            }) + (if j > 0 {
                j
            } else {
                0
            }),
{
    if i <= 0 {
        if j > 0 {
            j as nat
        } else {
            0
        }
    } else if j <= 0 {
        i as nat
    } else {
        let cost: nat = if a[i - 1] == b[j - 1] {
            0
        } else {
            1
        };
        let delete = edit_distance(a, b, i - 1, j) + 1;
        let insert = edit_distance(a, b, i, j - 1) + 1;
        let change = edit_distance(a, b, i - 1, j - 1) + cost;
        if delete <= insert && delete <= change {
            delete
        } else if insert <= change {
            insert
        } else {
            change
        }
    }
}

/// The distance is at most the length of the longer text.
pub proof fn lemma_edit_distance_bound(a: Seq<char>, b: Seq<char>, i: int, j: int)
    requires
        0 <= i,
        0 <= j,
    ensures
        edit_distance(a, b, i, j) <= if i >= j {
            i
        } else {
            j
        },
    decreases i + j,
{
    if i > 0 && j > 0 {
        lemma_edit_distance_bound(a, b, i - 1, j - 1);
    }
}

/// The least number of single-character insertions, deletions and
/// replacements that turn `a` into `b`.
pub fn levenshtein_chars(a: &Vec<char>, b: &Vec<char>) -> (out: usize)
    ensures
        out == edit_distance(a@, b@, a@.len() as int, b@.len() as int),
{
    let m = a.len();
    let n = b.len();
    let mut prev: Vec<usize> = Vec::new();
    let mut j: usize = 0;
    prev.push(0);
    while j < n
        invariant
            j <= n,
            prev@.len() == j + 1,
            forall|e: int| 0 <= e <= j ==> #[trigger] prev@[e] == edit_distance(a@, b@, 0, e),
        decreases n - j,
    {
        j += 1;
        prev.push(j);
    }
    let mut i: usize = 0;
    while i < m
        invariant
            i <= m,
            m == a@.len(),
            n == b@.len(),
            prev@.len() == n + 1,
            forall|e: int| 0 <= e <= n ==> #[trigger] prev@[e] == edit_distance(a@, b@, i as int, e),
        decreases m - i,
    {
        let mut cur: Vec<usize> = Vec::new();
        cur.push(i + 1);
        let mut j: usize = 0;
        while j < n
            invariant
                j <= n,
                i < m,
                m == a@.len(),
                n == b@.len(),
                prev@.len() == n + 1,
                cur@.len() == j + 1,
                forall|e: int|
                    0 <= e <= n ==> #[trigger] prev@[e] == edit_distance(a@, b@, i as int, e),
                forall|e: int|
                    0 <= e <= j ==> #[trigger] cur@[e] == edit_distance(a@, b@, i + 1, e),
            decreases n - j,
        {
            proof {
                lemma_edit_distance_bound(a@, b@, i as int, j as int);
                lemma_edit_distance_bound(a@, b@, i + 1, j + 1);
            }
            let cost: usize = if a[i] == b[j] {
                0
            } else {
                1
            };
            let change = prev[j] + cost;
            let best = if prev[j + 1] <= cur[j] {
                prev[j + 1]
            } else {
                cur[j]
            };
            let value = if best < change {
                best + 1
            } else {
                change
            };
            cur.push(value);
            j += 1;
        }
        prev = cur;
        i += 1;
    }
    prev[n]
}

/// A list that holds `text` and nothing else.
pub fn single(text: String) -> (out: Vec<String>)
    ensures
        views(out@) == seq![text@],
{
    let mut out: Vec<String> = Vec::new();
    out.push(text);
    assert(views(out@) =~= seq![text@]);
    out
}

} // verus!
