//! Reading the privileges of a process off what the kernel says of it.
//!
//! The harness re-executes itself as root of a new user namespace unless it is
//! root already, so it has to know which it is.

use vstd::prelude::*;

verus! {

/// Whether a character separates words: those with Unicode's `White_Space`.
pub open spec fn is_space(c: char) -> bool {
    let n = c as u32;
    ||| 0x9 <= n <= 0xd
    ||| n == 0x20
    ||| n == 0x85
    ||| n == 0xa0
    ||| n == 0x1680
    ||| 0x2000 <= n <= 0x200a
    ||| 0x2028 <= n <= 0x2029
    ||| n == 0x202f
    ||| n == 0x205f
    ||| n == 0x3000
}

/// Whether a character is a decimal digit.
pub open spec fn is_digit(c: char) -> bool {
    '0' <= c <= '9'
}

/// What follows the spaces in front.
pub open spec fn after_spaces(s: Seq<char>) -> Seq<char>
    decreases s.len(),
{
    if s.len() > 0 && is_space(s[0]) {
        after_spaces(s.skip(1))
    } else {
        s
    }
}

/// The length of the word in front.
pub open spec fn word_len(s: Seq<char>) -> nat
    decreases s.len(),
{
    if s.len() > 0 && !is_space(s[0]) {
        1 + word_len(s.skip(1))
    } else {
        0
    }
}

/// What follows the first word.
pub open spec fn after_word(s: Seq<char>) -> Seq<char> {
    let t = after_spaces(s);
    t.skip(word_len(t) as int)
}

/// The first word, empty if there is none.
pub open spec fn first_word(s: Seq<char>) -> Seq<char> {
    let t = after_spaces(s);
    t.take(word_len(t) as int)
}

/// The number that a run of digits in front of it leads to.
pub open spec fn decimal_value(s: Seq<char>) -> nat
    decreases s.len(),
{
    if s.len() == 0 {
        0
    } else {
        decimal_value(s.drop_last()) * 10 + (s.last() as u32 - '0' as u32) as nat
    }
}

/// Whether there is nothing but digits, and at least one.
pub open spec fn all_digits(s: Seq<char>) -> bool {
    s.len() > 0 && forall|i: int| 0 <= i < s.len() ==> is_digit(#[trigger] s[i])
}

/// The number a word spells, if it spells one that fits.
pub open spec fn number(word: Seq<char>) -> Option<u32> {
    let digits = if word.len() > 0 && word[0] == '+' {
        word.skip(1)
    } else {
        word
    };
    if all_digits(digits) && decimal_value(digits) <= u32::MAX {
        Some(decimal_value(digits) as u32)
    } else {
        None
    }
}

/// The length of the line in front.
pub open spec fn line_len(s: Seq<char>) -> nat
    decreases s.len(),
{
    if s.len() > 0 && s[0] != '\n' {
        1 + line_len(s.skip(1))
    } else {
        0
    }
}

/// Whether a line is the one that lists user IDs.
pub open spec fn lists_uids(line: Seq<char>) -> bool {
    line.len() >= 4 && line[0] == 'U' && line[1] == 'i' && line[2] == 'd' && line[3] == ':'
}

/// What the first line that lists user IDs holds after its label.
pub open spec fn uids(s: Seq<char>) -> Option<Seq<char>>
    decreases s.len(),
{
    if s.len() == 0 {
        None
    } else {
        let len = line_len(s) as int;
        let line = s.take(len);
        if len > s.len() {
            None
        } else if lists_uids(line) {
            Some(line.skip(4))
        } else if len < s.len() {
            uids(s.skip(len + 1))
        } else {
            None
        }
    }
}

/// The effective user ID: the second of those listed, in decimal.
pub open spec fn effective_uid_of(status: Seq<char>) -> Option<u32> {
    match uids(status) {
        Some(line) => number(first_word(after_word(line))),
        None => None,
    }
}

proof fn line_fits(s: Seq<char>)
    ensures
        line_len(s) <= s.len(),
        line_len(s) < s.len() ==> s[line_len(s) as int] == '\n',
    decreases s.len(),
{
    if s.len() > 0 && s[0] != '\n' {
        line_fits(s.skip(1));
        if line_len(s) < s.len() {
            assert(s.skip(1)[line_len(s) - 1] == s[line_len(s) as int]);
        }
    }
}

proof fn word_fits(s: Seq<char>)
    ensures
        word_len(s) <= s.len(),
    decreases s.len(),
{
    if s.len() > 0 && !is_space(s[0]) {
        word_fits(s.skip(1));
    }
}

/// Whether a character separates words.
fn separates(c: char) -> (r: bool)
    ensures
        r == is_space(c),
{
    let n: u32 = c as u32;
    match n {
        0x9..=0xd | 0x20 | 0x85 | 0xa0 | 0x1680 | 0x2000..=0x200a => true,
        0x2028 | 0x2029 | 0x202f | 0x205f | 0x3000 => true,
        _ => false,
    }
}

/// The characters of a text.
fn chars_of(text: &str) -> (r: Vec<char>)
    ensures
        r@ == text@,
{
    let mut chars: Vec<char> = Vec::new();
    for c in iter: text.chars()
        invariant
            iter.seq() == text@,
            chars@ == text@.take(iter.index()),
    {
        assert(text@.take(iter.index() + 1) =~= chars@.push(c));
        chars.push(c);
    }
    assert(text@.take(text@.len() as int) =~= text@);
    chars
}

/// Where the line that starts at `from` ends.
fn find_line_end(s: &[char], from: usize) -> (r: usize)
    requires
        from <= s@.len(),
    ensures
        from <= r <= s@.len(),
        r == from + line_len(s@.skip(from as int)),
{
    let mut i: usize = from;
    while i < s.len() && s[i] != '\n'
        invariant
            from <= i <= s@.len(),
            i + line_len(s@.skip(i as int)) == from + line_len(s@.skip(from as int)),
        decreases s@.len() - i,
    {
        assert(s@.skip(i as int).skip(1) =~= s@.skip(i + 1));
        i = i + 1;
    }
    i
}

/// Where the word at or after `from` starts.
fn skip_spaces(s: &[char], from: usize) -> (r: usize)
    requires
        from <= s@.len(),
    ensures
        from <= r <= s@.len(),
        s@.skip(r as int) == after_spaces(s@.skip(from as int)),
{
    let mut i: usize = from;
    while i < s.len() && separates(s[i])
        invariant
            from <= i <= s@.len(),
            after_spaces(s@.skip(i as int)) == after_spaces(s@.skip(from as int)),
        decreases s@.len() - i,
    {
        assert(s@.skip(i as int).skip(1) =~= s@.skip(i + 1));
        i = i + 1;
    }
    i
}

/// Where the word that starts at `from` ends.
fn skip_word(s: &[char], from: usize) -> (r: usize)
    requires
        from <= s@.len(),
    ensures
        from <= r <= s@.len(),
        r == from + word_len(s@.skip(from as int)),
{
    let mut i: usize = from;
    while i < s.len() && !separates(s[i])
        invariant
            from <= i <= s@.len(),
            i + word_len(s@.skip(i as int)) == from + word_len(s@.skip(from as int)),
        decreases s@.len() - i,
    {
        assert(s@.skip(i as int).skip(1) =~= s@.skip(i + 1));
        i = i + 1;
    }
    i
}

/// Reads the number a word spells.
fn parse_number(word: &[char]) -> (r: Option<u32>)
    ensures
        r == number(word@),
{
    let from: usize = if word.len() > 0 && word[0] == '+' {
        1
    } else {
        0
    };
    let ghost digits = word@.skip(from as int);
    assert(word@.skip(0) =~= word@);
    if from == word.len() {
        return None;
    }
    let mut value: u64 = 0;
    let mut i: usize = from;
    assert(digits.take(0) =~= Seq::empty());
    while i < word.len()
        invariant
            from <= i <= word@.len(),
            digits == word@.skip(from as int),
            digits == (if word@.len() > 0 && word@[0] == '+' {
                word@.skip(1)
            } else {
                word@
            }),
            value == decimal_value(digits.take(i - from)),
            value <= u32::MAX,
            forall|k: int| 0 <= k < i - from ==> is_digit(#[trigger] digits[k]),
        decreases word@.len() - i,
    {
        let c: char = word[i];
        let ghost at = i - from;
        assert(digits[at] == c);
        if c < '0' || c > '9' {
            assert(!is_digit(digits[at]));
            return None;
        }
        let ghost upto = digits.take(at + 1);
        assert(upto.drop_last() =~= digits.take(at));
        assert(upto.last() == c);
        value = value * 10 + (c as u32 - '0' as u32) as u64;
        if value > u32::MAX as u64 {
            proof {
                prefixes_are_no_larger(digits, at + 1);
            }
            return None;
        }
        i = i + 1;
    }
    assert(digits.take(i - from) =~= digits);
    Some(value as u32)
}

/// A run of digits spells no less than what it starts with, or is no number.
proof fn prefixes_are_no_larger(digits: Seq<char>, len: int)
    requires
        0 <= len <= digits.len(),
    ensures
        all_digits(digits) ==> decimal_value(digits.take(len)) <= decimal_value(digits),
    decreases digits.len(),
{
    if len == digits.len() {
        assert(digits.take(len) =~= digits);
    } else {
        let shorter = digits.drop_last();
        prefixes_are_no_larger(shorter, len);
        assert(shorter.take(len) =~= digits.take(len));
        if all_digits(digits) {
            assert(is_digit(digits[digits.len() - 1]));
            if shorter.len() > 0 {
                assert(all_digits(shorter)) by {
                    assert forall|i: int| 0 <= i < shorter.len() implies is_digit(
                        #[trigger] shorter[i],
                    ) by {
                        assert(is_digit(digits[i]));
                    }
                }
            } else {
                assert(digits.take(len) =~= Seq::empty());
            }
        }
    }
}

/// Reads the effective user ID out of the status the kernel gives of a process.
pub fn effective_uid(status: &str) -> (r: Option<u32>)
    ensures
        r == effective_uid_of(status@),
{
    let chars = chars_of(status);
    let text: &[char] = chars.as_slice();
    let ghost all = status@;
    let mut from: usize = 0;
    assert(all.skip(0) =~= all);
    while from < text.len()
        invariant
            all == status@,
            all == text@,
            from <= text@.len(),
            uids(all.skip(from as int)) == uids(all),
        decreases text@.len() - from,
    {
        let end: usize = find_line_end(text, from);
        let line = vstd::slice::slice_subrange(text, from, end);
        let ghost rest = all.skip(from as int);
        proof {
            line_fits(rest);
            assert(line@ =~= rest.take(line_len(rest) as int));
        }
        if line.len() >= 4 && line[0] == 'U' && line[1] == 'i' && line[2] == 'd' && line[3] == ':' {
            let listed = vstd::slice::slice_subrange(line, 4, line.len());
            assert(listed@ =~= line@.skip(4));
            assert(listed@.skip(0) =~= listed@);
            let first: usize = skip_spaces(listed, 0);
            proof {
                word_fits(listed@.skip(first as int));
            }
            let first_end: usize = skip_word(listed, first);
            assert(listed@.skip(first_end as int) =~= after_word(listed@));
            let second: usize = skip_spaces(listed, first_end);
            let second_end: usize = skip_word(listed, second);
            let word = vstd::slice::slice_subrange(listed, second, second_end);
            assert(word@ =~= first_word(after_word(listed@)));
            return parse_number(word);
        }
        if end == text.len() {
            return None;
        }
        assert(rest.skip(line_len(rest) as int + 1) =~= all.skip(end + 1));
        from = end + 1;
    }
    assert(all.skip(from as int).len() == 0);
    None
}

} // verus!
