//! Plain text: decimal numbers, and lists of words.

use vstd::prelude::*;
use vstd::string::*;

verus! {

/// The decimal digit for a number below ten.
pub open spec fn digit_char(d: int) -> char {
    if d == 0 {
        '0'
    } else if d == 1 {
        '1'
    } else if d == 2 {
        '2'
    } else if d == 3 {
        '3'
    } else if d == 4 {
        '4'
    } else if d == 5 {
        '5'
    } else if d == 6 {
        '6'
    } else if d == 7 {
        '7'
    } else if d == 8 {
        '8'
    } else {
        '9'
    }
}

/// A number in decimal, without leading zeros.
pub open spec fn decimal_chars(n: nat) -> Seq<char>
    decreases n,
{
    if n < 10 {
        seq![digit_char(n as int)]
    } else {
        decimal_chars(n / 10).push(digit_char((n % 10) as int))
    }
}

/// The decimal digit for a number below ten.
fn digit(d: u64) -> (r: &'static str)
    requires
        d < 10,
    ensures
        r@ == seq![digit_char(d as int)],
{
    proof {
        reveal_strlit("0");
        reveal_strlit("1");
        reveal_strlit("2");
        reveal_strlit("3");
        reveal_strlit("4");
        reveal_strlit("5");
        reveal_strlit("6");
        reveal_strlit("7");
        reveal_strlit("8");
        reveal_strlit("9");
    }
    let r = if d == 0 {
        "0"
    } else if d == 1 {
        "1"
    } else if d == 2 {
        "2"
    } else if d == 3 {
        "3"
    } else if d == 4 {
        "4"
    } else if d == 5 {
        "5"
    } else if d == 6 {
        "6"
    } else if d == 7 {
        "7"
    } else if d == 8 {
        "8"
    } else {
        "9"
    };
    assert(r@ =~= seq![digit_char(d as int)]);
    r
}

/// Writes a number in decimal.
pub fn decimal(n: u64) -> (r: String)
    ensures
        r@ == decimal_chars(n as nat),
    decreases n,
{
    if n < 10 {
        String::from_str(digit(n))
    } else {
        let mut r = decimal(n / 10);
        r.append(digit(n % 10));
        assert(r@ =~= decimal_chars((n / 10) as nat).push(digit_char((n % 10) as int)));
        r
    }
}

/// What a list of words says.
pub open spec fn texts(words: Seq<String>) -> Seq<Seq<char>> {
    words.map_values(|word: String| word@)
}

/// What a list of borrowed words says.
pub open spec fn borrowed_texts(words: Seq<&str>) -> Seq<Seq<char>> {
    words.map_values(|word: &str| word@)
}

/// A list of words of its own.
pub fn words(list: &[&str]) -> (r: Vec<String>)
    ensures
        texts(r@) == borrowed_texts(list@),
{
    let mut r: Vec<String> = Vec::new();
    let mut i: usize = 0;
    while i < list.len()
        invariant
            i <= list@.len(),
            r@.len() == i,
            forall|k: int| 0 <= k < i ==> (#[trigger] r@[k])@ == list@[k]@,
        decreases list@.len() - i,
    {
        r.push(String::from_str(list[i]));
        i = i + 1;
    }
    assert(texts(r@) =~= borrowed_texts(list@));
    r
}

/// Appends one list of words to another.
pub fn append_words(list: &mut Vec<String>, more: Vec<String>)
    ensures
        texts(final(list)@) == texts(old(list)@) + texts(more@),
{
    let ghost before = list@;
    let mut more = more;
    let ghost added = more@;
    list.append(&mut more);
    assert(texts(list@) =~= texts(before) + texts(added));
}

/// Two texts one after the other.
pub fn join(a: &str, b: &str) -> (r: String)
    ensures
        r@ == a@ + b@,
{
    let mut r = String::from_str(a);
    r.append(b);
    r
}

/// A text followed by a number.
pub fn labelled(label: &str, n: u64) -> (r: String)
    ensures
        r@ == label@ + decimal_chars(n as nat),
{
    let number = decimal(n);
    join(label, number.as_str())
}

/// Different numbers are written differently.
pub proof fn numbers_are_told_apart(a: nat, b: nat)
    requires
        decimal_chars(a) == decimal_chars(b),
    ensures
        a == b,
    decreases a,
{
    let x = decimal_chars(a);
    let y = decimal_chars(b);
    assert(x.last() == digit_char((a % 10) as int));
    assert(y.last() == digit_char((b % 10) as int));
    if a >= 10 && b >= 10 {
        assert(x.drop_last() =~= decimal_chars(a / 10));
        assert(y.drop_last() =~= decimal_chars(b / 10));
        numbers_are_told_apart(a / 10, b / 10);
    } else if a >= 10 {
        decimals_are_not_empty(a / 10);
    } else if b >= 10 {
        decimals_are_not_empty(b / 10);
    }
}

/// A number has at least one digit.
proof fn decimals_are_not_empty(n: nat)
    ensures
        decimal_chars(n).len() > 0,
{
}

} // verus!
