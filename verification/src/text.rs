//! Small verified helpers on text.

use vstd::prelude::*;
use vstd::string::*;

verus! {

/// Whether two pieces of text hold the same characters.
pub fn same(a: &str, b: &str) -> (r: bool)
    ensures
        r == (a@ == b@),
{
    a.to_owned() == b.to_owned()
}

/// An owned copy of a piece of text.
pub fn owned(s: &str) -> (r: String)
    ensures
        r@ == s@,
{
    s.to_owned()
}

/// The two pieces of text one after the other.
pub fn join(a: &str, b: &str) -> (r: String)
    ensures
        r@ == a@ + b@,
{
    let mut r = a.to_owned();
    r.append(b);
    r
}

/// The place of the first `c` at or after `from`.
pub open spec fn first_from(s: Seq<char>, c: char, from: int) -> Option<int>
    decreases s.len() - from,
{
    if from < 0 || from >= s.len() {
        None
    } else if s[from] == c {
        Some(from)
    } else {
        first_from(s, c, from + 1)
    }
}

/// The place of the first `c`.
pub open spec fn first_of(s: Seq<char>, c: char) -> Option<int> {
    first_from(s, c, 0)
}

/// The place of the last `c` before `upto`.
pub open spec fn last_before(s: Seq<char>, c: char, upto: int) -> Option<int>
    decreases upto,
{
    if upto <= 0 || upto > s.len() {
        None
    } else if s[upto - 1] == c {
        Some(upto - 1)
    } else {
        last_before(s, c, upto - 1)
    }
}

/// The place of the last `c`.
pub open spec fn last_of(s: Seq<char>, c: char) -> Option<int> {
    last_before(s, c, s.len() as int)
}

/// Finds the first `c` in a text, counting characters.
pub fn find_char(s: &str, c: char) -> (r: Option<usize>)
    ensures
        match r {
            Some(i) => first_of(s@, c) == Some(i as int) && i < s@.len() && s@[i as int] == c,
            None => first_of(s@, c) is None,
        },
{
    let n = s.unicode_len();
    let mut i: usize = 0;
    while i < n
        invariant
            i <= n,
            n == s@.len(),
            first_of(s@, c) == first_from(s@, c, i as int),
        decreases n - i,
    {
        if s.get_char(i) == c {
            return Some(i);
        }
        i += 1;
    }
    None
}

/// Finds the last `c` in a text, counting characters.
pub fn rfind_char(s: &str, c: char) -> (r: Option<usize>)
    ensures
        match r {
            Some(i) => last_of(s@, c) == Some(i as int) && i < s@.len() && s@[i as int] == c,
            None => last_of(s@, c) is None,
        },
{
    let n = s.unicode_len();
    let mut i: usize = n;
    while i > 0
        invariant
            i <= n,
            n == s@.len(),
            last_of(s@, c) == last_before(s@, c, i as int),
        decreases i,
    {
        if s.get_char(i - 1) == c {
            return Some(i - 1);
        }
        i -= 1;
    }
    None
}

/// The characters of a text from one place up to another.
pub fn slice(s: &str, from: usize, to: usize) -> (r: String)
    requires
        from <= to <= s@.len(),
    ensures
        r@ == s@.subrange(from as int, to as int),
{
    s.substring_char(from, to).to_owned()
}

/// Whether a character is white space.
pub open spec fn is_space(c: char) -> bool {
    c == ' ' || c == '\n' || c == '\t' || c == '\r'
}

/// How many characters of white space a text begins with, looking from
/// `from` on.
pub open spec fn leading_space(s: Seq<char>, from: int) -> int
    decreases s.len() - from,
{
    if from < 0 || from >= s.len() || !is_space(s[from]) {
        from
    } else {
        leading_space(s, from + 1)
    }
}

/// Where the white space begins that a text ends with, looking at the
/// characters before `upto`.
pub open spec fn trailing_space(s: Seq<char>, upto: int, least: int) -> int
    decreases upto,
{
    if upto <= least || upto <= 0 || upto > s.len() || !is_space(s[upto - 1]) {
        upto
    } else {
        trailing_space(s, upto - 1, least)
    }
}

/// A text without the white space around it.
pub open spec fn trimmed(s: Seq<char>) -> Seq<char> {
    let start = if leading_space(s, 0) <= s.len() {
        leading_space(s, 0)
    } else {
        s.len() as int
    };
    let end = trailing_space(s, s.len() as int, start);
    if 0 <= start <= end <= s.len() {
        s.subrange(start, end)
    } else {
        s
    }
}

/// The white-space test on one character.
pub fn space(c: char) -> (r: bool)
    ensures
        r == is_space(c),
{
    c == ' ' || c == '\n' || c == '\t' || c == '\r'
}

/// Removes the white space around a text.
pub fn trim(s: &str) -> (r: String)
    ensures
        r@ == trimmed(s@),
{
    let n = s.unicode_len();
    let mut start: usize = 0;
    while start < n && space(s.get_char(start))
        invariant
            start <= n,
            n == s@.len(),
            leading_space(s@, 0) == leading_space(s@, start as int),
        decreases n - start,
    {
        start += 1;
    }
    let mut end: usize = n;
    while end > start && space(s.get_char(end - 1))
        invariant
            start <= end <= n,
            n == s@.len(),
            trailing_space(s@, n as int, start as int) == trailing_space(
                s@,
                end as int,
                start as int,
            ),
        decreases end,
    {
        end -= 1;
    }
    slice(s, start, end)
}

/// A text without the one character `c` at its end, if it ends so.
pub open spec fn without_last(s: Seq<char>, c: char) -> Seq<char> {
    if s.len() > 0 && s.last() == c {
        s.drop_last()
    } else {
        s
    }
}

/// A text without the one character `c` at its start, if it starts so.
pub open spec fn without_first(s: Seq<char>, c: char) -> Seq<char> {
    if s.len() > 0 && s[0] == c {
        s.drop_first()
    } else {
        s
    }
}

/// Removes one `c` from the end of a text that ends with it.
pub fn strip_last(s: &str, c: char) -> (r: String)
    ensures
        r@ == without_last(s@, c),
{
    let n = s.unicode_len();
    if n > 0 && s.get_char(n - 1) == c {
        slice(s, 0, n - 1)
    } else {
        let r = s.to_owned();
        r
    }
}

/// Removes one `c` from the start of a text that starts with it.
pub fn strip_first(s: &str, c: char) -> (r: String)
    ensures
        r@ == without_first(s@, c),
{
    let n = s.unicode_len();
    if n > 0 && s.get_char(0) == c {
        slice(s, 1, n)
    } else {
        let r = s.to_owned();
        r
    }
}

/// Whether a text ends with the character `c`.
pub fn ends_with(s: &str, c: char) -> (r: bool)
    ensures
        r == (s@.len() > 0 && s@.last() == c),
{
    let n = s.unicode_len();
    n > 0 && s.get_char(n - 1) == c
}

/// Whether a text begins with another.
pub fn starts_with(s: &str, head: &str) -> (r: bool)
    ensures
        r == head@.is_prefix_of(s@),
{
    let n = s.unicode_len();
    let m = head.unicode_len();
    if m > n {
        return false;
    }
    let mut i: usize = 0;
    while i < m
        invariant
            i <= m <= n,
            n == s@.len(),
            m == head@.len(),
            forall|j: int| 0 <= j < i ==> s@[j] == head@[j],
        decreases m - i,
    {
        if s.get_char(i) != head.get_char(i) {
            return false;
        }
        i += 1;
    }
    assert(s@.subrange(0, m as int) =~= head@);
    true
}

/// The digit that stands for a number below ten.
pub open spec fn digit(d: nat) -> Seq<char> {
    if d == 0 {
        "0"@
    } else if d == 1 {
        "1"@
    } else if d == 2 {
        "2"@
    } else if d == 3 {
        "3"@
    } else if d == 4 {
        "4"@
    } else if d == 5 {
        "5"@
    } else if d == 6 {
        "6"@
    } else if d == 7 {
        "7"@
    } else if d == 8 {
        "8"@
    } else {
        "9"@
    }
}

/// A number written in decimal.
pub open spec fn decimal(n: nat) -> Seq<char>
    decreases n,
{
    if n < 10 {
        digit(n)
    } else {
        decimal(n / 10) + digit(n % 10)
    }
}

/// The digit that stands for a number below ten.
pub(crate) fn digit_text(d: usize) -> (r: &'static str)
    requires
        d < 10,
    ensures
        r@ == digit(d as nat),
{
    if d == 0 {
        "0"
    } else if d == 1 {
        "1"
    } else if d == 2 {
        "2"
    } else if d == 3 {
        "3"
    } else if d == 4 {
        "4"
    } else if d == 5 {
        "5"
    } else if d == 6 {
        "6"
    } else if d == 7 {
        "7"
    } else if d == 8 {
        "8"
    } else {
        "9"
    }
}

/// Writes a number in decimal.
pub fn decimal_text(n: usize) -> (r: String)
    ensures
        r@ == decimal(n as nat),
    decreases n,
{
    if n < 10 {
        digit_text(n).to_owned()
    } else {
        let mut r = decimal_text(n / 10);
        r.append(digit_text(n % 10));
        r
    }
}

} // verus!
