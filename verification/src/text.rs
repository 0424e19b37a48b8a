//! Characters of a text and its first whitespace-separated word.

use vstd::prelude::*;
use vstd::string::{StrSliceExecFns, StringExecFns};

verus! {

/// Whether `c` is white space in the sense of Unicode's `White_Space` property.
pub open spec fn is_whitespace(c: char) -> bool {
    let u = c as u32;
    ||| 0x09 <= u <= 0x0D
    ||| u == 0x20
    ||| u == 0x85
    ||| u == 0xA0
    ||| u == 0x1680
    ||| 0x2000 <= u <= 0x200A
    ||| u == 0x2028
    ||| u == 0x2029
    ||| u == 0x202F
    ||| u == 0x205F
    ||| u == 0x3000
}

/// Where the run of white space that starts at `from` ends.
pub open spec fn blank_end(s: Seq<char>, from: int) -> int
    decreases s.len() - from,
{
    if 0 <= from < s.len() && is_whitespace(s[from]) {
        blank_end(s, from + 1)
    } else {
        from
    }
}

/// Where the run of characters other than white space that starts at `from` ends.
pub open spec fn word_end(s: Seq<char>, from: int) -> int
    decreases s.len() - from,
{
    if 0 <= from < s.len() && !is_whitespace(s[from]) {
        word_end(s, from + 1)
    } else {
        from
    }
}

/// The first whitespace-separated word of `s`; empty where `s` holds nothing
/// but white space.
pub open spec fn first_word(s: Seq<char>) -> Seq<char> {
    let start = blank_end(s, 0);
    s.subrange(start, word_end(s, start))
}

/// A run of white space ends inside the text, and holds white space only.
pub proof fn lemma_blank_end(s: Seq<char>, from: int)
    requires
        0 <= from <= s.len(),
    ensures
        from <= blank_end(s, from) <= s.len(),
        forall|i: int| from <= i < blank_end(s, from) ==> is_whitespace(#[trigger] s[i]),
        blank_end(s, from) < s.len() ==> !is_whitespace(s[blank_end(s, from)]),
    decreases s.len() - from,
{
    if from < s.len() && is_whitespace(s[from]) {
        lemma_blank_end(s, from + 1);
    }
}

/// A word ends inside the text, holds no white space, and is followed by
/// white space or by nothing.
pub proof fn lemma_word_end(s: Seq<char>, from: int)
    requires
        0 <= from <= s.len(),
    ensures
        from <= word_end(s, from) <= s.len(),
        forall|i: int| from <= i < word_end(s, from) ==> !is_whitespace(#[trigger] s[i]),
        word_end(s, from) < s.len() ==> is_whitespace(s[word_end(s, from)]),
    decreases s.len() - from,
{
    if from < s.len() && !is_whitespace(s[from]) {
        lemma_word_end(s, from + 1);
    }
}

/// The first word is empty exactly where the text holds white space only.
pub proof fn lemma_first_word_empty(s: Seq<char>)
    ensures
        first_word(s).len() == 0 <==> (forall|i: int| 0 <= i < s.len() ==> is_whitespace(#[trigger] s[i])),
{
    lemma_blank_end(s, 0);
    let start = blank_end(s, 0);
    lemma_word_end(s, start);
    if start < s.len() {
        assert(!is_whitespace(s[start]));
        assert(word_end(s, start) == word_end(s, start + 1));
        lemma_word_end(s, start + 1);
    }
}

/// Whether `c` is white space.
pub fn is_space(c: char) -> (r: bool)
    ensures
        r == is_whitespace(c),
{
    let u: u32 = c as u32;
    (0x09 <= u && u <= 0x0D) || u == 0x20 || u == 0x85 || u == 0xA0 || u == 0x1680 || (0x2000 <= u
        && u <= 0x200A) || u == 0x2028 || u == 0x2029 || u == 0x202F || u == 0x205F || u == 0x3000
}

/// The characters of `s`, in order.
pub fn chars_of(s: &str) -> (v: Vec<char>)
    ensures
        v@ == s@,
{
    let mut v: Vec<char> = Vec::new();
    for c in it: s.chars()
        invariant
            it.seq() == s@,
            v@ == it.seq().take(it.index()),
    {
        v.push(c);
    }
    v
}

/// The bounds of the first word of `s`: it is `s[start..end]`.
pub fn first_word_bounds(s: &[char]) -> (r: (usize, usize))
    ensures
        r.0 == blank_end(s@, 0),
        r.1 == word_end(s@, r.0 as int),
        r.0 <= r.1 <= s.len(),
        s@.subrange(r.0 as int, r.1 as int) == first_word(s@),
{
    let n = s.len();
    let mut start: usize = 0;
    while start < n && is_space(s[start])
        invariant
            n == s.len(),
            start <= n,
            blank_end(s@, 0) == blank_end(s@, start as int),
        decreases n - start,
    {
        start += 1;
    }
    let mut end: usize = start;
    while end < n && !is_space(s[end])
        invariant
            n == s.len(),
            start <= end <= n,
            word_end(s@, start as int) == word_end(s@, end as int),
        decreases n - end,
    {
        end += 1;
    }
    (start, end)
}

/// The first whitespace-separated word of `content`; `None` where it holds
/// nothing but white space.
pub fn first_word_of<'a>(content: &'a str) -> (word: Option<&'a str>)
    ensures
        match word {
            Some(w) => w@ == first_word(content@) && w@.len() > 0,
            None => first_word(content@).len() == 0,
        },
        word is None <==> (forall|i: int|
            0 <= i < content@.len() ==> is_whitespace(#[trigger] content@[i])),
{
    proof {
        lemma_first_word_empty(content@);
    }
    let chars = chars_of(content);
    let (start, end) = first_word_bounds(chars.as_slice());
    if start == end {
        None
    } else {
        Some(content.substring_char(start, end))
    }
}

/// Whether `a` and `b` hold the same characters.
pub fn same_text(a: &str, b: &str) -> (r: bool)
    ensures
        r == (a@ == b@),
{
    let x = chars_of(a);
    let y = chars_of(b);
    if x.len() != y.len() {
        return false;
    }
    let mut i: usize = 0;
    while i < x.len()
        invariant
            x@ == a@,
            y@ == b@,
            x.len() == y.len(),
            i <= x.len(),
            forall|k: int| 0 <= k < i ==> x@[k] == y@[k],
        decreases x.len() - i,
    {
        if x[i] != y[i] {
            return false;
        }
        i += 1;
    }
    assert(x@ =~= y@);
    true
}

/// The character that stands for the digit `d`.
pub open spec fn digit_char(d: nat) -> char {
    if d == 0 {
        '0'
    } else if d == 1 {
        '1'
    } else if d == 2 {
        '2'
    } else if d == 3 {
        '3'
    } else if d == 4 {
        '4'
    } else if d == 5 {
        '5'
    } else if d == 6 {
        '6'
    } else if d == 7 {
        '7'
    } else if d == 8 {
        '8'
    } else {
        '9'
    }
}

/// The decimal numeral of `n`, without leading zeros.
pub open spec fn decimal(n: nat) -> Seq<char>
    decreases n,
{
    if n < 10 {
        seq![digit_char(n)]
    } else {
        decimal(n / 10).push(digit_char(n % 10))
    }
}

/// The numeral of the single digit `d`.
fn digit_text(d: u32) -> (s: &'static str)
    requires
        d < 10,
    ensures
        s@ == seq![digit_char(d as nat)],
{
    proof {
        reveal_strlit("0");
        reveal_strlit("1");
        reveal_strlit("2");
        reveal_strlit("3");
        reveal_strlit("4");
        reveal_strlit("5");
        reveal_strlit("6");
        reveal_strlit("7");
        reveal_strlit("8");
        reveal_strlit("9");
    }
    let s = match d {
        0 => "0",
        1 => "1",
        2 => "2",
        3 => "3",
        4 => "4",
        5 => "5",
        6 => "6",
        7 => "7",
        8 => "8",
        _ => "9",
    };
    assert(s@ =~= seq![digit_char(d as nat)]);
    s
}

/// The decimal numeral of `n`.
pub fn decimal_text(n: u32) -> (s: String)
    ensures
        s@ == decimal(n as nat),
    decreases n,
{
    if n < 10 {
        digit_text(n).to_owned()
    } else {
        let mut s = decimal_text(n / 10);
        s.append(digit_text(n % 10));
        assert(s@ =~= decimal(n as nat));
        s
    }
}

} // verus!
