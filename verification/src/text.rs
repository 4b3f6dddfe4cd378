//! Text helpers: decimal numbers, joining, searching and comparing.
//!
//! A `str` or `String` is modelled by the sequence of its characters, and a
//! list of strings by the sequence of those sequences.
use vstd::prelude::*;
use vstd::string::*;

verus! {

/// What a list of strings says.
pub open spec fn texts(list: Seq<String>) -> Seq<Seq<char>> {
    list.map_values(|s: String| s@)
}

/// What an optional string says.
pub open spec fn optional_text(s: Option<String>) -> Option<Seq<char>> {
    match s {
        Some(t) => Some(t@),
        None => None,
    }
}

/// The decimal digit for a number below ten.
pub open spec fn digit_char(n: nat) -> char {
    (n + 48) as char
}

/// A natural number in decimal, without leading zeros.
pub open spec fn decimal(n: nat) -> Seq<char>
    decreases n,
{
    if n < 10 {
        seq![digit_char(n)]
    } else {
        decimal(n / 10).push(digit_char(n % 10))
    }
}

/// An integer in decimal, with a leading minus sign when it is negative.
pub open spec fn signed_decimal(n: int) -> Seq<char> {
    if n < 0 {
        seq!['-'] + decimal((-n) as nat)
    } else {
        decimal(n as nat)
    }
}

/// All parts in order, with `sep` between each two neighbours.
pub open spec fn joined(parts: Seq<Seq<char>>, sep: Seq<char>) -> Seq<char>
    decreases parts.len(),
{
    if parts.len() == 0 {
        Seq::empty()
    } else if parts.len() == 1 {
        parts[0]
    } else {
        parts[0] + sep + joined(parts.skip(1), sep)
    }
}

/// The position of the first `c` in `s`, or the length of `s` when there is none.
pub open spec fn first_index(s: Seq<char>, c: char) -> int
    decreases s.len(),
{
    if s.len() == 0 || s[0] == c {
        0
    } else {
        1 + first_index(s.skip(1), c)
    }
}

/// `first_index` is within bounds, nothing before it is `c`, and it holds `c`
/// unless it is the length.
pub proof fn lemma_first_index(s: Seq<char>, c: char)
    ensures
        0 <= first_index(s, c) <= s.len(),
        forall|i: int| 0 <= i < first_index(s, c) ==> s[i] != c,
        first_index(s, c) < s.len() ==> s[first_index(s, c)] == c,
    decreases s.len(),
{
    if s.len() > 0 && s[0] != c {
        let rest = s.skip(1);
        lemma_first_index(rest, c);
        assert forall|i: int| 0 <= i < first_index(s, c) implies s[i] != c by {
            if i > 0 {
                assert(s[i] == rest[i - 1]);
            }
        }
        if first_index(s, c) < s.len() {
            assert(s[first_index(s, c)] == rest[first_index(rest, c)]);
        }
    }
}

/// A position that holds `c`, with no `c` before it, is the first index.
pub proof fn lemma_first_index_unique(s: Seq<char>, c: char, at: int)
    requires
        0 <= at <= s.len(),
        forall|i: int| 0 <= i < at ==> s[i] != c,
        at < s.len() ==> s[at] == c,
    ensures
        first_index(s, c) == at,
{
    lemma_first_index(s, c);
    let k = first_index(s, c);
    if k < at {
        assert(s[k] != c);
    }
    if at < k {
        assert(s[at] != c);
    }
}

/// The digit `d` as a string.
fn digit_text(d: u64) -> (s: &'static str)
    requires
        d < 10,
    ensures
        s@ == seq![digit_char(d as nat)],
{
    proof {
        reveal_strlit("0");
        reveal_strlit("1");
        reveal_strlit("2");
        reveal_strlit("3");
        reveal_strlit("4");
        reveal_strlit("5");
        reveal_strlit("6");
        reveal_strlit("7");
        reveal_strlit("8");
        reveal_strlit("9");
    }
    if d == 0 {
        "0"
    } else if d == 1 {
        "1"
    } else if d == 2 {
        "2"
    } else if d == 3 {
        "3"
    } else if d == 4 {
        "4"
    } else if d == 5 {
        "5"
    } else if d == 6 {
        "6"
    } else if d == 7 {
        "7"
    } else if d == 8 {
        "8"
    } else {
        "9"
    }
}

/// Writes a natural number in decimal.
pub(crate) fn u64_text(n: u64) -> (s: String)
    ensures
        s@ == decimal(n as nat),
{
    let mut head: u64 = n;
    let mut tail: String = String::new();
    while head >= 10
        invariant
            decimal(n as nat) == decimal(head as nat) + tail@,
        decreases head,
    {
        let ghost before = tail@;
        let ghost high = decimal((head / 10) as nat);
        tail = digit_text(head % 10).to_owned().concat(tail.as_str());
        assert(decimal(head as nat) + before == high + tail@);
        head = head / 10;
    }
    digit_text(head).to_owned().concat(tail.as_str())
}

/// Writes an integer in decimal.
pub(crate) fn i64_text(n: i64) -> (s: String)
    ensures
        s@ == signed_decimal(n as int),
{
    if n >= 0 {
        u64_text(n as u64)
    } else {
        let size: u64 = if n == i64::MIN {
            9_223_372_036_854_775_808
        } else {
            (-n) as u64
        };
        let digits = u64_text(size);
        proof {
            reveal_strlit("-");
        }
        assert("-"@ =~= seq!['-']);
        "-".to_owned().concat(digits.as_str())
    }
}

/// Joins the strings of a list with a separator.
pub(crate) fn join(list: &Vec<String>, sep: &str) -> (s: String)
    ensures
        s@ == joined(texts(list@), sep@),
{
    if list.len() == 0 {
        return String::new();
    }
    let mut i: usize = list.len() - 1;
    let mut out: String = list[i].clone();
    assert(texts(list@).skip(i as int) =~= seq![list@[i as int]@]);
    while i > 0
        invariant
            i < list.len(),
            out@ == joined(texts(list@).skip(i as int), sep@),
        decreases i,
    {
        let ghost rest = texts(list@).skip(i as int);
        i = i - 1;
        let ghost all = texts(list@).skip(i as int);
        assert(all.skip(1) =~= rest);
        assert(all[0] == list@[i as int]@);
        out = list[i].clone().concat(sep).concat(out.as_str());
    }
    assert(texts(list@).skip(0) =~= texts(list@));
    out
}

/// Whether two strings are the same text.
pub(crate) fn same_text(a: &str, b: &str) -> (same: bool)
    ensures
        same == (a@ == b@),
{
    a.to_owned() == b.to_owned()
}

/// Whether a list of strings contains a text.
pub(crate) fn list_contains(list: &Vec<String>, wanted: &String) -> (found: bool)
    ensures
        found == texts(list@).contains(wanted@),
{
    let mut i: usize = 0;
    while i < list.len()
        invariant
            i <= list.len(),
            forall|j: int| 0 <= j < i ==> texts(list@)[j] != wanted@,
        decreases list.len() - i,
    {
        if list[i] == *wanted {
            assert(texts(list@)[i as int] == wanted@);
            return true;
        }
        i = i + 1;
    }
    false
}

/// A list of one string.
pub(crate) fn single(text: &str) -> (list: Vec<String>)
    ensures
        texts(list@) == seq![text@],
{
    let mut list: Vec<String> = Vec::new();
    list.push(text.to_owned());
    assert(texts(list@) =~= seq![text@]);
    list
}

/// Copies a list of strings.
pub(crate) fn copy_list(list: &Vec<String>) -> (copy: Vec<String>)
    ensures
        texts(copy@) == texts(list@),
{
    let mut copy: Vec<String> = Vec::new();
    let mut i: usize = 0;
    while i < list.len()
        invariant
            i <= list.len(),
            copy.len() == i,
            forall|j: int| 0 <= j < i ==> copy@[j]@ == list@[j]@,
        decreases list.len() - i,
    {
        copy.push(list[i].clone());
        i = i + 1;
    }
    assert(texts(copy@) =~= texts(list@));
    copy
}

/// The characters of a string.
pub(crate) fn chars_of(s: &str) -> (chars: Vec<char>)
    ensures
        chars@ == s@,
{
    let mut chars: Vec<char> = Vec::new();
    for c in it: s.chars()
        invariant
            chars@ == s@.take(it.index() as int),
            it.seq() == s@,
    {
        proof {
            assert(s@.take(it.index() + 1) =~= s@.take(it.index() as int).push(c));
        }
        chars.push(c);
    }
    assert(s@.take(s@.len() as int) =~= s@);
    chars
}

/// Finds the first `c` at or after `from`; gives the length when there is none.
pub(crate) fn find_from(chars: &Vec<char>, from: usize, c: char) -> (at: usize)
    requires
        from <= chars.len(),
    ensures
        at == from + first_index(chars@.skip(from as int), c),
        from <= at <= chars.len(),
{
    let mut at: usize = from;
    while at < chars.len() && chars[at] != c
        invariant
            from <= at <= chars.len(),
            forall|i: int| from <= i < at ==> chars@[i] != c,
        decreases chars.len() - at,
    {
        at = at + 1;
    }
    proof {
        lemma_first_index_unique(chars@.skip(from as int), c, at - from);
    }
    at
}

} // verus!
