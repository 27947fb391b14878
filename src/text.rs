//! Character-level operations on text, and the ways a list of texts is laid
//! out.
use vstd::prelude::*;

verus! {

/// `p` is a prefix of `s`.
pub open spec fn starts(s: Seq<char>, p: Seq<char>) -> bool {
    p.len() <= s.len() && s.subrange(0, p.len() as int) == p
}

/// Code-point order of two texts, which is the byte order of their UTF-8
/// encodings.
pub open spec fn key_lt(a: Seq<char>, b: Seq<char>) -> bool
    decreases a.len(),
{
    if a.len() == 0 {
        b.len() > 0
    } else if b.len() == 0 {
        false
    } else if a[0] != b[0] {
        a[0] < b[0]
    } else {
        key_lt(a.drop_first(), b.drop_first())
    }
}

pub proof fn lemma_key_lt_transitive(a: Seq<char>, b: Seq<char>, c: Seq<char>)
    requires
        key_lt(a, b),
        key_lt(b, c),
    ensures
        key_lt(a, c),
    decreases a.len(),
{
    if a.len() > 0 && b.len() > 0 && c.len() > 0 && a[0] == b[0] && b[0] == c[0] {
        lemma_key_lt_transitive(a.drop_first(), b.drop_first(), c.drop_first());
    }
}

pub proof fn lemma_key_lt_total(a: Seq<char>, b: Seq<char>)
    requires
        a != b,
    ensures
        key_lt(a, b) || key_lt(b, a),
    decreases a.len(),
{
    if a.len() == 0 && b.len() == 0 {
        assert(a =~= b);
    }
    if a.len() > 0 && b.len() > 0 && a[0] != b[0] {
        assert(a[0] < b[0] || b[0] < a[0]);
    }
    if a.len() > 0 && b.len() > 0 && a[0] == b[0] {
        if a.drop_first() == b.drop_first() {
            assert(a =~= seq![a[0]] + a.drop_first());
            assert(b =~= seq![b[0]] + b.drop_first());
        }
        lemma_key_lt_total(a.drop_first(), b.drop_first());
    }
}

/// The views of a sequence of strings.
pub open spec fn views(v: Seq<String>) -> Seq<Seq<char>> {
    v.map_values(|s: String| s@)
}

/// Each text wrapped in `pre` and `post`, with `sep` between neighbours.
pub open spec fn joined(ts: Seq<Seq<char>>, pre: Seq<char>, post: Seq<char>, sep: Seq<char>) -> Seq<
    char,
>
    decreases ts.len(),
{
    if ts.len() == 0 {
        Seq::empty()
    } else if ts.len() == 1 {
        pre + ts.last() + post
    } else {
        joined(ts.drop_last(), pre, post, sep) + sep + pre + ts.last() + post
    }
}

/// Each text followed by `sep`.
pub open spec fn padded(ts: Seq<Seq<char>>, sep: Seq<char>) -> Seq<char> {
    joined(ts, ""@, sep, ""@)
}

/// Each text, one after another.
pub open spec fn concat(ts: Seq<Seq<char>>) -> Seq<char> {
    joined(ts, ""@, ""@, ""@)
}

/// A copy of a text as an owned string.
pub fn owned(s: &str) -> (r: String)
    ensures
        r@ == s@,
{
    String::from_str(s)
}

/// Whether `s` and `t` hold the same characters.
pub fn same(s: &str, t: &str) -> (r: bool)
    ensures
        r == (s@ == t@),
{
    owned(s) == owned(t)
}

/// Whether `p` is a prefix of `s`.
pub fn starts_with(s: &str, p: &str) -> (r: bool)
    ensures
        r == starts(s@, p@),
{
    let n = s.unicode_len();
    let m = p.unicode_len();
    if m > n {
        return false;
    }
    same(s.substring_char(0, m), p)
}

/// `s` without its prefix `p`, if `p` is a prefix of `s`.
pub fn strip_prefix(s: &str, p: &str) -> (r: Option<String>)
    ensures
        r is Some <==> starts(s@, p@),
        r is Some ==> r->Some_0@ == s@.subrange(p@.len() as int, s@.len() as int),
{
    if starts_with(s, p) {
        let n = s.unicode_len();
        let m = p.unicode_len();
        Some(owned(s.substring_char(m, n)))
    } else {
        None
    }
}

/// Code-point order of two texts.
pub fn less_than(a: &str, b: &str) -> (r: bool)
    ensures
        r == key_lt(a@, b@),
{
    let n = a.unicode_len();
    let m = b.unicode_len();
    let mut i: usize = 0;
    assert(a@.skip(0) =~= a@);
    assert(b@.skip(0) =~= b@);
    while i < n && i < m
        invariant
            i <= n,
            i <= m,
            n == a@.len(),
            m == b@.len(),
            key_lt(a@, b@) == key_lt(a@.skip(i as int), b@.skip(i as int)),
        decreases n - i,
    {
        let x = a.get_char(i);
        let y = b.get_char(i);
        if x != y {
            return x < y;
        }
        assert(a@.skip(i as int).drop_first() =~= a@.skip(i + 1));
        assert(b@.skip(i as int).drop_first() =~= b@.skip(i + 1));
        i = i + 1;
    }
    i < m
}

/// The lower-case hexadecimal digit of a value below sixteen.
pub open spec fn hex_digit(n: u8) -> Seq<char> {
    if n < 10 {
        seq![(('0' as u8) + n) as char]
    } else {
        seq![(('a' as u8) + n - 10) as char]
    }
}

fn hex_digit_text(n: u8) -> (r: &'static str)
    requires
        n < 16,
    ensures
        r@ == hex_digit(n),
{
    let r = match n {
        0 => "0",
        1 => "1",
        2 => "2",
        3 => "3",
        4 => "4",
        5 => "5",
        6 => "6",
        7 => "7",
        8 => "8",
        9 => "9",
        10 => "a",
        11 => "b",
        12 => "c",
        13 => "d",
        14 => "e",
        _ => "f",
    };
    proof {
        reveal_strlit("0");
        reveal_strlit("1");
        reveal_strlit("2");
        reveal_strlit("3");
        reveal_strlit("4");
        reveal_strlit("5");
        reveal_strlit("6");
        reveal_strlit("7");
        reveal_strlit("8");
        reveal_strlit("9");
        reveal_strlit("a");
        reveal_strlit("b");
        reveal_strlit("c");
        reveal_strlit("d");
        reveal_strlit("e");
        reveal_strlit("f");
    }
    assert(r@ =~= hex_digit(n));
    r
}

/// The escape `\xHH` of a byte, with two lower-case hexadecimal digits.
pub open spec fn byte_escape(b: u8) -> Seq<char> {
    "\\x"@ + hex_digit(b / 16) + hex_digit(b % 16)
}

/// The escapes of all bytes, one after another.
pub open spec fn bytes_escaped(bs: Seq<u8>) -> Seq<char>
    decreases bs.len(),
{
    if bs.len() == 0 {
        Seq::empty()
    } else {
        bytes_escaped(bs.drop_last()) + byte_escape(bs.last())
    }
}

/// The escapes of all bytes, one after another.
pub fn escape_bytes(bs: &Vec<u8>) -> (r: String)
    ensures
        r@ == bytes_escaped(bs@),
{
    let mut r = String::new();
    let mut i: usize = 0;
    while i < bs.len()
        invariant
            i <= bs@.len(),
            r@ == bytes_escaped(bs@.take(i as int)),
        decreases bs.len() - i,
    {
        let b = bs[i];
        r.append("\\x");
        r.append(hex_digit_text(b / 16));
        r.append(hex_digit_text(b % 16));
        assert(bs@.take(i + 1).drop_last() =~= bs@.take(i as int));
        i = i + 1;
    }
    assert(bs@.take(bs@.len() as int) =~= bs@);
    r
}

/// Each text wrapped in `pre` and `post`, with `sep` between neighbours.
pub fn join_with(v: &Vec<String>, pre: &str, post: &str, sep: &str) -> (r: String)
    ensures
        r@ == joined(views(v@), pre@, post@, sep@),
{
    let mut r = String::new();
    let mut i: usize = 0;
    while i < v.len()
        invariant
            i <= v@.len(),
            r@ == joined(views(v@.take(i as int)), pre@, post@, sep@),
        decreases v.len() - i,
    {
        assert(views(v@.take(i + 1)).drop_last() =~= views(v@.take(i as int)));
        assert(views(v@.take(i + 1)).last() == v@[i as int]@);
        if i == 0 {
            assert(Seq::<char>::empty() + pre@ =~= pre@);
        } else {
            r.append(sep);
        }
        r.append(pre);
        r.append(v[i].as_str());
        r.append(post);
        i = i + 1;
    }
    assert(v@.take(v@.len() as int) =~= v@);
    r
}

/// Pairs `a[i] + mid + b[i]` over the first `n` positions.
pub open spec fn paired(a: Seq<Seq<char>>, mid: Seq<char>, b: Seq<Seq<char>>, n: int) -> Seq<
    Seq<char>,
> {
    Seq::new(n as nat, |i: int| a[i] + mid + b[i])
}

/// Pairs `a[i] + mid + b[i]` over the first `n` positions.
pub fn pair_up(a: &Vec<String>, mid: &str, b: &Vec<String>, n: usize) -> (r: Vec<String>)
    requires
        n <= a@.len(),
        n <= b@.len(),
    ensures
        views(r@) == paired(views(a@), mid@, views(b@), n as int),
{
    let mut r: Vec<String> = Vec::new();
    let mut i: usize = 0;
    while i < n
        invariant
            i <= n,
            n <= a@.len(),
            n <= b@.len(),
            views(r@) =~= paired(views(a@), mid@, views(b@), i as int),
        decreases n - i,
    {
        let mut t = owned(a[i].as_str());
        t.append(mid);
        t.append(b[i].as_str());
        let ghost before = r@;
        r.push(t);
        assert(views(r@) =~= views(before).push(t@));
        i = i + 1;
    }
    r
}

} // verus!
