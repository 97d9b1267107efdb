//! Text helpers over character sequences, each proved against a spec function.

use vstd::prelude::*;
use vstd::std_specs::iter::IteratorSpec;

verus! {

/// `s` ends with `suffix`.
pub open spec fn ends_with(s: Seq<char>, suffix: Seq<char>) -> bool {
    suffix.len() <= s.len() && s.subrange(s.len() - suffix.len(), s.len() as int) == suffix
}

/// `pat` occurs in `s` starting at position `i`.
pub open spec fn occurs_at(s: Seq<char>, pat: Seq<char>, i: int) -> bool {
    0 <= i && i + pat.len() <= s.len() && s.subrange(i, i + pat.len()) == pat
}

/// `pat` occurs somewhere in `s`.
pub open spec fn contains_seq(s: Seq<char>, pat: Seq<char>) -> bool {
    exists|i: int| occurs_at(s, pat, i)
}

/// Collects the characters of `s`.
pub fn chars_of(s: &str) -> (r: Vec<char>)
    ensures
        r@ == s@,
{
    broadcast use vstd::string::group_string_axioms;
    let mut it = s.chars();
    let mut out: Vec<char> = Vec::new();
    loop
        invariant
            it.obeys_prophetic_iter_laws(),
            out@ + it.remaining() == s@,
            it.decrease() is Some,
        ensures
            out@ == s@,
        decreases it.decrease()->0,
    {
        match it.next() {
            Some(c) => {
                out.push(c);
            },
            None => {
                assert(out@ + it.remaining() =~= out@);
                break;
            },
        }
    }
    out
}


/// `line` without one trailing carriage return, if it has one.
pub open spec fn strip_cr(line: Seq<char>) -> Seq<char> {
    if line.len() > 0 && line.last() == '\r' {
        line.drop_last()
    } else {
        line
    }
}

/// The finished lines and the pending line after reading the first `n`
/// characters of `s`: a newline ends the pending line, dropping one carriage
/// return just before it.
pub open spec fn line_state(s: Seq<char>, n: nat) -> (Seq<Seq<char>>, Seq<char>)
    decreases n,
{
    if n == 0 {
        (seq![], seq![])
    } else {
        let (done, cur) = line_state(s, (n - 1) as nat);
        if s[n - 1] == '\n' {
            (done.push(strip_cr(cur)), seq![])
        } else {
            (done, cur.push(s[n - 1]))
        }
    }
}

/// The lines of `s`: split at each newline (or carriage return and newline),
/// with an optional final line ending and no empty line after it.
pub open spec fn lines_of(s: Seq<char>) -> Seq<Seq<char>> {
    let (done, cur) = line_state(s, s.len());
    if cur.len() == 0 {
        done
    } else {
        done.push(cur)
    }
}

/// The views of a vector of strings.
pub open spec fn views(v: Seq<String>) -> Seq<Seq<char>> {
    v.map_values(|x: String| x@)
}

/// `items` written one after the other with `sep` between each two.
pub open spec fn joined(items: Seq<Seq<char>>, sep: Seq<char>) -> Seq<char>
    decreases items.len(),
{
    if items.len() == 0 {
        seq![]
    } else if items.len() == 1 {
        items[0]
    } else {
        joined(items.drop_last(), sep) + sep + items.last()
    }
}

/// The decimal digits in order.
pub open spec fn digit_chars() -> Seq<char> {
    "0123456789"@
}

/// The decimal numeral of `n`, without leading zeros.
pub open spec fn decimal_of(n: nat) -> Seq<char>
    decreases n,
{
    if n < 10 {
        seq![digit_chars()[n as int]]
    } else {
        decimal_of(n / 10) + seq![digit_chars()[(n % 10) as int]]
    }
}

/// Whether the characters `s[from..to]` end with `suffix`.
pub fn range_ends_with(s: &Vec<char>, from: usize, to: usize, suffix: &Vec<char>) -> (r: bool)
    requires
        from <= to <= s@.len(),
    ensures
        r == ends_with(s@.subrange(from as int, to as int), suffix@),
{
    let n = suffix.len();
    if n > to - from {
        return false;
    }
    let start = to - n;
    let mut k: usize = 0;
    while k < n
        invariant
            n == suffix@.len(),
            start + n == to,
            from <= start,
            to <= s@.len(),
            k <= n,
            forall|j: int| 0 <= j < k ==> s@[start + j] == suffix@[j],
        decreases n - k,
    {
        if s[start + k] != suffix[k] {
            assert(s@.subrange(from as int, to as int).subrange((start - from) as int, (to - from) as int)[k as int] != suffix@[k as int]);
            return false;
        }
        k = k + 1;
    }
    assert(s@.subrange(from as int, to as int).subrange((start - from) as int, (to - from) as int) =~= suffix@);
    true
}

/// Whether `pat` occurs anywhere in `s`.
pub fn contains_text(s: &str, pat: &str) -> (r: bool)
    ensures
        r == contains_seq(s@, pat@),
{
    let c = chars_of(s);
    let p = chars_of(pat);
    let n = c.len();
    let m = p.len();
    if m > n {
        assert(!contains_seq(s@, pat@));
        return false;
    }
    let mut i: usize = 0;
    while i <= n - m
        invariant
            c@ == s@,
            p@ == pat@,
            n == c@.len(),
            m == p@.len(),
            m <= n,
            i <= n - m + 1,
            forall|j: int| 0 <= j < i ==> !occurs_at(s@, pat@, j),
        decreases n - m + 1 - i,
    {
        if range_ends_with(&c, i, i + m, &p) {
            assert(s@.subrange(i as int, (i + m) as int).subrange(0, m as int) =~= s@.subrange(i as int, (i + m) as int));
            assert(occurs_at(s@, pat@, i as int));
            return true;
        }
        assert(s@.subrange(i as int, (i + m) as int).subrange(0, m as int) =~= s@.subrange(i as int, (i + m) as int));
        if i == n - m {
            assert forall|j: int| !occurs_at(s@, pat@, j) by {
                if 0 <= j && j + m <= n {
                    assert(j <= i);
                }
            }
            return false;
        }
        i = i + 1;
    }
    assert forall|j: int| !occurs_at(s@, pat@, j) by {
        if 0 <= j && j + m <= n {
            assert(j < i);
        }
    }
    false
}

/// Splits `text` into its lines.
pub fn split_lines(text: &str) -> (r: Vec<String>)
    ensures
        views(r@) == lines_of(text@),
{
    let c = chars_of(text);
    let n = c.len();
    let mut out: Vec<String> = Vec::new();
    let mut start: usize = 0;
    let mut i: usize = 0;
    while i < n
        invariant
            c@ == text@,
            n == c@.len(),
            start <= i <= n,
            line_state(text@, i as nat) == (views(out@), text@.subrange(start as int, i as int)),
        decreases n - i,
    {
        if c[i] == '\n' {
            let ghost cur = text@.subrange(start as int, i as int);
            let end = if i > start && c[i - 1] == '\r' {
                i - 1
            } else {
                i
            };
            assert(text@.subrange(start as int, end as int) == strip_cr(cur));
            let line = String::from_str(text.substring_char(start, end));
            let ghost before = out@;
            out.push(line);
            assert(views(out@) =~= views(before).push(strip_cr(cur)));
            start = i + 1;
        }
        proof {
            assert(text@.subrange(start as int, (i + 1) as int) =~= if c@[i as int] == '\n' { seq![] } else { text@.subrange(start as int, i as int).push(c@[i as int]) });
        }
        i = i + 1;
    }
    if start < n {
        let ghost before = out@;
        out.push(String::from_str(text.substring_char(start, n)));
        assert(views(out@) =~= views(before).push(text@.subrange(start as int, n as int)));
    }
    assert(views(out@) =~= lines_of(text@));
    out
}


/// Writes `items` one after the other with `sep` between each two.
pub fn join_texts(items: &Vec<String>, sep: &str) -> (r: String)
    ensures
        r@ == joined(views(items@), sep@),
{
    let mut out = String::new();
    let mut i: usize = 0;
    while i < items.len()
        invariant
            i <= items@.len(),
            out@ == joined(views(items@.subrange(0, i as int)), sep@),
        decreases items@.len() - i,
    {
        let ghost prev = views(items@.subrange(0, i as int));
        let ghost next = views(items@.subrange(0, (i + 1) as int));
        assert(next.drop_last() =~= prev);
        if i > 0 {
            out.append(sep);
        } else {
            assert(out@ + items@[0]@ =~= items@[0]@);
        }
        out.append(items[i].as_str());
        i = i + 1;
    }
    assert(items@.subrange(0, items@.len() as int) =~= items@);
    out
}

/// The decimal numeral of `n`.
pub fn decimal(n: usize) -> (r: String)
    ensures
        r@ == decimal_of(n as nat),
    decreases n,
{
    let digits = "0123456789";
    proof {
        reveal_strlit("0123456789");
    }
    let d = n % 10;
    let last = digits.substring_char(d, d + 1);
    assert(last@ =~= seq![digit_chars()[d as int]]);
    if n < 10 {
        String::from_str(last)
    } else {
        let head = decimal(n / 10);
        head.concat(last)
    }
}


/// Whether `a` and `b` hold the same characters.
pub fn same_text(a: &str, b: &str) -> (r: bool)
    ensures
        r == (a@ == b@),
{
    let x = chars_of(a);
    let y = chars_of(b);
    if x.len() != y.len() {
        return false;
    }
    let mut i: usize = 0;
    while i < x.len()
        invariant
            x@ == a@,
            y@ == b@,
            x@.len() == y@.len(),
            i <= x@.len(),
            forall|j: int| 0 <= j < i ==> x@[j] == y@[j],
        decreases x@.len() - i,
    {
        if x[i] != y[i] {
            return false;
        }
        i = i + 1;
    }
    assert(a@ =~= b@);
    true
}

} // verus!
