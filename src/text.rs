//! Small verified string utilities shared by every provider.
use vstd::prelude::*;

verus! {

/// The ten decimal digits, in order.
pub open spec fn digit_chars() -> Seq<char> {
    seq!['0', '1', '2', '3', '4', '5', '6', '7', '8', '9']
}

/// The decimal rendering of `n`, without sign or leading zeros.
pub open spec fn decimal(n: nat) -> Seq<char>
    decreases n,
{
    if n < 10 {
        seq![digit_chars()[n as int]]
    } else {
        decimal(n / 10).push(digit_chars()[(n % 10) as int])
    }
}

/// The one-character string holding the digit `d`.
fn digit_str(d: u64) -> (r: &'static str)
    requires
        d < 10,
    ensures
        r@ == seq![digit_chars()[d as int]],
{
    let digits = "0123456789";
    proof {
        reveal_strlit("0123456789");
        assert(digits@ =~= digit_chars());
    }
    let r = digits.substring_char(d as usize, (d + 1) as usize);
    assert(r@ =~= seq![digit_chars()[d as int]]);
    r
}

/// Appends the decimal rendering of `n` to `out`.
pub fn push_decimal(out: &mut String, n: u64)
    ensures
        final(out)@ == old(out)@ + decimal(n as nat),
    decreases n,
{
    if n >= 10 {
        push_decimal(out, n / 10);
    }
    out.append(digit_str(n % 10));
    proof {
        if n >= 10 {
            assert(decimal(n as nat) == decimal((n / 10) as nat).push(digit_chars()[(n % 10) as int]));
        }
    }
    assert(final(out)@ =~= old(out)@ + decimal(n as nat));
}

/// Whether `c` has the Unicode `White_Space` property.
pub open spec fn is_space(c: char) -> bool {
    ||| ('\u{9}' <= c && c <= '\u{d}')
    ||| c == ' '
    ||| c == '\u{85}'
    ||| c == '\u{a0}'
    ||| c == '\u{1680}'
    ||| ('\u{2000}' <= c && c <= '\u{200a}')
    ||| c == '\u{2028}'
    ||| c == '\u{2029}'
    ||| c == '\u{202f}'
    ||| c == '\u{205f}'
    ||| c == '\u{3000}'
}

/// Decides `is_space`.
pub fn char_is_space(c: char) -> (r: bool)
    ensures
        r == is_space(c),
{
    ('\u{9}' <= c && c <= '\u{d}') || c == ' ' || c == '\u{85}' || c == '\u{a0}' || c == '\u{1680}'
        || ('\u{2000}' <= c && c <= '\u{200a}') || c == '\u{2028}' || c == '\u{2029}' || c
        == '\u{202f}' || c == '\u{205f}' || c == '\u{3000}'
}

/// Whether the first character of `s` that is not white space is an opening brace.
pub open spec fn opens_with_brace(s: Seq<char>) -> bool
    decreases s.len(),
{
    if s.len() == 0 {
        false
    } else if is_space(s[0]) {
        opens_with_brace(s.drop_first())
    } else {
        s[0] == '{'
    }
}

/// Decides `opens_with_brace`.
pub fn starts_with_brace(s: &str) -> (r: bool)
    ensures
        r == opens_with_brace(s@),
{
    let n = s.unicode_len();
    let mut i: usize = 0;
    assert(s@.subrange(0, n as int) =~= s@);
    while i < n
        invariant
            n == s@.len(),
            i <= n,
            opens_with_brace(s@) == opens_with_brace(s@.subrange(i as int, n as int)),
        decreases n - i,
    {
        let c = s.get_char(i);
        assert(s@.subrange(i as int, n as int).drop_first() =~= s@.subrange(i + 1, n as int));
        if !char_is_space(c) {
            return c == '{';
        }
        i = i + 1;
    }
    false
}

/// Whether `p` is a prefix of `s`.
pub open spec fn has_prefix(s: Seq<char>, p: Seq<char>) -> bool {
    p.len() <= s.len() && s.subrange(0, p.len() as int) == p
}

/// Decides `has_prefix`.
pub fn str_has_prefix(s: &str, p: &str) -> (r: bool)
    ensures
        r == has_prefix(s@, p@),
{
    let n = s.unicode_len();
    let m = p.unicode_len();
    if m > n {
        return false;
    }
    let mut i: usize = 0;
    while i < m
        invariant
            n == s@.len(),
            m == p@.len(),
            m <= n,
            i <= m,
            forall|j: int| 0 <= j < i ==> s@[j] == p@[j],
        decreases m - i,
    {
        if s.get_char(i) != p.get_char(i) {
            assert(s@.subrange(0, m as int)[i as int] != p@[i as int]);
            return false;
        }
        i = i + 1;
    }
    assert(s@.subrange(0, m as int) =~= p@);
    true
}

/// Whether `a` and `b` hold the same text.
pub fn same_text(a: &str, b: &str) -> (r: bool)
    ensures
        r == (a@ == b@),
{
    if a.unicode_len() != b.unicode_len() {
        return false;
    }
    let r = str_has_prefix(a, b);
    assert(a@.subrange(0, b@.len() as int) =~= a@);
    r
}

/// The pieces of `s` between the occurrences of `::`, scanned from the left.
/// There is always at least one piece.
pub open spec fn split_path(s: Seq<char>) -> Seq<Seq<char>>
    decreases s.len(),
{
    if s.len() == 0 {
        seq![Seq::empty()]
    } else if s.len() >= 2 && s[0] == ':' && s[1] == ':' {
        seq![Seq::empty()] + split_path(s.subrange(2, s.len() as int))
    } else {
        let rest = split_path(s.drop_first());
        rest.update(0, seq![s[0]] + rest[0])
    }
}

pub proof fn lemma_split_path_nonempty(s: Seq<char>)
    ensures
        split_path(s).len() >= 1,
    decreases s.len(),
{
    if s.len() == 0 {
    } else if s.len() >= 2 && s[0] == ':' && s[1] == ':' {
        lemma_split_path_nonempty(s.subrange(2, s.len() as int));
    } else {
        lemma_split_path_nonempty(s.drop_first());
    }
}

/// The pieces `parts`, with `sep` between each two neighbours.
pub open spec fn join(parts: Seq<Seq<char>>, sep: Seq<char>) -> Seq<char>
    decreases parts.len(),
{
    if parts.len() == 0 {
        Seq::empty()
    } else if parts.len() == 1 {
        parts[0]
    } else {
        join(parts.drop_last(), sep) + sep + parts.last()
    }
}

/// The views of a vector of strings.
pub open spec fn views(v: Seq<String>) -> Seq<Seq<char>> {
    v.map_values(|x: String| x@)
}

/// `parts` with `head` put in front of its first piece.
spec fn prepend_first(head: Seq<char>, parts: Seq<Seq<char>>) -> Seq<Seq<char>> {
    parts.update(0, head + parts[0])
}

/// Splits `s` at every `::`, as `split_path` says.
pub fn split_on_path_sep(s: &str) -> (r: Vec<String>)
    ensures
        views(r@) == split_path(s@),
        r@.len() >= 1,
{
    let n = s.unicode_len();
    let mut parts: Vec<String> = Vec::new();
    let mut start: usize = 0;
    let mut i: usize = 0;
    proof {
        lemma_split_path_nonempty(s@);
        assert(s@.subrange(0, n as int) =~= s@);
        assert(prepend_first(Seq::empty(), split_path(s@)) =~= split_path(s@));
    }
    while i < n
        invariant
            n == s@.len(),
            start <= i <= n,
            split_path(s@) == views(parts@) + prepend_first(
                s@.subrange(start as int, i as int),
                split_path(s@.subrange(i as int, n as int)),
            ),
        decreases n - i,
    {
        let ghost rest = s@.subrange(i as int, n as int);
        let ghost cur = s@.subrange(start as int, i as int);
        if i + 1 < n && s.get_char(i) == ':' && s.get_char(i + 1) == ':' {
            let piece = s.substring_char(start, i);
            let ghost old_parts = parts@;
            parts.push(piece.to_owned());
            proof {
                let tail = s@.subrange(i + 2, n as int);
                assert(rest.subrange(2, rest.len() as int) =~= tail);
                lemma_split_path_nonempty(tail);
                assert(split_path(rest) == seq![Seq::<char>::empty()] + split_path(tail));
                assert(views(parts@) =~= views(old_parts).push(cur));
                assert(s@.subrange(i + 2, i + 2) =~= Seq::<char>::empty());
                assert(prepend_first(Seq::empty(), split_path(tail)) =~= split_path(tail));
                assert(prepend_first(cur, split_path(rest)) =~= seq![cur] + split_path(tail));
                assert(views(old_parts) + prepend_first(cur, split_path(rest)) =~= views(parts@)
                    + prepend_first(s@.subrange(i + 2, i + 2), split_path(tail)));
            }
            i = i + 2;
            start = i;
        } else {
            proof {
                let tail = s@.subrange(i + 1, n as int);
                assert(rest.drop_first() =~= tail);
                lemma_split_path_nonempty(tail);
                let sp = split_path(tail);
                assert(rest[0] == s@[i as int]);
                assert(!(rest.len() >= 2 && rest[0] == ':' && rest[1] == ':'));
                assert(split_path(rest) == sp.update(0, seq![rest[0]] + sp[0]));
                assert(cur + (seq![rest[0]] + sp[0]) =~= (cur + seq![rest[0]]) + sp[0]);
                assert(s@.subrange(start as int, i + 1) =~= cur + seq![rest[0]]);
                assert(prepend_first(cur, split_path(rest)) =~= prepend_first(
                    s@.subrange(start as int, i + 1),
                    sp,
                ));
            }
            i = i + 1;
        }
    }
    let last = s.substring_char(start, n);
    let ghost old_parts = parts@;
    parts.push(last.to_owned());
    proof {
        assert(s@.subrange(n as int, n as int) =~= Seq::<char>::empty());
        assert(split_path(Seq::<char>::empty()) == seq![Seq::<char>::empty()]);
        assert(prepend_first(last@, seq![Seq::<char>::empty()]) =~= seq![last@]);
        assert(views(parts@) =~= views(old_parts).push(last@));
    }
    parts
}

/// Joins `parts` with `sep`, as `join` says.
pub fn join_with(parts: &[String], sep: &str) -> (r: String)
    ensures
        r@ == join(views(parts@), sep@),
{
    let mut out = String::new();
    let mut i: usize = 0;
    while i < parts.len()
        invariant
            i <= parts@.len(),
            out@ == join(views(parts@.subrange(0, i as int)), sep@),
        decreases parts@.len() - i,
    {
        let ghost before = parts@.subrange(0, i as int);
        let ghost after = parts@.subrange(0, i + 1);
        assert(views(after).drop_last() =~= views(before));
        assert(views(after).last() == parts@[i as int]@);
        if i > 0 {
            out.append(sep);
        }
        out.append(parts[i].as_str());
        proof {
            if i == 0 {
                assert(views(after).len() == 1);
            }
        }
        i = i + 1;
    }
    assert(parts@.subrange(0, parts@.len() as int) =~= parts@);
    out
}

} // verus!
