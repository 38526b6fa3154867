//! Building blocks of the markdown that the providers render.
use vstd::prelude::*;

verus! {

/// `label`, the value and a blank line, when the value is present.
pub open spec fn labeled(label: Seq<char>, v: Option<Seq<char>>) -> Seq<char> {
    match v {
        Some(s) => label + s + "\n\n"@,
        None => Seq::empty(),
    }
}

/// Appends `labeled(label@, v)` to `out`.
pub fn push_labeled(out: &mut String, label: &str, v: Option<&String>)
    ensures
        final(out)@ == old(out)@ + labeled(
            label@,
            match v {
                Some(s) => Some(s@),
                None => None,
            },
        ),
{
    match v {
        Some(s) => {
            out.append(label);
            out.append(s.as_str());
            out.append("\n\n");
            assert(final(out)@ =~= old(out)@ + (label@ + s@ + "\n\n"@));
        },
        None => {
            assert(old(out)@ + Seq::<char>::empty() =~= old(out)@);
        },
    }
}

/// The pieces `f(0, items[0])`, `f(1, items[1])`, ... one after the other.
pub open spec fn pieces<T>(items: Seq<T>, f: spec_fn(int, T) -> Seq<char>) -> Seq<char>
    decreases items.len(),
{
    if items.len() == 0 {
        Seq::empty()
    } else {
        pieces(items.drop_last(), f) + f(items.len() - 1, items.last())
    }
}

/// One more element adds its piece at the end.
pub proof fn lemma_pieces_step<T>(items: Seq<T>, i: int, f: spec_fn(int, T) -> Seq<char>)
    requires
        0 <= i < items.len(),
    ensures
        pieces(items.subrange(0, i + 1), f) == pieces(items.subrange(0, i), f) + f(i, items[i]),
{
    assert(items.subrange(0, i + 1).drop_last() =~= items.subrange(0, i));
}

/// Whether `t` occurs in `s`.
pub open spec fn contains(s: Seq<char>, t: Seq<char>) -> bool {
    exists|i: int| 0 <= i && i + t.len() <= s.len() && #[trigger] s.subrange(i, i + t.len()) == t
}

/// Decides `contains`.
pub fn str_contains(s: &str, t: &str) -> (r: bool)
    ensures
        r == contains(s@, t@),
{
    let n = s.unicode_len();
    let m = t.unicode_len();
    if m > n {
        return false;
    }
    let mut i: usize = 0;
    while i <= n - m
        invariant
            n == s@.len(),
            m == t@.len(),
            m <= n,
            i <= n - m + 1,
            forall|j: int| 0 <= j < i ==> #[trigger] s@.subrange(j, j + m) != t@,
        decreases n - i,
    {
        let mut k: usize = 0;
        let mut same = true;
        while k < m
            invariant
                n == s@.len(),
                m == t@.len(),
                i + m <= n,
                k <= m,
                same == (forall|q: int| 0 <= q < k ==> s@[i + q] == t@[q]),
            decreases m - k,
        {
            if s.get_char(i + k) != t.get_char(k) {
                same = false;
            }
            k = k + 1;
        }
        if same {
            assert(s@.subrange(i as int, i + m) =~= t@);
            return true;
        }
        assert(s@.subrange(i as int, i + m) != t@) by {
            let q = choose|q: int| 0 <= q < m && s@[i + q] != t@[q];
            assert(s@.subrange(i as int, i + m)[q] != t@[q]);
        }
        i = i + 1;
    }
    false
}

} // verus!
