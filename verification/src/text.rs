//! Character-level helpers for the textual side of the configuration:
//! equality and prefix tests on `&str`, and splitting a `"+"`-joined
//! key sequence into its tokens.

use vstd::prelude::*;

verus! {

/// The pieces of `s` between its `'+'` separators, in order.  A string
/// without a separator is one piece; an empty piece appears wherever two
/// separators are adjacent or a separator starts or ends the string.
pub open spec fn split_on_plus(s: Seq<char>) -> Seq<Seq<char>>
    decreases s.len(),
{
    if s.len() == 0 {
        seq![Seq::<char>::empty()]
    } else if s[0] == '+' {
        seq![Seq::<char>::empty()] + split_on_plus(s.skip(1))
    } else {
        let rest = split_on_plus(s.skip(1));
        seq![seq![s[0]] + rest[0]] + rest.skip(1)
    }
}

proof fn lemma_split_on_plus_nonempty(s: Seq<char>)
    ensures
        split_on_plus(s).len() >= 1,
    decreases s.len(),
{
    if s.len() != 0 && s[0] != '+' {
        lemma_split_on_plus_nonempty(s.skip(1));
    }
}

/// Splitting at the first separator: everything before it is the first
/// piece, and the remainder splits on its own.
proof fn lemma_split_at_first_plus(s: Seq<char>, j: int)
    requires
        0 <= j < s.len(),
        s[j] == '+',
        forall|m: int| 0 <= m < j ==> s[m] != '+',
    ensures
        split_on_plus(s) == seq![s.take(j)] + split_on_plus(s.skip(j + 1)),
    decreases j,
{
    if j == 0 {
        assert(s.take(0) =~= Seq::<char>::empty());
        assert(split_on_plus(s) =~= seq![s.take(0)] + split_on_plus(s.skip(1)));
    } else {
        let t = s.skip(1);
        assert(forall|m: int| 0 <= m < j - 1 ==> t[m] != '+');
        lemma_split_at_first_plus(t, j - 1);
        lemma_split_on_plus_nonempty(t.skip(j));
        let rest = split_on_plus(t);
        assert(rest[0] == t.take(j - 1));
        assert(seq![s[0]] + t.take(j - 1) =~= s.take(j));
        assert(t.skip(j) =~= s.skip(j + 1));
        assert(rest.skip(1) =~= split_on_plus(s.skip(j + 1)));
        assert(split_on_plus(s) =~= seq![s.take(j)] + split_on_plus(s.skip(j + 1)));
    }
}

/// A string without a separator is a single piece.
proof fn lemma_split_no_plus(s: Seq<char>)
    requires
        forall|m: int| 0 <= m < s.len() ==> s[m] != '+',
    ensures
        split_on_plus(s) == seq![s],
    decreases s.len(),
{
    if s.len() == 0 {
        assert(split_on_plus(s) =~~= seq![s]);
    } else {
        let t = s.skip(1);
        lemma_split_no_plus(t);
        assert(seq![t].skip(1) =~= Seq::<Seq<char>>::empty());
        assert(seq![s[0]] + t =~= s);
        assert(split_on_plus(s) =~~= seq![s]);
    }
}

/// Character-for-character string equality.
pub fn str_eq(a: &str, b: &str) -> (r: bool)
    ensures
        r == (a@ == b@),
{
    let n = a.unicode_len();
    let m = b.unicode_len();
    if n != m {
        return false;
    }
    let mut i: usize = 0;
    while i < n
        invariant
            i <= n,
            n == a@.len(),
            n == b@.len(),
            forall|j: int| 0 <= j < i ==> a@[j] == b@[j],
        decreases n - i,
    {
        if a.get_char(i) != b.get_char(i) {
            return false;
        }
        i += 1;
    }
    proof {
        assert(a@ =~= b@);
    }
    true
}

/// Whether `s` begins with `prefix`.
pub fn str_starts_with(s: &str, prefix: &str) -> (r: bool)
    ensures
        r == prefix@.is_prefix_of(s@),
{
    let n = s.unicode_len();
    let p = prefix.unicode_len();
    if p > n {
        assert(!prefix@.is_prefix_of(s@));
        return false;
    }
    let mut i: usize = 0;
    while i < p
        invariant
            i <= p,
            p <= n,
            n == s@.len(),
            p == prefix@.len(),
            forall|j: int| 0 <= j < i ==> s@[j] == prefix@[j],
        decreases p - i,
    {
        if s.get_char(i) != prefix.get_char(i) {
            assert(s@.subrange(0, p as int)[i as int] != prefix@[i as int]);
            return false;
        }
        i += 1;
    }
    proof {
        assert(prefix@ =~= s@.subrange(0, p as int));
    }
    true
}

/// The pieces of `s` between its `'+'` separators, as sub-slices.
pub fn split_plus<'a>(s: &'a str) -> (parts: Vec<&'a str>)
    ensures
        parts@.len() == split_on_plus(s@).len(),
        forall|i: int| 0 <= i < parts@.len() ==> parts@[i]@ == split_on_plus(s@)[i],
    decreases s@.len(),
{
    let n = s.unicode_len();
    let mut i: usize = 0;
    while i < n
        invariant
            i <= n,
            n == s@.len(),
            forall|m: int| 0 <= m < i ==> s@[m] != '+',
        decreases n - i,
    {
        if s.get_char(i) == '+' {
            let head = s.substring_char(0, i);
            let tail = s.substring_char(i + 1, n);
            let mut parts = split_plus(tail);
            parts.insert(0, head);
            proof {
                lemma_split_at_first_plus(s@, i as int);
                assert(head@ =~= s@.take(i as int));
            }
            return parts;
        }
        i += 1;
    }
    proof {
        lemma_split_no_plus(s@);
    }
    let mut parts: Vec<&'a str> = Vec::new();
    parts.push(s);
    parts
}

/// What `str::to_lowercase` returns: a function of the characters alone.
pub uninterp spec fn lower_of(s: Seq<char>) -> Seq<char>;

/// Relies on str::to_lowercase for the lowercase form of a layer name;
/// the result depends on the input characters alone.
#[verifier::external_body]
pub(crate) fn to_lowercase(s: &str) -> (r: String)
    ensures
        r@ == lower_of(s@),
{
    s.to_lowercase()
}

} // verus!
