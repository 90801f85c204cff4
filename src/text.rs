use vstd::prelude::*;
use vstd::string::*;

verus! {

/// The characters of `s` with every comma removed, order kept.
pub open spec fn without_commas(s: Seq<char>) -> Seq<char>
    decreases s.len(),
{
    if s.len() == 0 {
        Seq::empty()
    } else if s.last() == ',' {
        without_commas(s.drop_last())
    } else {
        without_commas(s.drop_last()).push(s.last())
    }
}

/// `i` is the position of the first `:` in `s`.
pub open spec fn is_first_colon(s: Seq<char>, i: int) -> bool {
    &&& 0 <= i < s.len()
    &&& s[i] == ':'
    &&& forall|j: int| 0 <= j < i ==> s[j] != ':'
}

/// The text before the first `:` of `s`, or `None` when `s` has no `:`.
pub open spec fn before_first_colon(s: Seq<char>) -> Option<Seq<char>> {
    if exists|i: int| is_first_colon(s, i) {
        Some(s.take(choose|i: int| is_first_colon(s, i)))
    } else {
        None
    }
}

/// Removing commas leaves none.
pub proof fn lemma_without_commas_has_none(s: Seq<char>)
    ensures
        !without_commas(s).contains(','),
    decreases s.len(),
{
    if s.len() > 0 {
        lemma_without_commas_has_none(s.drop_last());
        let w = without_commas(s.drop_last());
        if s.last() != ',' {
            assert forall|k: int| 0 <= k < w.len() + 1 implies w.push(s.last())[k] != ',' by {
                if k < w.len() {
                    assert(w[k] == w.push(s.last())[k]);
                }
            }
        }
    }
}

/// A text that holds a colon has a first one.
proof fn lemma_first_colon_exists(s: Seq<char>)
    requires
        s.contains(':'),
    ensures
        exists|i: int| is_first_colon(s, i),
    decreases s.len(),
{
    let p = s.drop_last();
    if p.contains(':') {
        lemma_first_colon_exists(p);
        let i = choose|i: int| is_first_colon(p, i);
        assert forall|j: int| 0 <= j < i implies s[j] != ':' by {
            assert(p[j] == s[j]);
        }
        assert(p[i] == s[i]);
        assert(is_first_colon(s, i));
    } else {
        let k = choose|k: int| 0 <= k < s.len() && s[k] == ':';
        if k < s.len() - 1 {
            assert(p[k] == ':');
        }
        assert forall|j: int| 0 <= j < s.len() - 1 implies s[j] != ':' by {
            assert(p[j] == s[j]);
        }
        assert(is_first_colon(s, s.len() - 1));
    }
}

/// A first colon exists exactly when `s` holds a colon, and it is unique.
pub proof fn lemma_first_colon(s: Seq<char>)
    ensures
        s.contains(':') <==> exists|i: int| is_first_colon(s, i),
        forall|i: int, k: int| is_first_colon(s, i) && is_first_colon(s, k) ==> i == k,
        before_first_colon(s) is Some <==> s.contains(':'),
{
    if s.contains(':') {
        lemma_first_colon_exists(s);
    }
    assert forall|i: int, k: int| is_first_colon(s, i) && is_first_colon(s, k) implies i == k by {
        if i < k {
            assert(s[i] != ':');
        } else if k < i {
            assert(s[k] != ':');
        }
    }
}

/// Returns `title` with all commas removed.
pub fn strip_commas(title: &str) -> (r: String)
    ensures
        r@ == without_commas(title@),
{
    let n = title.unicode_len();
    let mut out = String::new();
    let mut start: usize = 0;
    let mut i: usize = 0;
    while i < n
        invariant
            n == title@.len(),
            start <= i <= n,
            out@ + title@.subrange(start as int, i as int) == without_commas(title@.take(i as int)),
        decreases n - i,
    {
        let c = title.get_char(i);
        assert(title@.take(i as int + 1).drop_last() =~= title@.take(i as int));
        assert(title@.take(i as int + 1).last() == c);
        if c == ',' {
            let piece = title.substring_char(start, i);
            out.append(piece);
            start = i + 1;
            assert(title@.subrange(start as int, start as int) =~= Seq::<char>::empty());
            assert(out@ + title@.subrange(start as int, start as int) =~= out@);
        } else {
            assert(title@.subrange(start as int, i as int + 1) =~= title@.subrange(
                start as int,
                i as int,
            ).push(c));
            assert(out@ + title@.subrange(start as int, i as int + 1) =~= (out@ + title@.subrange(
                start as int,
                i as int,
            )).push(c));
        }
        i = i + 1;
    }
    let rest = title.substring_char(start, n);
    out.append(rest);
    assert(title@.take(n as int) =~= title@);
    out
}

/// Returns the position, in characters, of the first `:` of `title`.
pub fn find_first_colon(title: &str) -> (r: Option<usize>)
    ensures
        r is Some <==> title@.contains(':'),
        r matches Some(i) ==> is_first_colon(title@, i as int),
{
    let n = title.unicode_len();
    let mut i: usize = 0;
    while i < n
        invariant
            n == title@.len(),
            i <= n,
            forall|j: int| 0 <= j < i ==> title@[j] != ':',
        decreases n - i,
    {
        if title.get_char(i) == ':' {
            proof {
                lemma_first_colon(title@);
            }
            return Some(i);
        }
        i = i + 1;
    }
    proof {
        lemma_first_colon(title@);
    }
    None
}

} // verus!
