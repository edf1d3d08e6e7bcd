use vstd::prelude::*;

verus! {

/// Where the last path segment of `s` begins: just behind its last `'/'`, or
/// at 0 when `s` holds none.
pub open spec fn short_name_start(s: Seq<char>) -> int
    decreases s.len(),
{
    if s.len() == 0 {
        0
    } else if s.last() == '/' {
        s.len() as int
    } else {
        short_name_start(s.drop_last())
    }
}

/// The last path segment of `s`: what follows its last `'/'`.
pub open spec fn short_name(s: Seq<char>) -> Seq<char> {
    s.subrange(short_name_start(s), s.len() as int)
}

/// The last path segment of `s` holds no `'/'`, ends `s`, and begins either
/// at the start of `s` or just behind a `'/'`.
pub proof fn lemma_short_name(s: Seq<char>)
    ensures
        0 <= short_name_start(s) <= s.len(),
        s.subrange(0, short_name_start(s)) + short_name(s) == s,
        forall|i: int| 0 <= i < short_name(s).len() ==> short_name(s)[i] != '/',
        short_name_start(s) > 0 ==> s[short_name_start(s) - 1] == '/',
        (forall|i: int| 0 <= i < s.len() ==> s[i] != '/') ==> short_name(s) == s,
    decreases s.len(),
{
    if s.len() > 0 && s.last() != '/' {
        let shorter = s.drop_last();
        lemma_short_name(shorter);
        assert(short_name(s) =~= short_name(shorter).push(s.last()));
        assert forall|i: int| 0 <= i < short_name(s).len() implies short_name(s)[i] != '/' by {
            if i < short_name(shorter).len() {
                assert(short_name(s)[i] == short_name(shorter)[i]);
            }
        }
        if forall|i: int| 0 <= i < s.len() ==> s[i] != '/' {
            assert forall|i: int| 0 <= i < shorter.len() implies shorter[i] != '/' by {
                assert(shorter[i] == s[i]);
            }
            assert(short_name(s) =~= s);
        }
    }
    assert(s.subrange(0, short_name_start(s)) + short_name(s) =~= s);
}

fn last_segment(s: &str) -> (r: String)
    ensures
        r@ == short_name(s@),
{
    let n: usize = s.unicode_len();
    let mut start: usize = 0;
    let mut seen: usize = 0;
    for c in it: s.chars()
        invariant
            seen == it.index(),
            it.seq() == s@,
            n == s@.len(),
            seen <= n,
            start <= seen,
            start == short_name_start(s@.take(seen as int)),
    {
        assert(seen < n);
        assert(c == s@[seen as int]);
        assert(s@.take(seen + 1).drop_last() =~= s@.take(seen as int));
        seen = seen + 1;
        if c == '/' {
            start = seen;
        }
    }
    assert(seen == n);
    assert(s@.take(n as int) =~= s@);
    s.substring_char(start, seen).to_owned()
}

/// The short name of a cluster: what follows the last `'/'` of its identifier.
pub fn get_cluster_short_name(cluster: &String) -> (r: String)
    ensures
        r@ == short_name(cluster@),
{
    last_segment(cluster.as_str())
}

/// The short name of an image: what follows the last `'/'` of its reference.
pub fn get_image_short_name(image: &String) -> (r: String)
    ensures
        r@ == short_name(image@),
{
    last_segment(image.as_str())
}

} // verus!
