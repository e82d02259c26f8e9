//! Identifier resolver: compact identifiers from the references that the query
//! service returns.
use vstd::prelude::*;
use vstd::string::*;

verus! {

/// The part of `s` after its last `/` (all of `s` when it has none).
pub open spec fn last_segment(s: Seq<char>) -> Seq<char>
    decreases s.len(),
{
    if s.len() == 0 {
        s
    } else if s.last() == '/' {
        Seq::empty()
    } else {
        last_segment(s.drop_last()).push(s.last())
    }
}

proof fn lemma_last_segment_suffix(s: Seq<char>, i: int)
    requires
        0 <= i <= s.len(),
        forall|k: int| i <= k < s.len() ==> s[k] != '/',
    ensures
        last_segment(s) == last_segment(s.subrange(0, i)) + s.subrange(i, s.len() as int),
    decreases s.len() - i,
{
    if i < s.len() {
        lemma_last_segment_suffix(s, i + 1);
        let p = s.subrange(0, i + 1);
        assert(p.drop_last() =~= s.subrange(0, i));
        assert(p.last() == s[i]);
        assert(s.subrange(i, s.len() as int) =~= seq![s[i]] + s.subrange(i + 1, s.len() as int));
        assert(last_segment(p) == last_segment(s.subrange(0, i)).push(s[i]));
        assert(last_segment(s.subrange(0, i)).push(s[i]) + s.subrange(i + 1, s.len() as int)
            =~= last_segment(s.subrange(0, i)) + s.subrange(i, s.len() as int));
    } else {
        assert(s.subrange(0, i) =~= s);
        assert(s.subrange(i, s.len() as int) =~= Seq::<char>::empty());
        assert(last_segment(s) + Seq::<char>::empty() =~= last_segment(s));
    }
}

/// Compact identifier of an entity reference: its last path segment
/// (`http://host/entity/Q42` gives `Q42`). Every text has one.
pub fn read_id_from_url(url: &str) -> (r: Option<String>)
    ensures
        r is Some,
        r.unwrap()@ == last_segment(url@),
{
    let n = url.unicode_len();
    let mut i: usize = n;
    while i > 0 && url.get_char(i - 1) != '/'
        invariant
            n == url@.len(),
            i <= n,
            forall|k: int| i <= k < n ==> url@[k] != '/',
        decreases i,
    {
        i = i - 1;
    }
    proof {
        lemma_last_segment_suffix(url@, i as int);
        if i > 0 {
            let p = url@.subrange(0, i as int);
            assert(p.last() == '/');
        } else {
            assert(url@.subrange(0, 0) =~= Seq::<char>::empty());
        }
        assert(last_segment(url@.subrange(0, i as int)) + url@.subrange(i as int, n as int)
            =~= url@.subrange(i as int, n as int));
    }
    Some(url.substring_char(i, n).to_owned())
}

} // verus!
