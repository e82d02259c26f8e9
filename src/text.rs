//! Small text helpers with exact contracts.
use vstd::prelude::*;
use vstd::string::*;

verus! {

/// `a` followed by `b`.
pub fn cat(a: &str, b: &str) -> (r: String)
    ensures
        r@ == a@ + b@,
{
    let mut s = a.to_owned();
    s.append(b);
    s
}

/// Whether two texts hold the same characters.
pub fn same_text(a: &str, b: &str) -> (r: bool)
    ensures
        r == (a@ == b@),
{
    let x = a.to_owned();
    let y = b.to_owned();
    x == y
}

/// `parts` joined with `sep` between each two.
pub open spec fn joined(parts: Seq<Seq<char>>, sep: Seq<char>) -> Seq<char>
    decreases parts.len(),
{
    if parts.len() == 0 {
        Seq::empty()
    } else if parts.len() == 1 {
        parts[0]
    } else {
        joined(parts.drop_last(), sep) + sep + parts.last()
    }
}

/// The views of a list of texts.
pub open spec fn views(v: Seq<String>) -> Seq<Seq<char>> {
    v.map_values(|s: String| s@)
}

/// The texts of `parts` joined with `sep`.
pub fn join(parts: &Vec<String>, sep: &str) -> (r: String)
    ensures
        r@ == joined(views(parts@), sep@),
{
    let mut out = String::new();
    let mut i: usize = 0;
    while i < parts.len()
        invariant
            i <= parts.len(),
            out@ == joined(views(parts@.subrange(0, i as int)), sep@),
        decreases parts.len() - i,
    {
        let ghost prev = views(parts@.subrange(0, i as int));
        let ghost next = views(parts@.subrange(0, i + 1));
        assert(next.drop_last() =~= prev);
        assert(next.last() == parts@[i as int]@);
        if i > 0 {
            out.append(sep);
        } else {
            assert(prev.len() == 0);
            assert(out@ + parts@[0]@ =~= parts@[0]@);
        }
        out.append(parts[i].as_str());
        i = i + 1;
    }
    assert(parts@.subrange(0, parts@.len() as int) =~= parts@);
    out
}

} // verus!

verus! {

/// The value paired with the first occurrence of `key` in `keys`.
pub open spec fn lookup(keys: Seq<Seq<char>>, vals: Seq<Seq<char>>, key: Seq<char>) -> Option<
    Seq<char>,
>
    decreases keys.len(),
{
    if keys.len() == 0 || vals.len() == 0 {
        None
    } else if keys[0] == key {
        Some(vals[0])
    } else {
        lookup(keys.drop_first(), vals.drop_first(), key)
    }
}

/// The value paired with the first occurrence of `key`.
pub fn find_value(keys: &Vec<String>, vals: &Vec<String>, key: &str) -> (r: Option<String>)
    ensures
        crate::bridge::opt_view(r) == lookup(views(keys@), views(vals@), key@),
{
    let mut i: usize = 0;
    assert(views(keys@).skip(0) =~= views(keys@));
    assert(views(vals@).skip(0) =~= views(vals@));
    while i < keys.len() && i < vals.len()
        invariant
            i <= keys.len(),
            i <= vals.len(),
            lookup(views(keys@), views(vals@), key@) == lookup(
                views(keys@).skip(i as int),
                views(vals@).skip(i as int),
                key@,
            ),
        decreases keys.len() - i,
    {
        let ghost ks = views(keys@).skip(i as int);
        let ghost vs = views(vals@).skip(i as int);
        assert(ks.drop_first() =~= views(keys@).skip(i + 1));
        assert(vs.drop_first() =~= views(vals@).skip(i + 1));
        if same_text(keys[i].as_str(), key) {
            return Some(vals[i].clone());
        }
        i = i + 1;
    }
    None
}

} // verus!

verus! {

/// `s` with each occurrence of `pat`, taken left to right without overlap,
/// replaced by `rep`.
pub open spec fn replaced(s: Seq<char>, pat: Seq<char>, rep: Seq<char>) -> Seq<char>
    decreases s.len(),
{
    if pat.len() == 0 || s.len() < pat.len() {
        s
    } else if s.take(pat.len() as int) == pat {
        rep + replaced(s.skip(pat.len() as int), pat, rep)
    } else {
        seq![s[0]] + replaced(s.drop_first(), pat, rep)
    }
}

/// `s` with each occurrence of `pat` replaced by `rep`.
pub fn replace_all(s: &str, pat: &str, rep: &str) -> (r: String)
    requires
        pat@.len() > 0,
    ensures
        r@ == replaced(s@, pat@, rep@),
{
    let n = s.unicode_len();
    let m = pat.unicode_len();
    let mut out = String::new();
    let mut i: usize = 0;
    assert(s@.skip(0) =~= s@);
    while i < n
        invariant
            n == s@.len(),
            m == pat@.len(),
            m > 0,
            i <= n,
            out@ + replaced(s@.skip(i as int), pat@, rep@) == replaced(s@, pat@, rep@),
        decreases n - i,
    {
        let ghost rest = s@.skip(i as int);
        if n - i >= m && same_text(s.substring_char(i, i + m), pat) {
            assert(rest.take(m as int) =~= s@.subrange(i as int, i + m));
            assert(rest.skip(m as int) =~= s@.skip(i + m));
            assert(out@ + rep@ + replaced(s@.skip(i + m), pat@, rep@) =~= out@ + (rep@ + replaced(
                rest.skip(m as int),
                pat@,
                rep@,
            )));
            out.append(rep);
            i = i + m;
        } else {
            if n - i >= m {
                assert(rest.take(m as int) =~= s@.subrange(i as int, i + m));
            }
            let c = s.substring_char(i, i + 1);
            assert(rest.drop_first() =~= s@.skip(i + 1));
            assert(c@ =~= seq![rest[0]]);
            assert(out@ + c@ + replaced(s@.skip(i + 1), pat@, rep@) =~= out@ + (seq![rest[0]]
                + replaced(rest.drop_first(), pat@, rep@)));
            out.append(c);
            i = i + 1;
        }
    }
    assert(s@.skip(n as int) =~= Seq::<char>::empty());
    assert(out@ + Seq::<char>::empty() =~= out@);
    out
}

} // verus!
