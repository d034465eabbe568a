//! Lists of strings: their views, membership, and keeping the first of
//! each repeated member.
use vstd::prelude::*;

verus! {

/// The views of a list of strings.
pub open spec fn strings_view(v: Seq<String>) -> Seq<Seq<char>> {
    v.map_values(|s: String| s@)
}

/// The members of `s` in order, each kept where it first occurs.
pub open spec fn first_occurrences(s: Seq<Seq<char>>) -> Seq<Seq<char>>
    decreases s.len(),
{
    if s.len() == 0 {
        Seq::empty()
    } else if first_occurrences(s.drop_last()).contains(s.last()) {
        first_occurrences(s.drop_last())
    } else {
        first_occurrences(s.drop_last()).push(s.last())
    }
}

/// Keeping first occurrences loses no member, adds none, and leaves no
/// member twice.
pub proof fn lemma_first_occurrences(s: Seq<Seq<char>>)
    ensures
        first_occurrences(s).no_duplicates(),
        forall|x: Seq<char>| #[trigger] first_occurrences(s).contains(x) <==> s.contains(x),
    decreases s.len(),
{
    if s.len() > 0 {
        let p = s.drop_last();
        let l = s.last();
        lemma_first_occurrences(p);
        assert(s =~= p.push(l));
        assert forall|x: Seq<char>| s.contains(x) <==> (p.contains(x) || x == l) by {
            if s.contains(x) {
                let k = choose|k: int| 0 <= k < s.len() && s[k] == x;
                if k < p.len() {
                    assert(p[k] == x);
                }
            }
            if p.contains(x) {
                let k = choose|k: int| 0 <= k < p.len() && p[k] == x;
                assert(s[k] == x);
            }
            if x == l {
                assert(s[s.len() - 1] == x);
            }
        }
        let f = first_occurrences(p);
        if !f.contains(l) {
            assert forall|x: Seq<char>| f.push(l).contains(x) <==> (f.contains(x) || x == l) by {
                if f.push(l).contains(x) {
                    let k = choose|k: int| 0 <= k < f.push(l).len() && f.push(l)[k] == x;
                    if k < f.len() {
                        assert(f[k] == x);
                    }
                }
                if f.contains(x) {
                    let k = choose|k: int| 0 <= k < f.len() && f[k] == x;
                    assert(f.push(l)[k] == x);
                }
                if x == l {
                    assert(f.push(l)[f.len() as int] == x);
                }
            }
            assert forall|i: int, j: int| 0 <= i < j < f.push(l).len() implies f.push(l)[i] != f.push(l)[j] by {
                if j == f.len() {
                    assert(f[i] == f.push(l)[i]);
                }
            }
            assert forall|x: Seq<char>| #[trigger] first_occurrences(s).contains(x) <==> s.contains(x) by {
                assert(first_occurrences(s) == f.push(l));
                assert(f.contains(x) <==> p.contains(x));
            }
        } else {
            assert(p.contains(l));
            assert forall|x: Seq<char>| #[trigger] first_occurrences(s).contains(x) <==> s.contains(x) by {
                assert(first_occurrences(s) == f);
            }
        }
    } else {
        assert forall|x: Seq<char>| #[trigger] first_occurrences(s).contains(x) <==> s.contains(x) by {
            assert(first_occurrences(s) =~= Seq::<Seq<char>>::empty());
        }
    }
}

/// Whether `x` is one of `v`.
pub fn lists(v: &Vec<String>, x: &str) -> (b: bool)
    ensures
        b == strings_view(v@).contains(x@),
{
    let mut i: usize = 0;
    while i < v.len()
        invariant
            i <= v@.len(),
            forall|k: int| 0 <= k < i ==> v@[k]@ != x@,
        decreases v@.len() - i,
    {
        if crate::outside::str_eq(v[i].as_str(), x) {
            assert(strings_view(v@)[i as int] == x@);
            return true;
        }
        i = i + 1;
    }
    proof {
        if strings_view(v@).contains(x@) {
            let k = choose|k: int| 0 <= k < strings_view(v@).len() && strings_view(v@)[k] == x@;
            assert(v@[k]@ == x@);
        }
    }
    false
}

/// The members of `v` in order, each kept where it first occurs.
pub fn unique(v: &Vec<String>) -> (r: Vec<String>)
    ensures
        strings_view(r@) == first_occurrences(strings_view(v@)),
{
    let mut r: Vec<String> = Vec::new();
    let mut i: usize = 0;
    while i < v.len()
        invariant
            i <= v@.len(),
            strings_view(r@) == first_occurrences(strings_view(v@).take(i as int)),
        decreases v@.len() - i,
    {
        assert(strings_view(v@).take(i + 1).drop_last() =~= strings_view(v@).take(i as int));
        if !lists(&r, v[i].as_str()) {
            let ghost before = r@;
            r.push(v[i].clone());
            assert(strings_view(r@) =~= strings_view(before).push(v@[i as int]@));
        }
        i = i + 1;
    }
    assert(strings_view(v@).take(i as int) =~= strings_view(v@));
    r
}

} // verus!
