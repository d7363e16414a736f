//! Sets of strings held in a `Vec` without duplicates.

use vstd::prelude::*;

use crate::text::{owned, views};

verus! {

/// No two strings of `s` are equal.
pub open spec fn distinct(s: Seq<Seq<char>>) -> bool {
    forall|i: int, j: int| 0 <= i < j < s.len() ==> s[i] != s[j]
}

/// The set of the strings of `v`.
pub open spec fn set_of(v: Seq<String>) -> Set<Seq<char>> {
    views(v).to_set()
}

/// Where `x` stands in `v`, if it does.
pub fn position(v: &Vec<String>, x: &str) -> (r: Option<usize>)
    ensures
        match r {
            Some(i) => i < v@.len() && v@[i as int]@ == x@,
            None => !views(v@).contains(x@),
        },
{
    let key = owned(x);
    let mut i: usize = 0;
    while i < v.len()
        invariant
            i <= v@.len(),
            key@ == x@,
            forall|k: int| 0 <= k < i ==> v@[k]@ != x@,
        decreases v@.len() - i,
    {
        if v[i] == key {
            return Some(i);
        }
        i = i + 1;
    }
    assert forall|k: int| 0 <= k < views(v@).len() implies views(v@)[k] != x@ by {
        assert(views(v@)[k] == v@[k]@);
    }
    None
}

/// Whether `x` is one of the strings of `v`, as a list.
pub fn list_contains(v: &Vec<String>, x: &str) -> (r: bool)
    ensures
        r == views(v@).contains(x@),
{
    match position(v, x) {
        Some(i) => {
            assert(views(v@)[i as int] == x@);
            true
        },
        None => false,
    }
}

/// Whether `x` is one of the strings of `v`.
pub fn set_contains(v: &Vec<String>, x: &str) -> (r: bool)
    ensures
        r == set_of(v@).contains(x@),
{
    match position(v, x) {
        Some(i) => {
            assert(views(v@)[i as int] == x@);
            true
        },
        None => false,
    }
}

/// Adding a string to a list adds it to the list's set.
pub proof fn lemma_push(v: Seq<String>, s: String)
    ensures
        views(v.push(s)) == views(v).push(s@),
        set_of(v.push(s)) == set_of(v).insert(s@),
{
    assert(views(v.push(s)) =~= views(v).push(s@));
    assert(set_of(v.push(s)) =~= set_of(v).insert(s@)) by {
        assert forall|a: Seq<char>| set_of(v.push(s)).contains(a) <==> set_of(v).insert(
            s@,
        ).contains(a) by {
            if views(v).push(s@).contains(a) {
                let k = choose|k: int| 0 <= k < views(v).push(s@).len() && views(v).push(s@)[k] == a;
                if k < views(v).len() {
                    assert(views(v)[k] == a);
                }
            }
            if views(v).contains(a) {
                let k = choose|k: int| 0 <= k < views(v).len() && views(v)[k] == a;
                assert(views(v).push(s@)[k] == a);
            }
            if a == s@ {
                assert(views(v).push(s@)[views(v).len() as int] == a);
            }
        }
    }
}

proof fn lemma_remove(v: Seq<String>, i: int)
    requires
        0 <= i < v.len(),
        distinct(views(v)),
    ensures
        views(v.remove(i)) == views(v).remove(i),
        set_of(v.remove(i)) == set_of(v).remove(v[i]@),
        distinct(views(v.remove(i))),
{
    assert(views(v.remove(i)) =~= views(v).remove(i));
    let w = views(v);
    assert(set_of(v.remove(i)) =~= set_of(v).remove(v[i]@)) by {
        assert forall|a: Seq<char>| set_of(v.remove(i)).contains(a) <==> set_of(v).remove(
            v[i]@,
        ).contains(a) by {
            if w.remove(i).contains(a) {
                let k = choose|k: int| 0 <= k < w.remove(i).len() && w.remove(i)[k] == a;
                if k < i {
                    assert(w[k] == a);
                    assert(w[k] != w[i]);
                    assert(w.contains(a));
                } else {
                    assert(w[k + 1] == a);
                    assert(w[i] != w[k + 1]);
                    assert(w.contains(a));
                }
            }
            if w.contains(a) && a != v[i]@ {
                let k = choose|k: int| 0 <= k < w.len() && w[k] == a;
                if k < i {
                    assert(w.remove(i)[k] == a);
                } else {
                    assert(k != i);
                    assert(w.remove(i)[k - 1] == a);
                }
            }
        }
    }
}

/// Adds `x` to the set held in `v`.
pub fn set_insert(v: &mut Vec<String>, x: &str)
    requires
        distinct(views(old(v)@)),
    ensures
        distinct(views(final(v)@)),
        set_of(final(v)@) == set_of(old(v)@).insert(x@),
{
    match position(v, x) {
        Some(i) => {
            assert(views(v@)[i as int] == x@);
            assert(set_of(v@).insert(x@) =~= set_of(v@));
        },
        None => {
            let s = owned(x);
            proof {
                lemma_push(v@, s);
                assert forall|a: int, b: int|
                    0 <= a < b < views(v@.push(s)).len() implies views(v@.push(s))[a] != views(
                    v@.push(s),
                )[b] by {
                    if b == views(v@).len() {
                        assert(views(v@)[a] != x@);
                    } else {
                        assert(views(v@)[a] != views(v@)[b]);
                    }
                }
            }
            v.push(s);
        },
    }
}

/// Removes `x` from the set held in `v`.
pub fn set_remove(v: &mut Vec<String>, x: &str)
    requires
        distinct(views(old(v)@)),
    ensures
        distinct(views(final(v)@)),
        set_of(final(v)@) == set_of(old(v)@).remove(x@),
{
    match position(v, x) {
        Some(i) => {
            proof {
                lemma_remove(v@, i as int);
            }
            v.remove(i);
        },
        None => {
            assert(set_of(v@).remove(x@) =~= set_of(v@));
        },
    }
}

/// The strings of `v`, each once.
pub fn dedup(v: &Vec<String>) -> (r: Vec<String>)
    ensures
        distinct(views(r@)),
        set_of(r@) == set_of(v@),
{
    let mut r: Vec<String> = Vec::new();
    let mut i: usize = 0;
    assert(set_of(r@) =~= set_of(v@.take(0)));
    while i < v.len()
        invariant
            i <= v@.len(),
            distinct(views(r@)),
            set_of(r@) == set_of(v@.take(i as int)),
        decreases v@.len() - i,
    {
        set_insert(&mut r, v[i].as_str());
        proof {
            assert(v@.take(i + 1) =~= v@.take(i as int).push(v@[i as int]));
            lemma_push(v@.take(i as int), v@[i as int]);
        }
        i = i + 1;
    }
    assert(v@.take(i as int) =~= v@);
    r
}

} // verus!
