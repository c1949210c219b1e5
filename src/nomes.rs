//! Lists of occupant names: membership, removal, and their models as sequences.

use vstd::prelude::*;

verus! {

/// The names held in a list of strings, as character sequences.
pub open spec fn nomes(v: Seq<String>) -> Seq<Seq<char>> {
    v.map_values(|s: String| s@)
}

/// `q` with every occurrence of `x` taken out, the others kept in order.
pub open spec fn sem_nome(q: Seq<Seq<char>>, x: Seq<char>) -> Seq<Seq<char>>
    decreases q.len(),
{
    if q.len() == 0 {
        q
    } else {
        let r = sem_nome(q.drop_last(), x);
        if q.last() == x {
            r
        } else {
            r.push(q.last())
        }
    }
}

pub proof fn lemma_contains_push<A>(s: Seq<A>, a: A)
    ensures
        forall|y: A| s.push(a).contains(y) <==> (s.contains(y) || y == a),
{
    assert forall|y: A| s.push(a).contains(y) <==> (s.contains(y) || y == a) by {
        if s.contains(y) {
            let i = choose|i: int| 0 <= i < s.len() && s[i] == y;
            assert(s.push(a)[i] == y);
        }
        if y == a {
            assert(s.push(a)[s.len() as int] == y);
        }
        if s.push(a).contains(y) {
            let i = choose|i: int| 0 <= i < s.len() + 1 && s.push(a)[i] == y;
            if i < s.len() {
                assert(s[i] == y);
            }
        }
    }
}

/// Taking a name out removes all of it and nothing else.
pub proof fn lemma_sem_nome(q: Seq<Seq<char>>, x: Seq<char>)
    ensures
        !sem_nome(q, x).contains(x),
        forall|y: Seq<char>| y != x ==> (sem_nome(q, x).contains(y) <==> q.contains(y)),
        q.no_duplicates() ==> sem_nome(q, x).no_duplicates(),
        !q.contains(x) ==> sem_nome(q, x) == q,
    decreases q.len(),
{
    if q.len() > 0 {
        let p = q.drop_last();
        let a = q.last();
        lemma_sem_nome(p, x);
        let r = sem_nome(p, x);
        assert(q =~= p.push(a));
        lemma_contains_push(p, a);
        lemma_contains_push(r, a);
        assert forall|y: Seq<char>| y != x implies (sem_nome(q, x).contains(y) <==> q.contains(y)) by {
            assert(q.contains(y) <==> p.push(a).contains(y));
            assert(r.contains(y) <==> p.contains(y));
            assert(p.push(a).contains(y) <==> (p.contains(y) || y == a));
            assert(r.push(a).contains(y) <==> (r.contains(y) || y == a));
            if a == x {
                assert(sem_nome(q, x) == r);
            } else {
                assert(sem_nome(q, x) == r.push(a));
            }
        }
        if q.no_duplicates() {
            assert(p.no_duplicates());
            assert(!p.contains(a)) by {
                if p.contains(a) {
                    let i = choose|i: int| 0 <= i < p.len() && p[i] == a;
                    assert(q[i] == q[q.len() - 1]);
                }
            }
            if a != x {
                assert(!r.contains(a));
                assert(r.push(a).no_duplicates()) by {
                    assert forall|i: int, j: int|
                        0 <= i < r.push(a).len() && 0 <= j < r.push(a).len() && i != j implies
                        r.push(a)[i] != r.push(a)[j] by {
                        if i < r.len() && j < r.len() {
                        } else if i < r.len() {
                            assert(r.contains(r[i]));
                        } else {
                            assert(r.contains(r[j]));
                        }
                    }
                }
            }
        }
        if !q.contains(x) {
            assert(!p.contains(x));
            assert(q[q.len() - 1] == a);
        }
    }
}

/// Whether `nome` is in `v`.
pub fn contem(v: &Vec<String>, nome: &String) -> (r: bool)
    ensures
        r == nomes(v@).contains(nome@),
{
    let mut i: usize = 0;
    while i < v.len()
        invariant
            0 <= i <= v.len(),
            forall|j: int| 0 <= j < i ==> v@[j]@ != nome@,
        decreases v.len() - i,
    {
        if v[i] == *nome {
            assert(nomes(v@)[i as int] == nome@);
            return true;
        }
        i += 1;
    }
    proof {
        if nomes(v@).contains(nome@) {
            let j = choose|j: int| 0 <= j < nomes(v@).len() && nomes(v@)[j] == nome@;
            assert(v@[j]@ == nome@);
        }
    }
    false
}

/// Takes every occurrence of `nome` out of `v`, keeping the others in order.
pub fn remover_nome(v: &mut Vec<String>, nome: &String)
    ensures
        nomes(final(v)@) == sem_nome(nomes(old(v)@), nome@),
{
    let mut r: Vec<String> = Vec::new();
    let mut i: usize = 0;
    while i < v.len()
        invariant
            0 <= i <= v.len(),
            nomes(r@) == sem_nome(nomes(v@).subrange(0, i as int), nome@),
        decreases v.len() - i,
    {
        let ghost q = nomes(v@);
        assert(q.subrange(0, i + 1).drop_last() =~= q.subrange(0, i as int));
        assert(q.subrange(0, i + 1).last() == v@[i as int]@);
        if v[i] != *nome {
            let s = v[i].clone();
            r.push(s);
            assert(nomes(r@) =~= sem_nome(q.subrange(0, i as int), nome@).push(s@));
        }
        i += 1;
    }
    assert(nomes(v@).subrange(0, v.len() as int) =~= nomes(v@));
    *v = r;
}

} // verus!
