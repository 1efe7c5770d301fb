use vstd::prelude::*;

verus! {

/// The set of identities that a list of identities holds.
pub open spec fn id_set(s: Seq<u64>) -> Set<u64> {
    Set::new(|x: u64| s.contains(x))
}

/// Appending `x` to a list adds `x` to its set.
pub proof fn lemma_id_set_push(s: Seq<u64>, x: u64)
    ensures
        id_set(s.push(x)) == id_set(s).insert(x),
{
    assert forall|y: u64| #[trigger] id_set(s.push(x)).contains(y) <==> id_set(s).insert(x).contains(y) by {
        if s.contains(y) {
            let j = choose|j: int| 0 <= j < s.len() && s[j] == y;
            assert(s.push(x)[j] == y);
        }
        if y == x {
            assert(s.push(x)[s.len() as int] == y);
        }
        if s.push(x).contains(y) && y != x {
            let j = choose|j: int| 0 <= j < s.len() + 1 && s.push(x)[j] == y;
            assert(s[j] == y);
        }
    }
    assert(id_set(s.push(x)) =~= id_set(s).insert(x));
}

/// Whether `x` occurs in `v`.
pub fn contains_id(v: &Vec<u64>, x: u64) -> (r: bool)
    ensures
        r == v@.contains(x),
{
    let mut i: usize = 0;
    while i < v.len()
        invariant
            0 <= i <= v.len(),
            forall|j: int| 0 <= j < i ==> v@[j] != x,
        decreases v.len() - i,
    {
        if v[i] == x {
            return true;
        }
        i = i + 1;
    }
    false
}

} // verus!
