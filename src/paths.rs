use vstd::prelude::*;

verus! {

/// A path as the sequence of its components.
pub open spec fn path_view(p: &Vec<String>) -> Seq<Seq<char>> {
    Seq::new(p@.len(), |i: int| p@[i]@)
}

/// `base` followed by the single component `name`.
pub fn join(base: &Vec<String>, name: &str) -> (r: Vec<String>)
    ensures
        path_view(&r) == path_view(base).push(name@),
{
    let mut r: Vec<String> = Vec::new();
    let mut i: usize = 0;
    while i < base.len()
        invariant
            i <= base.len(),
            r@.len() == i,
            forall|k: int| 0 <= k < i ==> r@[k]@ == base@[k]@,
        decreases base.len() - i,
    {
        r.push(base[i].clone());
        i = i + 1;
    }
    r.push(String::from_str(name));
    assert(path_view(&r) =~= path_view(base).push(name@));
    r
}

} // verus!
