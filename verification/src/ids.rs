//! Ranges and lists of motor ids.
use vstd::prelude::*;

verus! {

/// The ids from `from` to `to`, in order.
pub open spec fn ids_between(from: u8, to: u8) -> Seq<u8> {
    if to < from {
        Seq::empty()
    } else {
        Seq::new((to - from + 1) as nat, |i: int| (from + i) as u8)
    }
}

/// Whether `id` is among `ids`.
pub fn contains(ids: &Vec<u8>, id: u8) -> (r: bool)
    ensures
        r == ids@.contains(id),
{
    let mut i: usize = 0;
    while i < ids.len()
        invariant
            i <= ids.len(),
            forall|j: int| 0 <= j < i ==> ids@[j] != id,
        decreases ids.len() - i,
    {
        if ids[i] == id {
            assert(ids@[i as int] == id);
            return true;
        }
        i = i + 1;
    }
    false
}

/// A range holds exactly the ids from its first to its last, each once, in order.
pub proof fn law_ids_of_a_range(from: u8, to: u8, id: u8, i: int)
    ensures
        ids_between(from, to).contains(id) <==> from <= id <= to,
        from <= to ==> ids_between(from, to).len() == to - from + 1,
        to < from ==> ids_between(from, to).len() == 0,
        0 <= i < ids_between(from, to).len() ==> ids_between(from, to)[i] == from + i,
{
    if from <= id <= to {
        assert(ids_between(from, to)[id - from] == id);
    }
}

} // verus!
