use vstd::prelude::*;

verus! {

/// `keys[k]` is a hit, no hit lies strictly nearer, and every earlier hit
/// lies strictly farther: the first of the nearest hits.
pub open spec fn is_nearest(keys: Seq<Option<u64>>, k: int) -> bool {
    &&& 0 <= k < keys.len()
    &&& keys[k] is Some
    &&& forall|j: int|
        0 <= j < keys.len() && #[trigger] keys[j] is Some ==> keys[k]->0 <= keys[j]->0
    &&& forall|j: int| 0 <= j < k && #[trigger] keys[j] is Some ==> keys[k]->0 < keys[j]->0
}

/// No member of the scene was hit.
pub open spec fn all_missed(keys: Seq<Option<u64>>) -> bool {
    forall|j: int| 0 <= j < keys.len() ==> #[trigger] keys[j] is None
}

/// Picks, among the intersections of one ray with each object of a scene,
/// the one nearest along the ray.
///
/// `keys[i]` is `None` where object `i` was missed, and otherwise a key
/// that orders hits as their ray parameters are ordered. The scan keeps a
/// hit only when it is strictly nearer than the best so far, so the first
/// object wins ties. The result is `None` exactly when every object missed.
pub fn nearest_hit(keys: &Vec<Option<u64>>) -> (r: Option<usize>)
    ensures
        r is None <==> all_missed(keys@),
        r matches Some(k) ==> is_nearest(keys@, k as int),
{
    let mut best: Option<usize> = None;
    let mut best_key: u64 = 0;
    let mut i: usize = 0;
    while i < keys.len()
        invariant
            i <= keys.len(),
            best is None <==> all_missed(keys@.subrange(0, i as int)),
            best matches Some(k) ==> {
                &&& is_nearest(keys@.subrange(0, i as int), k as int)
                &&& keys@[k as int] == Some(best_key)
            },
        decreases keys.len() - i,
    {
        match keys[i] {
            Some(key) => {
                let nearer = match best {
                    None => true,
                    Some(_) => key < best_key,
                };
                if nearer {
                    best = Some(i);
                    best_key = key;
                }
            },
            None => {},
        }
        i = i + 1;
        assert(keys@.subrange(0, i as int) =~= keys@.subrange(0, i - 1).push(keys@[i - 1]));
    }
    assert(keys@.subrange(0, i as int) =~= keys@);
    best
}

} // verus!
