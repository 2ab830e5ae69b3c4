use vstd::prelude::*;

verus! {

/// Whether member `i` holds the nearest hit: it was hit, no member was hit
/// nearer, and every earlier member was hit strictly farther or not at all.
///
/// `keys[j]` is the order key of the hit parameter of member `j` of the
/// scene, `None` for a miss.
pub open spec fn is_nearest(keys: Seq<Option<u64>>, i: int) -> bool {
    &&& 0 <= i < keys.len()
    &&& keys[i] is Some
    &&& forall|j: int|
        0 <= j < keys.len() && (#[trigger] keys[j]) is Some ==> keys[i]->0 <= keys[j]->0
    &&& forall|j: int| 0 <= j < i && (#[trigger] keys[j]) is Some ==> keys[i]->0 < keys[j]->0
}

/// Which root of a ray-sphere intersection is taken.
#[derive(Clone, Copy, Debug, PartialEq, Eq, Structural)]
pub enum Root {
    /// The smaller parameter: where the ray enters the sphere.
    Near,
    /// The larger parameter: where the ray leaves it.
    Far,
}

/// Picks the intersection a ray reports against a sphere: the near root when
/// it lies in the accepted interval, else the far root when that one does,
/// else no hit.
pub fn choose_root(near_in_range: bool, far_in_range: bool) -> (r: Option<Root>)
    ensures
        r == if near_in_range {
            Some(Root::Near)
        } else if far_in_range {
            Some(Root::Far)
        } else {
            None
        },
{
    if near_in_range {
        Some(Root::Near)
    } else if far_in_range {
        Some(Root::Far)
    } else {
        None
    }
}

/// The order key of a 64-bit float given by its bit pattern: the sign bit
/// flipped for a non-negative float, every bit flipped for a negative one,
/// so that keys compare as `f64::total_cmp` compares the floats.
pub open spec fn order_key_of(bits: u64) -> u64 {
    if bits >= 0x8000_0000_0000_0000 {
        (u64::MAX - bits) as u64
    } else {
        (bits + 0x8000_0000_0000_0000) as u64
    }
}

/// The order key of the hit parameter whose bit pattern is `bits`.
pub fn order_key(bits: u64) -> (r: u64)
    ensures
        r == order_key_of(bits),
{
    if bits >= 0x8000_0000_0000_0000 {
        u64::MAX - bits
    } else {
        bits + 0x8000_0000_0000_0000
    }
}

/// Whether no member of the scene was hit.
pub open spec fn all_missed(keys: Seq<Option<u64>>) -> bool {
    forall|j: int| 0 <= j < keys.len() ==> (#[trigger] keys[j]) is None
}

/// Resolves the nearest hit of a scene from the results of its members, the
/// first member winning among equally near ones; `None` when every member
/// missed.
pub fn nearest_hit(keys: &Vec<Option<u64>>) -> (r: Option<usize>)
    ensures
        r is None <==> all_missed(keys@),
        r matches Some(i) ==> is_nearest(keys@, i as int),
{
    let mut best: Option<usize> = None;
    let mut j: usize = 0;
    while j < keys.len()
        invariant
            j <= keys@.len(),
            best is None <==> all_missed(keys@.take(j as int)),
            best matches Some(i) ==> is_nearest(keys@.take(j as int), i as int),
        decreases keys@.len() - j,
    {
        let ghost seen = keys@.take(j as int);
        assert(keys@.take(j + 1) =~= seen.push(keys@[j as int]));
        match keys[j] {
            None => {},
            Some(t) => {
                match best {
                    None => {
                        best = Some(j);
                    },
                    Some(i) => {
                        if t < keys[i].unwrap() {
                            best = Some(j);
                        }
                    },
                }
            },
        }
        j = j + 1;
        proof {
            let now = keys@.take(j as int);
            if let Some(i) = best {
                assert forall|k: int| 0 <= k < now.len() && (#[trigger] now[k]) is Some implies now[i as int]->0
                    <= now[k]->0 by {
                    if k < seen.len() {
                        assert(now[k] == seen[k]);
                    }
                }
                assert forall|k: int| 0 <= k < i && (#[trigger] now[k]) is Some implies now[i as int]->0
                    < now[k]->0 by {
                    assert(now[k] == seen[k]);
                }
            }
        }
    }
    assert(keys@.take(j as int) =~= keys@);
    best
}

} // verus!
