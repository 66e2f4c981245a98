//! What the number keys decide: which body the camera follows.
use vstd::prelude::*;

verus! {

/// The number of keys that pick a body: the digits one to eight.
pub const FOCUS_KEYS: usize = 8;

/// The place in the scene of the body that key `key` picks, the keys
/// counted from zero. The keys skip the craft, the sun and the rings.
pub open spec fn focus_of_key(key: int) -> int {
    if key < 6 {
        key + 2
    } else {
        key + 3
    }
}

/// Whether `key` is the highest key that is down.
pub open spec fn highest_down(keys: Seq<bool>, key: int) -> bool {
    &&& 0 <= key < keys.len()
    &&& keys[key]
    &&& forall|other: int| key < other < keys.len() ==> !keys[other]
}

/// Follows the body of the highest number key that is down; with no key
/// down, nothing changes. `keys[i]` says whether the key of digit `i + 1`
/// is down.
pub fn planet_selector(keys: &[bool; 8], focus_mode: &mut bool, focus_index: &mut usize)
    ensures
        (forall|key: int| 0 <= key < 8 ==> !keys@[key]) ==> *final(focus_mode) == *old(focus_mode)
            && *final(focus_index) == *old(focus_index),
        forall|key: int| #[trigger]
            highest_down(keys@, key) ==> *final(focus_mode) && *final(focus_index) == focus_of_key(
                key,
            ),
{
    let ghost mut found: Option<int> = None;
    let mut key: usize = 0;
    while key < 8
        invariant
            key <= 8,
            found is None ==> *focus_mode == *old(focus_mode) && *focus_index == *old(focus_index),
            found is None ==> forall|k: int| 0 <= k < key ==> !keys@[k],
            found matches Some(h) ==> {
                &&& 0 <= h < key
                &&& keys@[h]
                &&& forall|other: int| h < other < key ==> !keys@[other]
                &&& *focus_mode
                &&& *focus_index == focus_of_key(h)
            },
        decreases 8 - key,
    {
        if keys[key] {
            *focus_index = if key < 6 {
                key + 2
            } else {
                key + 3
            };
            *focus_mode = true;
            proof {
                found = Some(key as int);
            }
        }
        key += 1;
    }
    assert forall|k: int| highest_down(keys@, k) implies *focus_mode && *focus_index
        == focus_of_key(k) by {
        match found {
            Some(h) => {
                if h < k {
                    assert(!keys@[k]);
                } else if k < h {
                    assert(!keys@[h]);
                }
            },
            None => {
                assert(!keys@[k]);
            },
        }
    }
}

} // verus!
