//! What holds of every plan that the control system makes.

use vstd::prelude::*;
use crate::components::animation::{AnimationId, AnimationView};
use crate::systems::animation::{additions, control_plan, end_control, missing};

verus! {

/// The animations to set up are those that the entity can play and that
/// are not set up yet, and none of them is named twice.
pub proof fn lemma_missing_members(types: Seq<AnimationId>, listed: Seq<AnimationId>)
    ensures
        forall|id: AnimationId|
            missing(types, listed).contains(id) <==> (types.contains(id) && !listed.contains(id)),
        missing(types, listed).no_duplicates(),
    decreases types.len(),
{
    if types.len() > 0 {
        let front = types.drop_last();
        let last = types.last();
        let earlier = missing(front, listed);
        let all = missing(types, listed);
        lemma_missing_members(front, listed);
        assert forall|id: AnimationId|
            all.contains(id) <==> (types.contains(id) && !listed.contains(id)) by {
            if types.contains(id) && id != last {
                let k = choose|k: int| 0 <= k < types.len() && types[k] == id;
                assert(front[k] == id);
            }
            if front.contains(id) {
                let k = choose|k: int| 0 <= k < front.len() && front[k] == id;
                assert(types[k] == id);
            }
            assert(types[types.len() - 1] == last);
            if !listed.contains(last) && !earlier.contains(last) {
                assert(all == earlier.push(last));
                assert(all[earlier.len() as int] == last);
                if earlier.contains(id) {
                    let k = choose|k: int| 0 <= k < earlier.len() && earlier[k] == id;
                    assert(all[k] == id);
                }
                if all.contains(id) {
                    let k = choose|k: int| 0 <= k < all.len() && all[k] == id;
                    if k < earlier.len() {
                        assert(earlier[k] == id);
                    }
                }
            }
        }
    }
}

/// A plan never sets up an animation that is set up already, sets up each
/// animation with the end that belongs to it, and sets up nothing unless
/// the animations of the entity still have to be shown.
pub proof fn lemma_plan_adds_only_missing(animation: AnimationView, listed: Seq<AnimationId>)
    ensures
        control_plan(animation, listed).start == animation.current,
        !animation.show ==> control_plan(animation, listed).add.len() == 0,
        forall|i: int|
            0 <= i < control_plan(animation, listed).add.len() ==> {
                let addition = #[trigger] control_plan(animation, listed).add[i];
                &&& animation.types.contains(addition.id)
                &&& !listed.contains(addition.id)
                &&& addition.end == end_control(addition.id)
            },
{
    lemma_missing_members(animation.types, listed);
    let ids = missing(animation.types, listed);
    assert forall|i: int| 0 <= i < control_plan(animation, listed).add.len() implies {
        let addition = #[trigger] control_plan(animation, listed).add[i];
        &&& animation.types.contains(addition.id)
        &&& !listed.contains(addition.id)
        &&& addition.end == end_control(addition.id)
    } by {
        assert(additions(ids)[i].id == ids[i]);
        assert(ids.contains(ids[i]));
    }
}

} // verus!
