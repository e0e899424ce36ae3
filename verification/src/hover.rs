//! Which entity the cursor hovers over.
//!
//! Each frame the host casts a ray from the cursor into the scene. A hit on
//! a child collider that is marked displaced counts for its parent entity.
//! The hovered entity is rewritten only when it actually changes, so that
//! the host's change detection stays quiet on frames where the cursor rests
//! on the same entity. Entities are carried as their engine bit words.

use vstd::prelude::*;

verus! {

/// The entity a ray hit stands for: the hit entity itself, unless the hit
/// collider is displaced, in which case its parent.
pub open spec fn hover_target_spec(hit: Option<u64>, displaced_parent: Option<u64>) -> Option<
    u64,
> {
    match hit {
        Some(e) => match displaced_parent {
            Some(p) => Some(p),
            None => Some(e),
        },
        None => None,
    }
}

/// Resolves a ray hit to the entity it stands for. `displaced_parent` is
/// the parent of the hit collider where that collider is marked displaced,
/// and is ignored when nothing was hit.
pub fn hover_target(hit: Option<u64>, displaced_parent: Option<u64>) -> (t: Option<u64>)
    ensures
        t == hover_target_spec(hit, displaced_parent),
{
    match hit {
        Some(e) => match displaced_parent {
            Some(p) => Some(p),
            None => Some(e),
        },
        None => None,
    }
}

/// Brings the hovered entity to the frame's target, writing only on a real
/// change. After the call the state equals the target; the returned flag
/// says whether anything was written.
pub fn update_hover(current: &mut Option<u64>, target: Option<u64>) -> (wrote: bool)
    ensures
        *final(current) == target,
        wrote == (*old(current) != target),
{
    match target {
        Some(new) => match *current {
            Some(cur) => {
                if cur != new {
                    *current = Some(new);
                    true
                } else {
                    false
                }
            },
            None => {
                *current = Some(new);
                true
            },
        },
        None => {
            if current.is_some() {
                *current = None;
                true
            } else {
                false
            }
        },
    }
}

} // verus!
