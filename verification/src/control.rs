//! The jump state machine: the per-frame input controller and the
//! contact-event listener that resets the jumping flag.
//!
//! A known quirk of this controller, kept on purpose: nothing ever sets
//! `is_jumping` to true — the flag is only read and cleared. A jumper that
//! starts grounded therefore stays grounded ([`lemma_flag_never_raised`]),
//! and the space-key gate `!is_jumping` is always satisfied in any state the
//! machine can actually reach.

use vstd::prelude::*;

use crate::world::ContactEvent;
use crate::world::EntityId;
use crate::world::Jumper;
use crate::world::KeyboardInput;
use crate::world::Velocity;

verus! {

/// The jump fires when the up key is held, or when the space key is held
/// while the jumper is not flagged as airborne.
pub open spec fn jump_triggered(keys: KeyboardInput, jumper: Jumper) -> bool {
    keys.up_pressed || (keys.space_pressed && !jumper.is_jumping)
}

/// The velocity assigned on a jump: no horizontal motion, the configured
/// impulse straight up.
pub open spec fn jump_velocity(jumper: Jumper) -> Velocity {
    Velocity { x: 0, y: jumper.jump_impulse }
}

/// What one frame of input does to the player's velocity.
pub open spec fn velocity_after_input(
    keys: KeyboardInput,
    jumper: Jumper,
    velocity: Velocity,
) -> Velocity {
    if jump_triggered(keys, jumper) {
        jump_velocity(jumper)
    } else {
        velocity
    }
}

/// Whether a contact event reports a starting contact that names the given
/// entity as one of the two parties.
pub open spec fn contact_started_with(entity: EntityId, event: ContactEvent) -> bool {
    match event {
        ContactEvent::Started(h1, h2) => h1 == entity || h2 == entity,
        ContactEvent::Stopped(_, _) => false,
    }
}

/// What one contact event does to a jumper: a starting contact that names the
/// entity clears the jumping flag, anything else leaves the jumper unchanged.
pub open spec fn jumper_after_contact(
    entity: EntityId,
    jumper: Jumper,
    event: ContactEvent,
) -> Jumper {
    if contact_started_with(entity, event) {
        Jumper { jump_impulse: jumper.jump_impulse, is_jumping: false }
    } else {
        jumper
    }
}

/// Whether some event in the sequence is a starting contact naming the entity.
pub open spec fn any_contact_started_in(entity: EntityId, events: Seq<ContactEvent>) -> bool {
    exists|k: int| 0 <= k < events.len() && #[trigger] contact_started_with(entity, events[k])
}

/// What a whole batch of contact events does to a jumper: the flag is cleared
/// exactly when some starting contact in the batch names the entity; the
/// impulse is never touched.
pub open spec fn jumper_after_events(
    entity: EntityId,
    jumper: Jumper,
    events: Seq<ContactEvent>,
) -> Jumper {
    Jumper {
        jump_impulse: jumper.jump_impulse,
        is_jumping: jumper.is_jumping && !any_contact_started_in(entity, events),
    }
}

/// One frame of the input controller for one player: if the jump fires, the
/// velocity becomes the jump velocity; otherwise it is left alone. The jumper
/// itself is only read.
pub fn player_jumps(keyboard_input: &KeyboardInput, jumper: &Jumper, velocity: &mut Velocity)
    ensures
        *final(velocity) == velocity_after_input(*keyboard_input, *jumper, *old(velocity)),
{
    if keyboard_input.up_pressed || (keyboard_input.space_pressed && !jumper.is_jumping) {
        *velocity = Velocity { x: 0, y: jumper.jump_impulse };
    }
}

/// The contact listener for one jumper and one event: a starting contact that
/// names the entity grounds the jumper; every other event leaves it unchanged.
pub fn set_jumping_false_if_touching_floor(
    entity: EntityId,
    jumper: &mut Jumper,
    contact_event: &ContactEvent,
)
    ensures
        *final(jumper) == jumper_after_contact(entity, *old(jumper), *contact_event),
{
    match contact_event {
        ContactEvent::Started(h1, h2) => {
            if h1.id == entity.id || h2.id == entity.id {
                jumper.is_jumping = false;
            }
        }
        ContactEvent::Stopped(_, _) => {}
    }
}

/// Applies one contact event to every jumper in the world.
pub fn jump_reset_event(jumpers: &mut Vec<(EntityId, Jumper)>, contact_event: &ContactEvent)
    ensures
        final(jumpers)@.len() == old(jumpers)@.len(),
        forall|k: int| 0 <= k < old(jumpers)@.len() ==> #[trigger] final(jumpers)@[k] == (
            old(jumpers)@[k].0,
            jumper_after_contact(old(jumpers)@[k].0, old(jumpers)@[k].1, *contact_event),
        ),
{
    let ghost jumpers0 = jumpers@;
    let mut idx: usize = 0;
    while idx < jumpers.len()
        invariant
            idx <= jumpers@.len(),
            jumpers@.len() == jumpers0.len(),
            forall|k: int| idx <= k < jumpers0.len() ==> #[trigger] jumpers@[k] == jumpers0[k],
            forall|k: int| 0 <= k < idx ==> #[trigger] jumpers@[k] == (
                jumpers0[k].0,
                jumper_after_contact(jumpers0[k].0, jumpers0[k].1, *contact_event),
            ),
        decreases jumpers@.len() - idx,
    {
        let entry = &mut jumpers[idx];
        let entity = entry.0;
        set_jumping_false_if_touching_floor(entity, &mut entry.1, contact_event);
        idx += 1;
    }
}

/// The per-frame contact listener: every contact event is applied to every
/// jumper, so a jumper's flag ends up cleared exactly when some starting
/// contact in the batch names its entity.
pub fn jump_reset(jumpers: &mut Vec<(EntityId, Jumper)>, contact_events: &Vec<ContactEvent>)
    ensures
        final(jumpers)@.len() == old(jumpers)@.len(),
        forall|k: int| 0 <= k < old(jumpers)@.len() ==> #[trigger] final(jumpers)@[k] == (
            old(jumpers)@[k].0,
            jumper_after_events(old(jumpers)@[k].0, old(jumpers)@[k].1, contact_events@),
        ),
{
    let ghost jumpers0 = jumpers@;
    let mut i: usize = 0;
    while i < contact_events.len()
        invariant
            i <= contact_events@.len(),
            jumpers@.len() == jumpers0.len(),
            forall|k: int| 0 <= k < jumpers0.len() ==> #[trigger] jumpers@[k] == (
                jumpers0[k].0,
                jumper_after_events(jumpers0[k].0, jumpers0[k].1, contact_events@.take(i as int)),
            ),
        decreases contact_events@.len() - i,
    {
        let ghost before = jumpers@;
        jump_reset_event(jumpers, &contact_events[i]);
        proof {
            assert forall|k: int| 0 <= k < jumpers0.len() implies #[trigger] jumpers@[k] == (
                jumpers0[k].0,
                jumper_after_events(jumpers0[k].0, jumpers0[k].1, contact_events@.take(i + 1)),
            ) by {
                lemma_any_contact_started_take_step(jumpers0[k].0, contact_events@, i as int);
            }
        }
        i += 1;
    }
    proof {
        assert(contact_events@.take(contact_events@.len() as int) =~= contact_events@);
    }
}

/// Extending the processed prefix by one event adds exactly that event's
/// starting contacts to what has been seen.
proof fn lemma_any_contact_started_take_step(entity: EntityId, events: Seq<ContactEvent>, i: int)
    requires
        0 <= i < events.len(),
    ensures
        any_contact_started_in(entity, events.take(i + 1)) == (any_contact_started_in(
            entity,
            events.take(i),
        ) || contact_started_with(entity, events[i])),
{
    let pre = events.take(i);
    let ext = events.take(i + 1);
    if any_contact_started_in(entity, ext) {
        let k = choose|k: int| 0 <= k < ext.len() && #[trigger] contact_started_with(
            entity,
            ext[k],
        );
        if k < i {
            assert(pre[k] == ext[k]);
            assert(any_contact_started_in(entity, pre));
        } else {
            assert(ext[k] == events[i]);
        }
    }
    if any_contact_started_in(entity, pre) {
        let k = choose|k: int| 0 <= k < pre.len() && #[trigger] contact_started_with(
            entity,
            pre[k],
        );
        assert(ext[k] == pre[k]);
        assert(contact_started_with(entity, ext[k]));
    }
    if contact_started_with(entity, events[i]) {
        assert(ext[i] == events[i]);
        assert(contact_started_with(entity, ext[i]));
    }
}

/// On a frame where neither up nor space is pressed, the controller leaves
/// the velocity untouched, whatever the jumper's state.
pub proof fn lemma_no_input_keeps_velocity(keys: KeyboardInput, jumper: Jumper, velocity: Velocity)
    requires
        !keys.up_pressed,
        !keys.space_pressed,
    ensures
        velocity_after_input(keys, jumper, velocity) == velocity,
{
}

/// On a frame where up or space is pressed and the jumper is not flagged as
/// airborne — the only states the machine can reach, since the flag is never
/// raised — the controller sets the velocity to exactly the jump velocity,
/// whatever it was before.
pub proof fn lemma_input_sets_jump_velocity(
    keys: KeyboardInput,
    jumper: Jumper,
    velocity: Velocity,
)
    requires
        keys.up_pressed || keys.space_pressed,
        !jumper.is_jumping,
    ensures
        velocity_after_input(keys, jumper, velocity) == jump_velocity(jumper),
{
}

/// A contact-start event naming the entity grounds the jumper and keeps its
/// impulse; any event not naming it — or a stopped contact — leaves the
/// jumper exactly as it was.
pub proof fn lemma_contact_event_effect(entity: EntityId, jumper: Jumper, event: ContactEvent)
    ensures
        contact_started_with(entity, event) ==> !jumper_after_contact(
            entity,
            jumper,
            event,
        ).is_jumping,
        contact_started_with(entity, event) ==> jumper_after_contact(
            entity,
            jumper,
            event,
        ).jump_impulse == jumper.jump_impulse,
        !contact_started_with(entity, event) ==> jumper_after_contact(entity, jumper, event)
            == jumper,
{
}

/// The jumping flag is only ever cleared, never raised: a jumper that is
/// grounded stays grounded through any batch of contact events, and the input
/// controller does not write the flag at all. This makes the space-key gate
/// `!is_jumping` vacuous in every reachable state.
pub proof fn lemma_flag_never_raised(entity: EntityId, jumper: Jumper, events: Seq<ContactEvent>)
    requires
        !jumper.is_jumping,
    ensures
        !jumper_after_events(entity, jumper, events).is_jumping,
{
}

} // verus!
