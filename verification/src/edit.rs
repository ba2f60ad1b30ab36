//! The edit debouncer: one press edits once, a hold repeats at a slower pace.
//!
//! Placing and deleting share one deadline and one flag, so within a cooldown
//! window at most one of them can act, and a frame yields at most one edit.

use vstd::prelude::*;
use crate::input::DigitalState;
use crate::world::{RaycastHit, RaycastObject, Voxel};

verus! {

/// Nanoseconds of cooldown after the edit that a fresh press causes.
pub const PRESS_COOLDOWN: u64 = 250_000_000;

/// Nanoseconds of cooldown after each edit that a continued hold causes.
pub const REPEAT_COOLDOWN: u64 = 50_000_000;

/// The two cooldowns of the debouncer, in nanoseconds.
#[derive(Clone, Copy, Debug, PartialEq, Eq, Structural)]
pub struct EditTiming {
    /// Cooldown after an edit caused by a fresh press.
    pub press_cooldown: u64,
    /// Cooldown after an edit caused by a continued hold.
    pub repeat_cooldown: u64,
}

impl EditTiming {
    /// The stock timing: a quarter of a second after a press, a twentieth of
    /// a second between repeats.
    pub open spec fn standard() -> EditTiming {
        EditTiming { press_cooldown: PRESS_COOLDOWN, repeat_cooldown: REPEAT_COOLDOWN }
    }

    /// Whether either cooldown can be added to `now` within the range of a
    /// timestamp.
    pub open spec fn admits(self, now: u64) -> bool {
        &&& now + self.press_cooldown <= u64::MAX
        &&& now + self.repeat_cooldown <= u64::MAX
    }

    /// The cooldown that follows an edit: the long one after a fresh press,
    /// the short one after a repeat.
    pub open spec fn cooldown(self, fresh: bool) -> u64 {
        if fresh {
            self.press_cooldown
        } else {
            self.repeat_cooldown
        }
    }

    /// Run-time test of [`EditTiming::admits`].
    pub fn fits(&self, now: u64) -> (ok: bool)
        ensures
            ok == self.admits(now),
    {
        now <= u64::MAX - self.press_cooldown && now <= u64::MAX - self.repeat_cooldown
    }
}

impl Default for EditTiming {
    fn default() -> (timing: EditTiming)
        ensures
            timing == EditTiming::standard(),
    {
        EditTiming { press_cooldown: PRESS_COOLDOWN, repeat_cooldown: REPEAT_COOLDOWN }
    }
}

/// Which of the two edits an action is.
#[derive(Clone, Copy, Debug, PartialEq, Eq, Structural)]
pub enum EditKind {
    Delete,
    Place,
}

/// Why an edit happens in a frame.
#[derive(Clone, Copy, Debug, PartialEq, Eq, Structural)]
pub struct Firing {
    /// The edit to perform.
    pub kind: EditKind,
    /// Whether a fresh press caused it (else a continued hold).
    pub fresh: bool,
}

/// An edit for the host to carry out in the world.
#[derive(Clone, Copy, Debug, PartialEq, Eq, Structural)]
pub enum EditCommand {
    /// Delete voxels at the coordinate.
    Delete { voxel: Voxel },
    /// Place voxels of the selected item at the coordinate.
    Place { voxel: Voxel, item: u32 },
}

/// State of the debouncer between frames.
#[derive(Clone, Copy, Debug, PartialEq, Eq, Structural)]
pub struct EditDebouncer {
    /// Earliest time, in nanoseconds, at which the next edit may happen.
    pub wait_until: u64,
    /// Whether a press has caused an edit and one of the two actions has been
    /// held in every frame since.
    pub was_placing: bool,
}

impl EditDebouncer {
    /// The debouncer before any edit: no deadline, nothing held.
    pub open spec fn spec_new() -> EditDebouncer {
        EditDebouncer { wait_until: 0, was_placing: false }
    }

    /// The debouncer before any edit: no deadline, nothing held.
    #[verifier::when_used_as_spec(spec_new)]
    pub fn new() -> (d: EditDebouncer)
        ensures
            d == EditDebouncer::spec_new(),
    {
        EditDebouncer { wait_until: 0, was_placing: false }
    }

    /// Whether an edit is possible at all in this frame: the ray struck the
    /// world surface and the cooldown is over.
    pub open spec fn ready(self, hit: Option<RaycastHit>, now: u64) -> bool {
        &&& hit matches Some(h)
        &&& h.object is World
        &&& self.wait_until <= now
    }

    /// The edit that this frame's input causes, if any. Deleting is asked
    /// first, so it wins over placing; a fresh press is asked before a hold.
    pub open spec fn firing(
        self,
        hit: Option<RaycastHit>,
        delete: DigitalState,
        place: DigitalState,
        now: u64,
    ) -> Option<Firing> {
        if !self.ready(hit, now) {
            None
        } else if delete.pressed {
            Some(Firing { kind: EditKind::Delete, fresh: true })
        } else if self.was_placing && delete.held {
            Some(Firing { kind: EditKind::Delete, fresh: false })
        } else if place.pressed {
            Some(Firing { kind: EditKind::Place, fresh: true })
        } else if self.was_placing && place.held {
            Some(Firing { kind: EditKind::Place, fresh: false })
        } else {
            None
        }
    }

    /// The command handed to the host for this frame's input, if any.
    pub open spec fn command(
        self,
        hit: Option<RaycastHit>,
        delete: DigitalState,
        place: DigitalState,
        item: u32,
        now: u64,
    ) -> Option<EditCommand> {
        match self.firing(hit, delete, place, now) {
            Some(f) => Some(
                match f.kind {
                    EditKind::Delete => EditCommand::Delete { voxel: hit->0.voxel },
                    EditKind::Place => EditCommand::Place { voxel: hit->0.voxel, item },
                },
            ),
            None => None,
        }
    }

    /// The deadline after this frame: moved behind `now` by the cooldown of
    /// the edit that fired, untouched when none fired.
    pub open spec fn next_deadline(
        self,
        timing: EditTiming,
        hit: Option<RaycastHit>,
        delete: DigitalState,
        place: DigitalState,
        now: u64,
    ) -> int {
        match self.firing(hit, delete, place, now) {
            Some(f) => now + timing.cooldown(f.fresh),
            None => self.wait_until as int,
        }
    }

    /// The flag after this frame: raised by an edit from a fresh press, and
    /// in every frame, edit or not, dropped unless one of the two actions is
    /// held.
    pub open spec fn next_flag(
        self,
        hit: Option<RaycastHit>,
        delete: DigitalState,
        place: DigitalState,
        now: u64,
    ) -> bool {
        let raised = match self.firing(hit, delete, place, now) {
            Some(f) => f.fresh,
            None => false,
        };
        (self.was_placing || raised) && (delete.held || place.held)
    }

    /// The debouncer after this frame.
    pub open spec fn after(
        self,
        timing: EditTiming,
        hit: Option<RaycastHit>,
        delete: DigitalState,
        place: DigitalState,
        now: u64,
    ) -> EditDebouncer {
        EditDebouncer {
            wait_until: self.next_deadline(timing, hit, delete, place, now) as u64,
            was_placing: self.next_flag(hit, delete, place, now),
        }
    }

    /// Advances the debouncer by one frame and says which edit, if any, the
    /// host is to carry out.
    ///
    /// `hit` is what the pointer ray struck in this frame, `item` the
    /// selected item that a placement uses, `now` the frame's timestamp in
    /// nanoseconds. A frame without a pointer ray does not reach the
    /// debouncer at all.
    pub fn step(
        &mut self,
        timing: &EditTiming,
        hit: Option<RaycastHit>,
        delete: DigitalState,
        place: DigitalState,
        item: u32,
        now: u64,
    ) -> (command: Option<EditCommand>)
        requires
            timing.admits(now),
        ensures
            command == old(self).command(hit, delete, place, item, now),
            *final(self) == old(self).after(*timing, hit, delete, place, now),
            final(self).wait_until == old(self).next_deadline(*timing, hit, delete, place, now),
            final(self).wait_until >= old(self).wait_until,
            command is Some ==> hit is Some && hit->0.object is World,
            command is Some ==> old(self).wait_until <= now,
            command is Some ==> final(self).wait_until >= now,
    {
        let mut command: Option<EditCommand> = None;
        if let Some(h) = hit {
            let on_world = match h.object {
                RaycastObject::World => true,
                RaycastObject::Entity { .. } => false,
            };
            if on_world && self.wait_until <= now {
                if delete.pressed {
                    self.wait_until = now + timing.press_cooldown;
                    self.was_placing = true;
                    command = Some(EditCommand::Delete { voxel: h.voxel });
                } else if self.was_placing && delete.held {
                    self.wait_until = now + timing.repeat_cooldown;
                    command = Some(EditCommand::Delete { voxel: h.voxel });
                } else if place.pressed {
                    self.wait_until = now + timing.press_cooldown;
                    self.was_placing = true;
                    command = Some(EditCommand::Place { voxel: h.voxel, item });
                } else if self.was_placing && place.held {
                    self.wait_until = now + timing.repeat_cooldown;
                    command = Some(EditCommand::Place { voxel: h.voxel, item });
                }
            }
        }
        self.was_placing = self.was_placing && (delete.held || place.held);
        command
    }
}

/// A fresh press of either action, on a world hit with the cooldown over,
/// causes an edit, and the next edit has to wait for the press cooldown (a
/// quarter of a second with the stock timing).
pub proof fn lemma_press_edits_and_arms_cooldown(
    state: EditDebouncer,
    timing: EditTiming,
    hit: Option<RaycastHit>,
    delete: DigitalState,
    place: DigitalState,
    item: u32,
    now: u64,
)
    requires
        timing.admits(now),
        state.ready(hit, now),
        delete.pressed || (place.pressed && !(state.was_placing && delete.held)),
    ensures
        state.command(hit, delete, place, item, now) is Some,
        state.after(timing, hit, delete, place, now).wait_until == now + timing.press_cooldown,
        EditTiming::standard().press_cooldown == 250_000_000,
{
}

/// Once both actions are let go, nothing is edited, whatever the ray strikes
/// and however much time passes: the one press has edited exactly once.
pub proof fn lemma_released_actions_never_edit(
    state: EditDebouncer,
    timing: EditTiming,
    hit: Option<RaycastHit>,
    item: u32,
    now: u64,
)
    ensures
        state.command(hit, DigitalState::idle(), DigitalState::idle(), item, now) is None,
        state.after(timing, hit, DigitalState::idle(), DigitalState::idle(), now)
            == (EditDebouncer { wait_until: state.wait_until, was_placing: false }),
{
}

/// Before the deadline no input causes an edit, and the frame leaves the
/// deadline where it was.
pub proof fn lemma_no_edit_before_deadline(
    state: EditDebouncer,
    timing: EditTiming,
    hit: Option<RaycastHit>,
    delete: DigitalState,
    place: DigitalState,
    item: u32,
    now: u64,
)
    requires
        now < state.wait_until,
    ensures
        state.command(hit, delete, place, item, now) is None,
        state.after(timing, hit, delete, place, now).wait_until == state.wait_until,
{
}

/// Nothing is edited unless the ray struck the world surface: neither on an
/// entity nor without a hit.
pub proof fn lemma_no_edit_off_world(
    state: EditDebouncer,
    timing: EditTiming,
    hit: Option<RaycastHit>,
    delete: DigitalState,
    place: DigitalState,
    item: u32,
    now: u64,
)
    requires
        hit is None || hit->0.object is Entity,
    ensures
        state.command(hit, delete, place, item, now) is None,
        state.after(timing, hit, delete, place, now).wait_until == state.wait_until,
{
}

/// Deleting preempts placing: whenever the delete action is due, by a fresh
/// press or by a continued hold, the frame's edit is a deletion, whatever the
/// place action does in the same frame.
pub proof fn lemma_delete_preempts_place(
    state: EditDebouncer,
    hit: Option<RaycastHit>,
    delete: DigitalState,
    place: DigitalState,
    item: u32,
    now: u64,
)
    requires
        state.ready(hit, now),
        delete.pressed || (state.was_placing && delete.held),
    ensures
        state.command(hit, delete, place, item, now) == Some(
            EditCommand::Delete { voxel: hit->0.voxel },
        ),
{
}

/// Holding an action over three frames: pressed at `t0`, still held at `t1`
/// when the press cooldown is over, and still held at `t2`.
///
/// The frame at `t1` edits again and sets the deadline to `t1` plus the
/// repeat cooldown (a twentieth of a second with the stock timing). The frame
/// at `t2` edits if and only if `t2` has reached that deadline: after exactly
/// the repeat cooldown, not sooner.
pub proof fn lemma_hold_repeats_at_fast_interval(
    state: EditDebouncer,
    timing: EditTiming,
    hit0: RaycastHit,
    hit1: RaycastHit,
    hit2: RaycastHit,
    delete_held: bool,
    place_held: bool,
    item: u32,
    t0: u64,
    t1: u64,
    t2: u64,
)
    requires
        timing.admits(t0),
        timing.admits(t1),
        timing.admits(t2),
        hit0.object is World,
        hit1.object is World,
        hit2.object is World,
        state.wait_until <= t0,
        delete_held || place_held,
        t0 + timing.press_cooldown <= t1 <= t2,
    ensures
        ({
            let pressed = (
                DigitalState { pressed: delete_held, held: delete_held },
                DigitalState { pressed: place_held, held: place_held },
            );
            let held = (
                DigitalState { pressed: false, held: delete_held },
                DigitalState { pressed: false, held: place_held },
            );
            let s1 = state.after(timing, Some(hit0), pressed.0, pressed.1, t0);
            let s2 = s1.after(timing, Some(hit1), held.0, held.1, t1);
            &&& state.command(Some(hit0), pressed.0, pressed.1, item, t0) is Some
            &&& s1.wait_until == t0 + timing.press_cooldown
            &&& s1.command(Some(hit1), held.0, held.1, item, t1) is Some
            &&& s2.wait_until == t1 + timing.repeat_cooldown
            &&& s2.command(Some(hit2), held.0, held.1, item, t2) is Some <==> t1
                + timing.repeat_cooldown <= t2
        }),
        EditTiming::standard().repeat_cooldown == 50_000_000,
{
}

/// The deadline never moves backwards.
pub proof fn lemma_deadline_moves_forward(
    state: EditDebouncer,
    timing: EditTiming,
    hit: Option<RaycastHit>,
    delete: DigitalState,
    place: DigitalState,
    now: u64,
)
    requires
        timing.admits(now),
    ensures
        state.after(timing, hit, delete, place, now).wait_until >= state.wait_until,
{
}

} // verus!
