//! The decisions taken before the player is moved: whether the pointer is
//! locked, and which way the player moves vertically.
//!
//! Turning these into an orientation and a position is numeric work on the
//! host's side; what is decided here is exact.

use vstd::prelude::*;
use crate::input::DigitalState;

verus! {

/// When a press of the toggle action flips the pointer lock.
#[derive(Clone, Copy, Debug, PartialEq, Eq, Structural)]
pub enum PointerLockPolicy {
    /// Every press flips the lock.
    ToggleAlways,
    /// A press flips the lock only while the window has the focus.
    ToggleWhenFocused,
}

/// Whether this frame's press of the toggle action counts under the policy.
pub open spec fn toggle_counts(
    policy: PointerLockPolicy,
    toggle: DigitalState,
    focused: bool,
) -> bool {
    toggle.pressed && (policy is ToggleAlways || focused)
}

/// Whether the pointer is to be locked after this frame: the current lock,
/// flipped by a press that counts; and in any case locked while a look axis is
/// deflected, since analog looking needs the lock.
pub open spec fn spec_lock_pointer(
    policy: PointerLockPolicy,
    locked: bool,
    toggle: DigitalState,
    focused: bool,
    look_engaged: bool,
) -> bool {
    (locked != toggle_counts(policy, toggle, focused)) || look_engaged
}

/// Decides whether the pointer is to be locked after this frame.
///
/// `locked` is the lock as it stands, `focused` whether the window has the
/// focus, `look_engaged` whether either analog look axis is away from zero.
#[verifier::when_used_as_spec(spec_lock_pointer)]
pub fn lock_pointer(
    policy: PointerLockPolicy,
    locked: bool,
    toggle: DigitalState,
    focused: bool,
    look_engaged: bool,
) -> (lock: bool)
    ensures
        lock == spec_lock_pointer(policy, locked, toggle, focused, look_engaged),
        look_engaged ==> lock,
        !look_engaged && !toggle.pressed ==> lock == locked,
        policy is ToggleAlways && !look_engaged && toggle.pressed ==> lock == !locked,
{
    let counts = toggle.pressed && match policy {
        PointerLockPolicy::ToggleAlways => true,
        PointerLockPolicy::ToggleWhenFocused => focused,
    };
    (locked ^ counts) || look_engaged
}

/// Vertical intent of the player: up by one while jumping, down by one while
/// sneaking, the two added up.
pub open spec fn spec_net_vertical_motion(jump: DigitalState, sneak: DigitalState) -> int {
    (if jump.held { 1int } else { 0int }) - (if sneak.held { 1int } else { 0int })
}

/// Vertical intent of the player, in `-1 ..= 1`. Jumping and sneaking at once
/// cancel each other.
pub fn net_vertical_motion(jump: DigitalState, sneak: DigitalState) -> (net: i8)
    ensures
        net == spec_net_vertical_motion(jump, sneak),
        -1 <= net <= 1,
        jump.held && sneak.held ==> net == 0,
{
    let up: i8 = if jump.held { 1 } else { 0 };
    let down: i8 = if sneak.held { 1 } else { 0 };
    up - down
}

/// What the host needs to know to move the player in this frame.
#[derive(Clone, Copy, Debug, PartialEq, Eq, Structural)]
pub struct MotionPlan {
    /// Whether the pointer is to be locked from now on.
    pub lock_pointer: bool,
    /// Vertical intent, in `-1 ..= 1`.
    pub vertical: i8,
}

/// Two presses of the toggle in two frames, with the look axes at rest, leave
/// the lock as it was, as long as the focus does not change in between.
pub proof fn lemma_toggle_twice_restores_lock(
    policy: PointerLockPolicy,
    locked: bool,
    first: DigitalState,
    second: DigitalState,
    focused: bool,
)
    requires
        first.pressed,
        second.pressed,
    ensures
        spec_lock_pointer(
            policy,
            spec_lock_pointer(policy, locked, first, focused, false),
            second,
            focused,
            false,
        ) == locked,
{
}

/// The two policies differ only in a frame in which the toggle is pressed
/// while the window lacks the focus.
pub proof fn lemma_policies_agree_when_focused(
    locked: bool,
    toggle: DigitalState,
    focused: bool,
    look_engaged: bool,
)
    requires
        focused || !toggle.pressed,
    ensures
        spec_lock_pointer(PointerLockPolicy::ToggleAlways, locked, toggle, focused, look_engaged)
            == spec_lock_pointer(
            PointerLockPolicy::ToggleWhenFocused,
            locked,
            toggle,
            focused,
            look_engaged,
        ),
{
}

} // verus!
