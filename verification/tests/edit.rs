use player_controller::edit::{
    EditCommand, EditDebouncer, EditTiming, PRESS_COOLDOWN, REPEAT_COOLDOWN,
};
use player_controller::input::DigitalState;
use player_controller::world::{RaycastHit, RaycastObject, Voxel};

const MILLI: u64 = 1_000_000;

const IDLE: DigitalState = DigitalState { pressed: false, held: false };
const PRESSED: DigitalState = DigitalState { pressed: true, held: true };
const HELD: DigitalState = DigitalState { pressed: false, held: true };

const TARGET: Voxel = Voxel { x: 3, y: -4, z: 5 };

fn on_world() -> Option<RaycastHit> {
    Some(RaycastHit { distance: 2560, voxel: TARGET, object: RaycastObject::World })
}

fn on_entity() -> Option<RaycastHit> {
    Some(RaycastHit { distance: 2560, voxel: TARGET, object: RaycastObject::Entity { id: 1 } })
}

fn stock() -> EditTiming {
    EditTiming::default()
}

#[test]
fn stock_timing_values() {
    assert_eq!(PRESS_COOLDOWN, 250 * MILLI);
    assert_eq!(REPEAT_COOLDOWN, 50 * MILLI);
    assert_eq!(stock(), EditTiming { press_cooldown: 250 * MILLI, repeat_cooldown: 50 * MILLI });
    assert_eq!(EditDebouncer::new(), EditDebouncer { wait_until: 0, was_placing: false });
}

#[test]
fn timing_fits_up_to_the_last_timestamp() {
    let timing = stock();
    assert!(timing.fits(0));
    assert!(timing.fits(u64::MAX - 250 * MILLI));
    assert!(!timing.fits(u64::MAX - 250 * MILLI + 1));
    assert!(!timing.fits(u64::MAX));
    let repeat_longer = EditTiming { press_cooldown: 1, repeat_cooldown: 10 };
    assert!(repeat_longer.fits(u64::MAX - 10));
    assert!(!repeat_longer.fits(u64::MAX - 9));
    let none = EditTiming { press_cooldown: 0, repeat_cooldown: 0 };
    assert!(none.fits(u64::MAX));
}

#[test]
fn press_edits_once_and_sets_quarter_second_cooldown() {
    let mut debouncer = EditDebouncer::new();
    let now = 40 * MILLI;
    let command = debouncer.step(&stock(), on_world(), PRESSED, IDLE, 0, now);
    assert_eq!(command, Some(EditCommand::Delete { voxel: TARGET }));
    assert_eq!(debouncer, EditDebouncer { wait_until: now + 250 * MILLI, was_placing: true });

    // The button is let go: nothing more happens, however long one waits.
    for later in [now + 1, now + 250 * MILLI, now + 251 * MILLI, now + 10_000 * MILLI] {
        let command = debouncer.step(&stock(), on_world(), IDLE, IDLE, 0, later);
        assert_eq!(command, None);
        assert_eq!(debouncer, EditDebouncer { wait_until: now + 250 * MILLI, was_placing: false });
    }
}

#[test]
fn place_press_edits_with_item() {
    let mut debouncer = EditDebouncer { wait_until: 10, was_placing: false };
    let command = debouncer.step(&stock(), on_world(), IDLE, PRESSED, 1234, 10);
    assert_eq!(command, Some(EditCommand::Place { voxel: TARGET, item: 1234 }));
    assert_eq!(debouncer, EditDebouncer { wait_until: 10 + 250 * MILLI, was_placing: true });
}

#[test]
fn hold_repeats_after_fast_interval_not_sooner() {
    let mut debouncer = EditDebouncer::new();
    let t0 = 1_000 * MILLI;
    assert!(debouncer.step(&stock(), on_world(), IDLE, PRESSED, 2, t0).is_some());

    // Inside the press cooldown: nothing, up to the last nanosecond.
    assert_eq!(debouncer.step(&stock(), on_world(), IDLE, HELD, 2, t0 + 250 * MILLI - 1), None);
    assert_eq!(debouncer.wait_until, t0 + 250 * MILLI);

    // The cooldown is over: the hold edits again and arms the short cooldown.
    let t1 = t0 + 260 * MILLI;
    assert_eq!(
        debouncer.step(&stock(), on_world(), IDLE, HELD, 2, t1),
        Some(EditCommand::Place { voxel: TARGET, item: 2 })
    );
    assert_eq!(debouncer, EditDebouncer { wait_until: t1 + 50 * MILLI, was_placing: true });

    // Not sooner than the short cooldown.
    assert_eq!(debouncer.step(&stock(), on_world(), IDLE, HELD, 2, t1 + 50 * MILLI - 1), None);
    assert_eq!(debouncer.wait_until, t1 + 50 * MILLI);

    // Exactly at it.
    let t2 = t1 + 50 * MILLI;
    assert_eq!(
        debouncer.step(&stock(), on_world(), IDLE, HELD, 2, t2),
        Some(EditCommand::Place { voxel: TARGET, item: 2 })
    );
    assert_eq!(debouncer.wait_until, t2 + 50 * MILLI);
}

#[test]
fn hold_without_earlier_press_does_nothing() {
    let mut debouncer = EditDebouncer::new();
    assert_eq!(debouncer.step(&stock(), on_world(), HELD, HELD, 0, 500), None);
    assert_eq!(debouncer, EditDebouncer { wait_until: 0, was_placing: false });
}

#[test]
fn delete_preempts_place() {
    // Both freshly pressed.
    let mut debouncer = EditDebouncer::new();
    assert_eq!(
        debouncer.step(&stock(), on_world(), PRESSED, PRESSED, 9, 5),
        Some(EditCommand::Delete { voxel: TARGET })
    );
    // Delete merely held, place freshly pressed: the held delete still wins.
    let mut debouncer = EditDebouncer { wait_until: 0, was_placing: true };
    assert_eq!(
        debouncer.step(&stock(), on_world(), HELD, PRESSED, 9, 5),
        Some(EditCommand::Delete { voxel: TARGET })
    );
    assert_eq!(debouncer, EditDebouncer { wait_until: 5 + 50 * MILLI, was_placing: true });
    // Both held.
    let mut debouncer = EditDebouncer { wait_until: 0, was_placing: true };
    assert_eq!(
        debouncer.step(&stock(), on_world(), HELD, HELD, 9, 5),
        Some(EditCommand::Delete { voxel: TARGET })
    );
    // Without the flag a held delete does not count, and the place press acts.
    let mut debouncer = EditDebouncer { wait_until: 0, was_placing: false };
    assert_eq!(
        debouncer.step(&stock(), on_world(), HELD, PRESSED, 9, 5),
        Some(EditCommand::Place { voxel: TARGET, item: 9 })
    );
    assert_eq!(debouncer, EditDebouncer { wait_until: 5 + 250 * MILLI, was_placing: true });
}

#[test]
fn flag_is_shared_between_place_and_delete() {
    let mut debouncer = EditDebouncer::new();
    let t0 = 100;
    assert_eq!(
        debouncer.step(&stock(), on_world(), IDLE, PRESSED, 3, t0),
        Some(EditCommand::Place { voxel: TARGET, item: 3 })
    );
    // Place is let go while delete is held down inside the cooldown: the flag
    // stays up, and after the cooldown the held delete repeats.
    assert_eq!(debouncer.step(&stock(), on_world(), HELD, IDLE, 3, t0 + 1), None);
    assert!(debouncer.was_placing);
    let t1 = t0 + 250 * MILLI;
    assert_eq!(
        debouncer.step(&stock(), on_world(), HELD, IDLE, 3, t1),
        Some(EditCommand::Delete { voxel: TARGET })
    );
    assert_eq!(debouncer, EditDebouncer { wait_until: t1 + 50 * MILLI, was_placing: true });
}

#[test]
fn no_edit_against_entity_or_miss() {
    for hit in [on_entity(), None] {
        let mut debouncer = EditDebouncer { wait_until: 0, was_placing: true };
        assert_eq!(debouncer.step(&stock(), hit, PRESSED, PRESSED, 0, 99), None);
        assert_eq!(debouncer, EditDebouncer { wait_until: 0, was_placing: true });
        assert_eq!(debouncer.step(&stock(), hit, HELD, HELD, 0, 99), None);
        assert_eq!(debouncer.step(&stock(), hit, IDLE, IDLE, 0, 99), None);
        assert_eq!(debouncer, EditDebouncer { wait_until: 0, was_placing: false });
    }
}

#[test]
fn no_edit_before_deadline() {
    let mut debouncer = EditDebouncer { wait_until: 1000, was_placing: true };
    assert_eq!(debouncer.step(&stock(), on_world(), PRESSED, PRESSED, 0, 999), None);
    assert_eq!(debouncer, EditDebouncer { wait_until: 1000, was_placing: true });
    assert_eq!(
        debouncer.step(&stock(), on_world(), PRESSED, PRESSED, 0, 1000),
        Some(EditCommand::Delete { voxel: TARGET })
    );
}

#[test]
fn press_without_hold_edits_and_drops_flag() {
    let odd = DigitalState { pressed: true, held: false };
    let mut debouncer = EditDebouncer::new();
    assert_eq!(
        debouncer.step(&stock(), on_world(), odd, IDLE, 0, 7),
        Some(EditCommand::Delete { voxel: TARGET })
    );
    assert_eq!(debouncer, EditDebouncer { wait_until: 7 + 250 * MILLI, was_placing: false });
}

#[test]
fn deadline_only_moves_forward() {
    let mut debouncer = EditDebouncer::new();
    let mut last = 0;
    let frames: [(u64, DigitalState, DigitalState, bool); 8] = [
        (10, PRESSED, IDLE, true),
        (20, HELD, IDLE, true),
        (300 * MILLI, HELD, PRESSED, true),
        (310 * MILLI, HELD, HELD, false),
        (400 * MILLI, IDLE, HELD, true),
        (401 * MILLI, IDLE, IDLE, true),
        (900 * MILLI, IDLE, PRESSED, true),
        (5, PRESSED, PRESSED, true),
    ];
    for (now, delete, place, world) in frames {
        let hit = if world { on_world() } else { on_entity() };
        debouncer.step(&stock(), hit, delete, place, 0, now);
        assert!(debouncer.wait_until >= last);
        last = debouncer.wait_until;
    }
    assert_eq!(last, 900 * MILLI + 250 * MILLI);
}

#[test]
fn custom_timing_is_respected() {
    let timing = EditTiming { press_cooldown: 1000, repeat_cooldown: 10 };
    let mut debouncer = EditDebouncer::new();
    assert!(debouncer.step(&timing, on_world(), PRESSED, IDLE, 0, 5).is_some());
    assert_eq!(debouncer.wait_until, 1005);
    assert!(debouncer.step(&timing, on_world(), HELD, IDLE, 0, 1005).is_some());
    assert_eq!(debouncer.wait_until, 1015);
    let last = u64::MAX - 1000;
    assert!(debouncer.step(&timing, on_world(), PRESSED, IDLE, 0, last).is_some());
    assert_eq!(debouncer.wait_until, u64::MAX);
}
