use player_controller::input::DigitalState;
use player_controller::selector::{ItemSelector, PaletteItem, PALETTE_SIZE};

const IDLE: DigitalState = DigitalState { pressed: false, held: false };
const PRESSED: DigitalState = DigitalState { pressed: true, held: true };
const HELD: DigitalState = DigitalState { pressed: false, held: true };

#[test]
fn selector_starts_on_first_entry() {
    let selector = ItemSelector::new();
    assert_eq!(selector.counter, 0);
    assert_eq!(selector.display_index(), 0);
    assert_eq!(selector.selected(), PaletteItem::RedLight);
    assert_eq!(selector.label(), "Red light");
}

#[test]
fn scroll_up_wraps_below_zero() {
    let mut selector = ItemSelector::new();
    selector.update(1, IDLE, IDLE);
    assert_eq!(selector.counter, u32::MAX);
    assert_eq!(selector.display_index(), 7);
    assert_eq!(selector.label(), "White plastic");
}

#[test]
fn scroll_down_counts_up() {
    let mut selector = ItemSelector { counter: u32::MAX - 1 };
    selector.update(-3, IDLE, IDLE);
    assert_eq!(selector.counter, 1);
    assert_eq!(selector.selected(), PaletteItem::GreenLight);
}

#[test]
fn toggles_move_by_one_on_press_only() {
    let mut selector = ItemSelector { counter: 10 };
    selector.update(0, PRESSED, IDLE);
    assert_eq!(selector.counter, 11);
    selector.update(0, IDLE, PRESSED);
    assert_eq!(selector.counter, 10);
    selector.update(0, HELD, HELD);
    assert_eq!(selector.counter, 10);
    selector.update(0, PRESSED, PRESSED);
    assert_eq!(selector.counter, 10);
    selector.update(4, PRESSED, IDLE);
    assert_eq!(selector.counter, 7);
    selector.update(4, IDLE, PRESSED);
    assert_eq!(selector.counter, 2);
}

#[test]
fn extreme_scroll_does_not_overflow() {
    let mut selector = ItemSelector { counter: 5 };
    selector.update(i32::MIN, IDLE, PRESSED);
    assert_eq!(selector.counter, 5 + (1u32 << 31) - 1);
    let mut selector = ItemSelector { counter: 5 };
    selector.update(i32::MIN, PRESSED, IDLE);
    assert_eq!(selector.counter, 5 + (1u32 << 31) + 1);
    let mut selector = ItemSelector { counter: 5 };
    selector.update(i32::MAX, IDLE, PRESSED);
    assert_eq!(selector.counter, 5u32.wrapping_sub(1 << 31));
    let mut selector = ItemSelector { counter: 5 };
    selector.update(i32::MAX, PRESSED, IDLE);
    assert_eq!(selector.counter, 5u32.wrapping_sub((1 << 31) - 2));
}

#[test]
fn display_is_always_within_palette() {
    let counters = [0u32, 1, 7, 8, 9, 255, 1 << 31, u32::MAX - 8, u32::MAX];
    let changes = [i32::MIN, -9, -8, -1, 0, 1, 8, 9, i32::MAX];
    for counter in counters {
        for change in changes {
            let mut selector = ItemSelector { counter };
            selector.update(change, IDLE, IDLE);
            let index = selector.display_index();
            assert!(index < PALETTE_SIZE);
            let expected = (counter as i64 - change as i64).rem_euclid(8) as u32;
            assert_eq!(index, expected);
            assert!(!selector.label().is_empty());
        }
    }
}

#[test]
fn scrolling_by_palette_size_is_cyclic() {
    for counter in [0u32, 3, 7, 12, u32::MAX] {
        let mut selector = ItemSelector { counter };
        let shown = selector.display_index();
        for _ in 0..5 {
            selector.update(8, IDLE, IDLE);
            assert_eq!(selector.display_index(), shown);
        }
        selector.update(-16, IDLE, IDLE);
        assert_eq!(selector.display_index(), shown);
        assert_eq!(selector.counter, counter.wrapping_sub(24));
    }
}

#[test]
fn palette_labels_in_order() {
    let labels = [
        "Red light",
        "Green light",
        "Blue light",
        "White light",
        "Red plastic",
        "Green plastic",
        "Blue plastic",
        "White plastic",
    ];
    let entries = [
        PaletteItem::RedLight,
        PaletteItem::GreenLight,
        PaletteItem::BlueLight,
        PaletteItem::WhiteLight,
        PaletteItem::RedPlastic,
        PaletteItem::GreenPlastic,
        PaletteItem::BluePlastic,
        PaletteItem::WhitePlastic,
    ];
    for index in 0..8u32 {
        let selector = ItemSelector { counter: index + 8 * 17 };
        assert_eq!(selector.display_index(), index);
        assert_eq!(selector.selected(), entries[index as usize]);
        assert_eq!(selector.label(), labels[index as usize]);
        assert_eq!(PaletteItem::of_counter(index), entries[index as usize]);
        assert_eq!(entries[index as usize].label(), labels[index as usize]);
    }
}
