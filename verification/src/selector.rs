//! The item selector: a counter that scrolling and two toggle actions move,
//! and the palette entry that it stands for.
//!
//! The counter is stored as it is and wraps around; only where an item is
//! shown is it reduced to an index into the palette.

use vstd::prelude::*;
use vstd::arithmetic::div_mod::lemma_mod_mod;
use crate::input::DigitalState;

verus! {

/// Number of entries in the palette.
pub const PALETTE_SIZE: u32 = 8;

/// The entries of the palette, in order.
#[derive(Clone, Copy, Debug, PartialEq, Eq, Structural)]
pub enum PaletteItem {
    RedLight,
    GreenLight,
    BlueLight,
    WhiteLight,
    RedPlastic,
    GreenPlastic,
    BluePlastic,
    WhitePlastic,
}

impl PaletteItem {
    /// Position of the entry in the palette.
    pub open spec fn index(self) -> int {
        match self {
            PaletteItem::RedLight => 0,
            PaletteItem::GreenLight => 1,
            PaletteItem::BlueLight => 2,
            PaletteItem::WhiteLight => 3,
            PaletteItem::RedPlastic => 4,
            PaletteItem::GreenPlastic => 5,
            PaletteItem::BluePlastic => 6,
            PaletteItem::WhitePlastic => 7,
        }
    }

    /// The entry at a position of the palette.
    pub open spec fn at(index: int) -> PaletteItem
        recommends
            0 <= index < PALETTE_SIZE,
    {
        if index == 0 {
            PaletteItem::RedLight
        } else if index == 1 {
            PaletteItem::GreenLight
        } else if index == 2 {
            PaletteItem::BlueLight
        } else if index == 3 {
            PaletteItem::WhiteLight
        } else if index == 4 {
            PaletteItem::RedPlastic
        } else if index == 5 {
            PaletteItem::GreenPlastic
        } else if index == 6 {
            PaletteItem::BluePlastic
        } else {
            PaletteItem::WhitePlastic
        }
    }

    /// The text shown for the entry.
    pub open spec fn spec_label(self) -> Seq<char> {
        match self {
            PaletteItem::RedLight => "Red light"@,
            PaletteItem::GreenLight => "Green light"@,
            PaletteItem::BlueLight => "Blue light"@,
            PaletteItem::WhiteLight => "White light"@,
            PaletteItem::RedPlastic => "Red plastic"@,
            PaletteItem::GreenPlastic => "Green plastic"@,
            PaletteItem::BluePlastic => "Blue plastic"@,
            PaletteItem::WhitePlastic => "White plastic"@,
        }
    }

    /// The entry that a counter stands for: the one at the counter's
    /// remainder by the palette size.
    pub fn of_counter(counter: u32) -> (item: PaletteItem)
        ensures
            item == PaletteItem::at(counter as int % PALETTE_SIZE as int),
            item.index() == counter % PALETTE_SIZE,
    {
        let index: u32 = counter % PALETTE_SIZE;
        if index == 0 {
            PaletteItem::RedLight
        } else if index == 1 {
            PaletteItem::GreenLight
        } else if index == 2 {
            PaletteItem::BlueLight
        } else if index == 3 {
            PaletteItem::WhiteLight
        } else if index == 4 {
            PaletteItem::RedPlastic
        } else if index == 5 {
            PaletteItem::GreenPlastic
        } else if index == 6 {
            PaletteItem::BluePlastic
        } else {
            PaletteItem::WhitePlastic
        }
    }

    /// The text shown for the entry.
    pub fn label(self) -> (text: &'static str)
        ensures
            text@ == self.spec_label(),
    {
        match self {
            PaletteItem::RedLight => "Red light",
            PaletteItem::GreenLight => "Green light",
            PaletteItem::BlueLight => "Blue light",
            PaletteItem::WhiteLight => "White light",
            PaletteItem::RedPlastic => "Red plastic",
            PaletteItem::GreenPlastic => "Green plastic",
            PaletteItem::BluePlastic => "Blue plastic",
            PaletteItem::WhitePlastic => "White plastic",
        }
    }
}

/// Net movement that one frame's input asks for: the scroll, one less for a
/// fresh press of the left toggle, one more for one of the right toggle.
pub open spec fn net_change(scroll_y: i32, left: DigitalState, right: DigitalState) -> int {
    scroll_y - (if left.pressed { 1int } else { 0int }) + (if right.pressed { 1int } else { 0int })
}

/// The counter that holds `value` after wrapping around.
pub open spec fn wrapped(value: int) -> u32 {
    (value % 0x1_0000_0000) as u32
}

/// The selected item, as a raw counter.
#[derive(Clone, Copy, Debug, PartialEq, Eq, Structural)]
pub struct ItemSelector {
    /// The stored counter; any value is valid.
    pub counter: u32,
}

impl ItemSelector {
    /// The selector at start, on the first entry of the palette.
    pub open spec fn spec_new() -> ItemSelector {
        ItemSelector { counter: 0 }
    }

    /// The selector at start, on the first entry of the palette.
    #[verifier::when_used_as_spec(spec_new)]
    pub fn new() -> (s: ItemSelector)
        ensures
            s == ItemSelector::spec_new(),
    {
        ItemSelector { counter: 0 }
    }

    /// Position in the palette of the selected item.
    pub open spec fn display(self) -> int {
        self.counter as int % PALETTE_SIZE as int
    }

    /// The selector after a net movement: the counter less the movement,
    /// wrapped around.
    pub open spec fn moved_by(self, net: int) -> ItemSelector {
        ItemSelector { counter: wrapped(self.counter - net) }
    }

    /// Applies one frame's input to the counter, without clamping.
    pub fn update(&mut self, scroll_y: i32, left: DigitalState, right: DigitalState)
        ensures
            *final(self) == old(self).moved_by(net_change(scroll_y, left, right)),
    {
        let mut counter: u32 = self.counter;
        if scroll_y >= 0 {
            counter = counter.wrapping_sub(scroll_y as u32);
        } else {
            let magnitude: u32 = (-(scroll_y + 1)) as u32 + 1;
            counter = counter.wrapping_add(magnitude);
        }
        if left.pressed {
            counter = counter.wrapping_add(1);
        }
        if right.pressed {
            counter = counter.wrapping_sub(1);
        }
        self.counter = counter;
    }

    /// Position in the palette of the selected item.
    pub fn display_index(&self) -> (index: u32)
        ensures
            index == self.display(),
            index < PALETTE_SIZE,
    {
        self.counter % PALETTE_SIZE
    }

    /// The palette entry that is selected.
    pub fn selected(&self) -> (item: PaletteItem)
        ensures
            item == PaletteItem::at(self.display()),
            item.index() == self.display(),
    {
        PaletteItem::of_counter(self.counter)
    }

    /// The text shown for the selected item.
    pub fn label(&self) -> (text: &'static str)
        ensures
            text@ == PaletteItem::at(self.display()).spec_label(),
    {
        PaletteItem::of_counter(self.counter).label()
    }
}

/// Whatever the movement, the position shown afterwards lies within the
/// palette, is the counter less the movement reduced by the palette size, and
/// names an entry of the palette that has that very position.
pub proof fn lemma_display_is_total(selector: ItemSelector, net: int)
    ensures
        0 <= selector.moved_by(net).display() < PALETTE_SIZE,
        selector.moved_by(net).display() == (selector.counter - net) % (PALETTE_SIZE as int),
        PaletteItem::at(selector.moved_by(net).display()).index() == selector.moved_by(
            net,
        ).display(),
{
    lemma_mod_mod(selector.counter - net, 8, 0x2000_0000);
}

/// The palette is cyclic: a movement by the palette size, or by any multiple
/// of it, shows the same entry as before.
pub proof fn lemma_display_is_cyclic(selector: ItemSelector, net: int)
    requires
        net % (PALETTE_SIZE as int) == 0,
    ensures
        selector.moved_by(net).display() == selector.display(),
{
    lemma_display_is_total(selector, net);
}

/// Movements add up: two frames in a row move the counter as one frame with
/// the sum of their movements would.
pub proof fn lemma_moves_add_up(selector: ItemSelector, first: int, second: int)
    ensures
        selector.moved_by(first).moved_by(second) == selector.moved_by(first + second),
{
}

/// Every position of the palette has its entry, and every entry its position.
pub proof fn lemma_palette_round_trip(index: int, item: PaletteItem)
    ensures
        0 <= index < PALETTE_SIZE ==> PaletteItem::at(index).index() == index,
        0 <= item.index() < PALETTE_SIZE,
        PaletteItem::at(item.index()) == item,
{
}

} // verus!
