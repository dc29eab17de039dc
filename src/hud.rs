//! What the side panel and the buttons show, worked out from the game's
//! state: gauge fills and button shades.
use vstd::prelude::*;
use crate::craft::FULL;

verus! {

/// A button's state under the pointer.
#[derive(Clone, Copy, Debug, PartialEq, Eq, Structural)]
pub enum Press {
    Idle,
    Hovered,
    Pressed,
}

/// The colour a button is painted with.
#[derive(Clone, Copy, Debug, PartialEq, Eq, Structural)]
pub enum Shade {
    Normal,
    Hovered,
    HoveredSelected,
    Pressed,
}

/// A button being pressed, or an idle one that holds the selected
/// setting, looks pressed; a hovered one looks hovered, in the selected
/// tone when it holds the selected setting.
pub open spec fn shade_of(press: Press, selected: bool) -> Shade {
    match press {
        Press::Pressed => Shade::Pressed,
        Press::Hovered => if selected { Shade::HoveredSelected } else { Shade::Hovered },
        Press::Idle => if selected { Shade::Pressed } else { Shade::Normal },
    }
}

pub fn button_shade(press: Press, selected: bool) -> (r: Shade)
    ensures
        r == shade_of(press, selected),
{
    match press {
        Press::Pressed => Shade::Pressed,
        Press::Hovered => if selected {
            Shade::HoveredSelected
        } else {
            Shade::Hovered
        },
        Press::Idle => if selected {
            Shade::Pressed
        } else {
            Shade::Normal
        },
    }
}

/// The weapons gauge: a tenth of a full bar per weapon.
pub fn weapons_level(weapons: u32) -> (r: u64)
    ensures
        r == weapons * (FULL / 10),
{
    weapons as u64 * (FULL / 10)
}

/// Length of the filled part of a gauge bar `track` long for `level`; a
/// level beyond full fills the whole bar.
pub fn bar_fill(level: u64, track: u32) -> (r: u32)
    ensures
        r == track * (if level > FULL { FULL as int } else { level as int }) / FULL as int,
        r <= track,
{
    let held: u64 = if level > FULL { FULL } else { level };
    proof {
        assert(0 <= track * held <= track * FULL) by (nonlinear_arith)
            requires
                0 <= held <= FULL,
                0 <= track,
        ;
        assert(track * held / FULL as int <= track) by (nonlinear_arith)
            requires
                0 <= track * held <= track * FULL,
        ;
    }
    (track as u64 * held / FULL) as u32
}

} // verus!
