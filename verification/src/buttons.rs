use vstd::prelude::*;

verus! {

/// Identity of a physical gear-selector button, which doubles as the gear it
/// selects: (P)ark, (R)everse, (N)eutral or (D)rive. `UNSET` stands for "not
/// yet known", before the boot sequence has seeded the enabled gear.
#[derive(Clone, Copy, Debug, PartialEq, Eq, Structural)]
pub enum Button {
    P,
    R,
    N,
    D,
    UNSET,
}

/// Command sent to one button's LED driver.
#[derive(Clone, Copy, Debug, PartialEq, Eq, Structural)]
pub enum LedStatus {
    On,
    Off,
}

/// Nominal position index of each gear (0 = Park .. 3 = Drive). The index is
/// used only for actuator distance arithmetic and for the persistent encoding,
/// not for semantic ranking. `UNSET` maps just past the last gear.
pub open spec fn spec_button_index(b: Button) -> u8 {
    match b {
        Button::P => 0,
        Button::R => 1,
        Button::N => 2,
        Button::D => 3,
        Button::UNSET => 4,
    }
}

/// Executable form of [`spec_button_index`].
pub fn button_index(b: Button) -> (i: u8)
    ensures
        i == spec_button_index(b),
{
    match b {
        Button::P => 0,
        Button::R => 1,
        Button::N => 2,
        Button::D => 3,
        Button::UNSET => 4,
    }
}

} // verus!
