use vstd::prelude::*;

verus! {

/// One consistent reading of both axes and the four buttons.
#[derive(Clone, Copy, Debug, PartialEq, Eq, Structural)]
pub struct ControllerState {
    pub xaxis: u16,
    pub yaxis: u16,
    pub buttons: u8,
}

impl ControllerState {
    /// Axes within the converter's ten bits, buttons within the low nibble.
    pub open spec fn wf(self) -> bool {
        &&& self.xaxis < 1024
        &&& self.yaxis < 1024
        &&& self.buttons < 16
    }

    /// The all-zero reading.
    pub fn zeroed() -> (r: ControllerState)
        ensures
            r == (ControllerState { xaxis: 0, yaxis: 0, buttons: 0 }),
            r.wf(),
    {
        ControllerState { xaxis: 0, yaxis: 0, buttons: 0 }
    }
}

impl Default for ControllerState {
    fn default() -> (r: ControllerState)
        ensures
            r == (ControllerState { xaxis: 0, yaxis: 0, buttons: 0 }),
    {
        ControllerState::zeroed()
    }
}

/// Bit `i` of the buttons nibble: set when button `i` reads low (pressed).
pub open spec fn button_bit(low: bool, i: u8) -> u8 {
    if low {
        1u8 << i
    } else {
        0u8
    }
}

/// The buttons nibble for four active-low levels: the OR of one bit per pressed button.
pub open spec fn nibble_of(low: Seq<bool>) -> u8
    recommends
        low.len() == 4,
{
    button_bit(low[0], 0) | button_bit(low[1], 1) | button_bit(low[2], 2) | button_bit(low[3], 3)
}

/// Packs four button levels into the buttons nibble; `low[i]` is true when
/// button `i` reads low, which means pressed.
pub fn buttons_nibble(low: [bool; 4]) -> (r: u8)
    ensures
        r == nibble_of(low@),
        r < 16,
{
    let b0: u8 = if low[0] { 1u8 << 0u8 } else { 0 };
    let b1: u8 = if low[1] { 1u8 << 1u8 } else { 0 };
    let b2: u8 = if low[2] { 1u8 << 2u8 } else { 0 };
    let b3: u8 = if low[3] { 1u8 << 3u8 } else { 0 };
    let r: u8 = b0 | b1 | b2 | b3;
    assert(r < 16) by (bit_vector)
        requires
            r == b0 | b1 | b2 | b3,
            b0 == 0 || b0 == 1u8 << 0u8,
            b1 == 0 || b1 == 1u8 << 1u8,
            b2 == 0 || b2 == 1u8 << 2u8,
            b3 == 0 || b3 == 1u8 << 3u8,
    ;
    r
}

} // verus!
