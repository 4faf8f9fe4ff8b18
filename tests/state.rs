use padctl::state::{buttons_nibble, ControllerState};

#[test]
fn nibble_is_or_of_pressed_bits() {
    for combo in 0u8..16 {
        let low = [combo & 1 != 0, combo & 2 != 0, combo & 4 != 0, combo & 8 != 0];
        let mut expected = 0u8;
        for (i, l) in low.iter().enumerate() {
            if *l {
                expected |= 1 << i;
            }
        }
        assert_eq!(buttons_nibble(low), expected);
    }
}

#[test]
fn nibble_none_and_all_pressed() {
    assert_eq!(buttons_nibble([false, false, false, false]), 0);
    assert_eq!(buttons_nibble([true, true, true, true]), 15);
    assert_eq!(buttons_nibble([false, false, true, false]), 4);
}

#[test]
fn default_state_is_zeroed() {
    let st = ControllerState::default();
    assert_eq!(st, ControllerState { xaxis: 0, yaxis: 0, buttons: 0 });
    assert_eq!(ControllerState::zeroed(), st);
}
