use padctl::sampler::{AxisReadState, Channel};

fn ready(v: u16) -> nb::Result<u16, ()> {
    Ok(v)
}

fn busy() -> nb::Result<u16, ()> {
    Err(nb::Error::WouldBlock)
}

#[test]
fn sampler_waits_then_completes_one_pair() {
    let mut s = AxisReadState::ReadingX;
    for _ in 0..5 {
        assert_eq!(s.channel(), Channel::X);
        assert_eq!(s.advance(busy()), Ok(None));
        assert_eq!(s, AxisReadState::ReadingX);
    }
    assert_eq!(s.advance(ready(321)), Ok(None));
    assert_eq!(s, AxisReadState::ReadingY { x: 321 });
    assert_eq!(s.channel(), Channel::Y);
    for _ in 0..3 {
        assert_eq!(s.advance(busy()), Ok(None));
        assert_eq!(s, AxisReadState::ReadingY { x: 321 });
    }
    assert_eq!(s.advance(ready(654)), Ok(Some((321, 654))));
    assert_eq!(s, AxisReadState::ReadingX);
}

#[test]
fn sampler_fault_is_returned_and_phase_kept() {
    let mut s = AxisReadState::ReadingY { x: 9 };
    let r: Result<Option<(u16, u16)>, u8> = s.advance(Err(nb::Error::Other(7u8)));
    assert_eq!(r, Err(7));
    assert_eq!(s, AxisReadState::ReadingY { x: 9 });
    assert_eq!(s.advance(Ok::<u16, nb::Error<u8>>(10)), Ok(Some((9, 10))));
}
