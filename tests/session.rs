use padctl::sampler::AxisReadState;
use padctl::session::{decide, Context, Decision, Format, TxMode};
use padctl::state::ControllerState;

fn st(xaxis: u16, yaxis: u16, buttons: u8) -> ControllerState {
    ControllerState { xaxis, yaxis, buttons }
}

#[test]
fn new_context_defaults() {
    let ctx = Context::new();
    assert_eq!(ctx.format, Format::Text);
    assert_eq!(ctx.mode, TxMode::OnEvent);
    assert!(!ctx.sample_request_pending);
    assert_eq!(ctx.state, st(0, 0, 0));
}

#[test]
fn each_command_byte() {
    let mut ctx = Context::new();
    ctx.apply_command(Some(b'b'));
    assert_eq!(ctx.format, Format::Binary);
    ctx.apply_command(Some(b't'));
    assert_eq!(ctx.format, Format::Text);
    ctx.apply_command(Some(b'r'));
    assert_eq!(ctx.mode, TxMode::OnRequest);
    ctx.apply_command(Some(b'c'));
    assert_eq!(ctx.mode, TxMode::Continuous);
    ctx.apply_command(Some(b'e'));
    assert_eq!(ctx.mode, TxMode::OnEvent);
    assert!(!ctx.sample_request_pending);
    ctx.apply_command(Some(b's'));
    assert!(ctx.sample_request_pending);
}

#[test]
fn no_byte_changes_nothing() {
    let mut ctx = Context::new();
    ctx.set_txmode(TxMode::Continuous);
    let before = ctx;
    ctx.apply_command(None);
    assert_eq!(ctx, before);
}

#[test]
fn unknown_byte_then_binary() {
    let mut ctx = Context::new();
    let before = ctx;
    ctx.apply_command(Some(b'x'));
    assert_eq!(ctx, before);
    ctx.apply_command(Some(b'b'));
    assert_eq!(ctx.format, Format::Binary);
    let mut direct = Context::new();
    direct.apply_command(Some(b'b'));
    assert_eq!(ctx, direct);
}

#[test]
fn decide_per_mode() {
    let a = st(1, 2, 3);
    let b = st(1, 2, 4);
    assert_eq!(decide(TxMode::OnEvent, &a, &a, true), Decision { emit: false, pending: true });
    assert_eq!(decide(TxMode::OnEvent, &a, &b, false), Decision { emit: true, pending: false });
    assert_eq!(decide(TxMode::Continuous, &a, &a, false), Decision { emit: true, pending: false });
    assert_eq!(decide(TxMode::OnRequest, &a, &b, false), Decision { emit: false, pending: false });
    assert_eq!(decide(TxMode::OnRequest, &a, &a, true), Decision { emit: true, pending: false });
}

#[test]
fn on_event_emits_only_changes() {
    let mut ctx = Context::new();
    let a = st(100, 200, 1);
    assert!(ctx.tick(None, a));
    assert!(!ctx.tick(None, a));
    assert!(ctx.tick(None, st(100, 200, 3)));
    assert_eq!(ctx.state, st(100, 200, 3));
}

#[test]
fn on_request_emits_once_per_request() {
    let mut ctx = Context::new();
    ctx.apply_command(Some(b'r'));
    for i in 0..10u16 {
        assert!(!ctx.tick(None, st(i, i, 0)));
        assert!(!ctx.tick(Some(b'b'), st(i, 0, 2)));
    }
    assert_eq!(ctx.state, st(0, 0, 0));
    assert!(ctx.tick(Some(b's'), st(5, 6, 7)));
    assert!(!ctx.sample_request_pending);
    assert_eq!(ctx.state, st(5, 6, 7));
    for _ in 0..4 {
        assert!(!ctx.tick(None, st(8, 8, 8)));
    }
    assert_eq!(ctx.state, st(5, 6, 7));
}

#[test]
fn continuous_emits_every_iteration() {
    let mut ctx = Context::new();
    ctx.apply_command(Some(b'c'));
    let mut n = 0;
    for i in 0..12u16 {
        if ctx.tick(None, st(i % 2, 0, 0)) {
            n += 1;
        }
    }
    for _ in 0..5 {
        if ctx.tick(None, st(4, 4, 4)) {
            n += 1;
        }
    }
    assert_eq!(n, 17);
}

#[test]
fn mode_switch_compares_with_last_emitted() {
    let mut ctx = Context::new();
    ctx.apply_command(Some(b'r'));
    assert!(!ctx.tick(None, st(9, 9, 9)));
    assert!(!ctx.tick(Some(b'e'), st(0, 0, 0)));
    assert!(ctx.tick(None, st(9, 9, 9)));
}

#[test]
fn iterate_runs_sampler_and_policy() {
    let mut ctx = Context::new();
    let mut s = AxisReadState::ReadingX;
    let busy: nb::Result<u16, ()> = Err(nb::Error::WouldBlock);
    // buttons change: emitted with the stored axes
    assert!(ctx.iterate(&mut s, None, [true, false, false, false], busy));
    assert_eq!(ctx.state, st(0, 0, 1));
    // X converts: no pair yet, nothing changed
    assert!(!ctx.iterate(&mut s, None, [true, false, false, false], Ok::<u16, nb::Error<()>>(700)));
    assert_eq!(s, AxisReadState::ReadingY { x: 700 });
    // a fault keeps the phase
    assert!(!ctx.iterate(&mut s, None, [true, false, false, false], Err(nb::Error::Other(()))));
    assert_eq!(s, AxisReadState::ReadingY { x: 700 });
    // Y converts: the pair is emitted
    assert!(ctx.iterate(&mut s, Some(b'b'), [true, false, false, false], Ok::<u16, nb::Error<()>>(12)));
    assert_eq!(s, AxisReadState::ReadingX);
    assert_eq!(ctx.state, st(700, 12, 1));
    assert_eq!(ctx.format, Format::Binary);
}

#[test]
fn on_request_drops_unemitted_axes() {
    let mut ctx = Context::new();
    ctx.apply_command(Some(b'r'));
    let mut s = AxisReadState::ReadingY { x: 50 };
    assert!(!ctx.iterate(&mut s, None, [false; 4], Ok::<u16, nb::Error<()>>(60)));
    assert!(ctx.iterate(&mut s, Some(b's'), [false; 4], Err::<u16, nb::Error<()>>(nb::Error::WouldBlock)));
    assert_eq!(ctx.state, st(0, 0, 0));
}
