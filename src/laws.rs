//! Properties that span several calls: sampler sequences, runs of the control
//! loop, and the shape of the binary frame.
use vstd::prelude::*;
use crate::state::ControllerState;
use crate::sampler::AxisReadState;
use crate::session::{
    Context,
    Format,
    TxMode,
    CMD_BINARY,
    CMD_TEXT,
    CMD_SAMPLE,
    CMD_ON_EVENT,
    CMD_ON_REQUEST,
    CMD_CONTINUOUS,
};
use crate::frame::{binary_frame, DATA_FRAME_START};

verus! {

/// The phase after a sequence of sampler steps and the pairs they completed,
/// in order. `None` stands for a conversion still in flight.
pub open spec fn run_sampler(s: AxisReadState, readies: Seq<Option<u16>>) -> (
    AxisReadState,
    Seq<(u16, u16)>,
)
    decreases readies.len(),
{
    if readies.len() == 0 {
        (s, seq![])
    } else {
        let (s1, p) = s.step(readies[0]);
        let (s2, ps) = run_sampler(s1, readies.drop_first());
        (
            s2,
            match p {
                Some(q) => seq![q] + ps,
                None => ps,
            },
        )
    }
}

/// `n` steps on which no conversion finished.
pub open spec fn waiting(n: nat) -> Seq<Option<u16>> {
    Seq::new(n, |i: int| None::<u16>)
}

/// The session after a run of loop iterations, each an optional command byte
/// and a reading, and how many of them emitted a snapshot. Each step is one
/// call of `Context::tick`.
pub open spec fn run(ctx: Context, steps: Seq<(Option<u8>, ControllerState)>) -> (Context, nat)
    decreases steps.len(),
{
    if steps.len() == 0 {
        (ctx, 0)
    } else {
        let c = ctx.after_input(steps[0].0);
        let e = c.emits(steps[0].1);
        let (c2, n) = run(c.after_reading(steps[0].1), steps.drop_first());
        (c2, if e { n + 1 } else { n })
    }
}

/// Steps whose command bytes do not leave on-request mode or set the request flag.
pub open spec fn quiet_on_request(steps: Seq<(Option<u8>, ControllerState)>) -> bool {
    forall|i: int|
        0 <= i < steps.len() ==> {
            let b = #[trigger] steps[i].0;
            b != Some(CMD_SAMPLE) && b != Some(CMD_ON_EVENT) && b != Some(CMD_CONTINUOUS)
        }
}

/// Steps whose command bytes do not leave continuous mode.
pub open spec fn stays_continuous(steps: Seq<(Option<u8>, ControllerState)>) -> bool {
    forall|i: int|
        0 <= i < steps.len() ==> {
            let b = #[trigger] steps[i].0;
            b != Some(CMD_ON_EVENT) && b != Some(CMD_ON_REQUEST)
        }
}

/// A run split in two is the second part run from where the first ended.
pub proof fn lemma_run_concat(
    ctx: Context,
    a: Seq<(Option<u8>, ControllerState)>,
    b: Seq<(Option<u8>, ControllerState)>,
)
    ensures
        run(ctx, a + b) == (run(run(ctx, a).0, b).0, run(ctx, a).1 + run(run(ctx, a).0, b).1),
    decreases a.len(),
{
    if a.len() == 0 {
        assert(a + b =~= b);
    } else {
        let c = ctx.after_input(a[0].0).after_reading(a[0].1);
        lemma_run_concat(c, a.drop_first(), b);
        assert((a + b).drop_first() =~= a.drop_first() + b);
    }
}

/// Steps that are all waiting leave the sampler where it was and complete no pair.
pub proof fn lemma_sampler_waits(s: AxisReadState, n: nat, rest: Seq<Option<u16>>)
    ensures
        run_sampler(s, waiting(n) + rest) == run_sampler(s, rest),
    decreases n,
{
    if n > 0 {
        assert((waiting(n) + rest).drop_first() =~= waiting((n - 1) as nat) + rest);
        lemma_sampler_waits(s, (n - 1) as nat, rest);
    } else {
        assert(waiting(n) + rest =~= rest);
    }
}

/// From the X phase, any number of steps with X not ready completes nothing
/// and stays in the X phase; X becoming ready moves to the Y phase without a
/// pair; any wait there changes nothing; Y becoming ready completes exactly
/// the pair `(x, y)` and returns to the X phase.
pub proof fn lemma_sampler_sequence(n: nat, m: nat, x: u16, y: u16)
    ensures
        run_sampler(AxisReadState::ReadingX, waiting(n)) == (AxisReadState::ReadingX, Seq::<
            (u16, u16),
        >::empty()),
        run_sampler(AxisReadState::ReadingX, waiting(n) + seq![Some(x)]) == (
            AxisReadState::ReadingY { x },
            Seq::<(u16, u16)>::empty(),
        ),
        run_sampler(
            AxisReadState::ReadingX,
            waiting(n) + seq![Some(x)] + waiting(m) + seq![Some(y)],
        ) == (AxisReadState::ReadingX, seq![(x, y)]),
{
    let sx = AxisReadState::ReadingX;
    let sy = AxisReadState::ReadingY { x };
    lemma_sampler_waits(sx, n, Seq::empty());
    assert(waiting(n) + Seq::empty() =~= waiting(n));
    lemma_sampler_waits(sx, n, seq![Some(x)]);
    assert(seq![Some(x)].drop_first() =~= Seq::<Option<u16>>::empty());
    assert(run_sampler(sy, Seq::empty()) == (sy, Seq::<(u16, u16)>::empty()));
    assert(run_sampler(sx, seq![Some(x)]) == (sy, Seq::<(u16, u16)>::empty()));
    assert(seq![(x, y)] + Seq::<(u16, u16)>::empty() =~= seq![(x, y)]);
    let tail = seq![Some(x)] + waiting(m) + seq![Some(y)];
    assert(waiting(n) + seq![Some(x)] + waiting(m) + seq![Some(y)] =~= waiting(n) + tail);
    lemma_sampler_waits(sx, n, tail);
    assert(tail.drop_first() =~= waiting(m) + seq![Some(y)]);
    lemma_sampler_waits(sy, m, seq![Some(y)]);
    assert(seq![Some(y)].drop_first() =~= Seq::<Option<u16>>::empty());
}

/// In on-change mode, a reading that differs from the stored snapshot is
/// emitted once; the same reading again is not; a different one after it is.
pub proof fn lemma_on_event_emits_changes(ctx: Context, a: ControllerState, b: ControllerState)
    requires
        ctx.mode == TxMode::OnEvent,
        a != ctx.state,
        b != a,
    ensures
        run(ctx, seq![(None, a), (None, a)]).1 == 1,
        run(ctx, seq![(None, a), (None, a), (None, b)]).1 == 2,
        run(ctx, seq![(None, a), (None, a), (None, b)]).0.state == b,
{
    let s2 = seq![(None::<u8>, a), (None::<u8>, a)];
    let s3 = seq![(None::<u8>, a), (None::<u8>, a), (None::<u8>, b)];
    let c1 = ctx.after_reading(a);
    let c2 = c1.after_reading(a);
    assert(s2.drop_first() =~= seq![(None::<u8>, a)]);
    assert(s2.drop_first().drop_first() =~= Seq::<(Option<u8>, ControllerState)>::empty());
    assert(s3.drop_first() =~= seq![(None::<u8>, a), (None::<u8>, b)]);
    assert(s3.drop_first().drop_first() =~= seq![(None::<u8>, b)]);
    assert(s3.drop_first().drop_first().drop_first() =~= Seq::<
        (Option<u8>, ControllerState),
    >::empty());
    let e = Seq::<(Option<u8>, ControllerState)>::empty();
    let c3 = c2.after_reading(b);
    assert(ctx.after_input(None) == ctx);
    assert(c1.after_input(None) == c1);
    assert(c2.after_input(None) == c2);
    assert(ctx.emits(a));
    assert(!c1.emits(a));
    assert(c2.emits(b));
    assert(run(c2, e) == (c2, 0nat));
    assert(run(c3, e) == (c3, 0nat));
    assert(run(c1, seq![(None::<u8>, a)]) == (c2, 0nat));
    assert(run(ctx, s2) == (c2, 1nat));
    assert(run(c2, seq![(None::<u8>, b)]) == (c3, 1nat));
    assert(run(c1, seq![(None::<u8>, a), (None::<u8>, b)]) == (c3, 1nat));
    assert(run(ctx, s3) == (c3, 2nat));
}

/// Iterations whose bytes neither request a sample nor leave on-request mode
/// emit nothing and keep the stored snapshot.
pub proof fn lemma_on_request_idle(ctx: Context, steps: Seq<(Option<u8>, ControllerState)>)
    requires
        ctx.mode == TxMode::OnRequest,
        !ctx.sample_request_pending,
        quiet_on_request(steps),
    ensures
        run(ctx, steps).1 == 0,
        run(ctx, steps).0.mode == TxMode::OnRequest,
        !run(ctx, steps).0.sample_request_pending,
        run(ctx, steps).0.state == ctx.state,
    decreases steps.len(),
{
    if steps.len() > 0 {
        let b = steps[0].0;
        assert(b != Some(CMD_SAMPLE) && b != Some(CMD_ON_EVENT) && b != Some(CMD_CONTINUOUS));
        let c = ctx.after_input(b).after_reading(steps[0].1);
        assert(quiet_on_request(steps.drop_first())) by {
            assert forall|i: int| 0 <= i < steps.drop_first().len() implies {
                let b = #[trigger] steps.drop_first()[i].0;
                b != Some(CMD_SAMPLE) && b != Some(CMD_ON_EVENT) && b != Some(CMD_CONTINUOUS)
            } by {
                assert(steps.drop_first()[i] == steps[i + 1]);
            }
        }
        lemma_on_request_idle(c, steps.drop_first());
    }
}

/// In on-request mode nothing is emitted until a sample is requested; the
/// iteration that reads the request emits exactly once and clears the flag,
/// and nothing more is emitted until the next request.
pub proof fn lemma_on_request_emits_once(
    ctx: Context,
    before: Seq<(Option<u8>, ControllerState)>,
    r: ControllerState,
    after: Seq<(Option<u8>, ControllerState)>,
)
    requires
        ctx.mode == TxMode::OnRequest,
        !ctx.sample_request_pending,
        quiet_on_request(before),
        quiet_on_request(after),
    ensures
        run(ctx, before).1 == 0,
        run(ctx, before + seq![(Some(CMD_SAMPLE), r)]).1 == 1,
        !run(ctx, before + seq![(Some(CMD_SAMPLE), r)]).0.sample_request_pending,
        run(ctx, before + seq![(Some(CMD_SAMPLE), r)]).0.state == r,
        run(ctx, before + seq![(Some(CMD_SAMPLE), r)] + after).1 == 1,
{
    let req = seq![(Some(CMD_SAMPLE), r)];
    lemma_on_request_idle(ctx, before);
    let c = run(ctx, before).0;
    lemma_run_concat(ctx, before, req);
    assert(req.drop_first() =~= Seq::<(Option<u8>, ControllerState)>::empty());
    let c2 = c.after_input(Some(CMD_SAMPLE)).after_reading(r);
    assert(run(c2, Seq::empty()) == (c2, 0nat));
    assert(run(c, req) == (c2, 1nat));
    lemma_run_concat(ctx, before + req, after);
    lemma_on_request_idle(c2, after);
}

/// In continuous mode every iteration emits, whatever the readings, as long
/// as no byte leaves the mode.
pub proof fn lemma_continuous_emits_every_iteration(
    ctx: Context,
    steps: Seq<(Option<u8>, ControllerState)>,
)
    requires
        ctx.mode == TxMode::Continuous,
        stays_continuous(steps),
    ensures
        run(ctx, steps).1 == steps.len(),
        run(ctx, steps).0.mode == TxMode::Continuous,
    decreases steps.len(),
{
    if steps.len() > 0 {
        let b = steps[0].0;
        assert(b != Some(CMD_ON_EVENT) && b != Some(CMD_ON_REQUEST));
        let c = ctx.after_input(b).after_reading(steps[0].1);
        assert(stays_continuous(steps.drop_first())) by {
            assert forall|i: int| 0 <= i < steps.drop_first().len() implies {
                let b = #[trigger] steps.drop_first()[i].0;
                b != Some(CMD_ON_EVENT) && b != Some(CMD_ON_REQUEST)
            } by {
                assert(steps.drop_first()[i] == steps[i + 1]);
            }
        }
        lemma_continuous_emits_every_iteration(c, steps.drop_first());
    }
}

/// A byte that names no command changes nothing, so one followed by `b`
/// has exactly the effect of `b` alone: binary output.
pub proof fn lemma_unknown_byte_ignored(ctx: Context, u: u8)
    requires
        u != CMD_BINARY,
        u != CMD_TEXT,
        u != CMD_ON_REQUEST,
        u != CMD_ON_EVENT,
        u != CMD_CONTINUOUS,
        u != CMD_SAMPLE,
    ensures
        ctx.after_command(u) == ctx,
        ctx.after_command(u).after_command(CMD_BINARY) == ctx.after_command(CMD_BINARY),
        ctx.after_command(u).after_command(CMD_BINARY).format == Format::Binary,
{
}

/// For every buttons nibble, byte 0 of the binary frame is the frame-start
/// bit OR the nibble, and bytes 1 to 3 never have bit 7 set.
pub proof fn lemma_frame_start_only_in_byte0(st: ControllerState)
    requires
        st.buttons < 16,
    ensures
        binary_frame(st)[0] == 0x80 | st.buttons,
        binary_frame(st)[0] & DATA_FRAME_START == DATA_FRAME_START,
        binary_frame(st)[0] & 0x0f == st.buttons,
        binary_frame(st)[1] & DATA_FRAME_START == 0,
        binary_frame(st)[2] & DATA_FRAME_START == 0,
        binary_frame(st)[3] & DATA_FRAME_START == 0,
{
    let f = binary_frame(st);
    let bt = st.buttons;
    let x = st.xaxis;
    let y = st.yaxis;
    assert((0x80u8 | bt) & 0x80u8 == 0x80u8) by (bit_vector);
    assert(bt < 16 ==> (0x80u8 | bt) & 0x0fu8 == bt) by (bit_vector);
    assert((((x >> 3u16) & 0x7f) as u8) & 0x80u8 == 0) by (bit_vector);
    assert(((((x << 4u16) & 0x70) as u8) | ((y & 0x07) as u8)) & 0x80u8 == 0) by (bit_vector);
}

} // verus!
