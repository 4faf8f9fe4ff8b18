use vstd::prelude::*;
use crate::state::{ControllerState, nibble_of, buttons_nibble};
use crate::sampler::{AxisReadState, ready_value, within_ten_bits};

verus! {

/// Command byte `b`: binary output.
pub const CMD_BINARY: u8 = 0x62;
/// Command byte `t`: text output.
pub const CMD_TEXT: u8 = 0x74;
/// Command byte `r`: emit on request.
pub const CMD_ON_REQUEST: u8 = 0x72;
/// Command byte `e`: emit on change.
pub const CMD_ON_EVENT: u8 = 0x65;
/// Command byte `c`: emit every iteration.
pub const CMD_CONTINUOUS: u8 = 0x63;
/// Command byte `s`: request one sample.
pub const CMD_SAMPLE: u8 = 0x73;

/// How an emitted snapshot is rendered.
#[derive(Clone, Copy, Debug, PartialEq, Eq, Structural)]
pub enum Format {
    Text,
    Binary,
}

/// When a snapshot is emitted.
#[derive(Clone, Copy, Debug, PartialEq, Eq, Structural)]
pub enum TxMode {
    OnRequest,
    OnEvent,
    Continuous,
}

/// The session: output format, transmission mode, the one-shot request flag
/// and the last snapshot that was emitted.
#[derive(Clone, Copy, Debug, PartialEq, Eq, Structural)]
pub struct Context {
    pub format: Format,
    pub mode: TxMode,
    pub sample_request_pending: bool,
    pub state: ControllerState,
}

/// What the scheduler decided for one snapshot: whether it is emitted, and the
/// request flag afterwards. An emitted snapshot becomes the stored one.
#[derive(Clone, Copy, Debug, PartialEq, Eq, Structural)]
pub struct Decision {
    pub emit: bool,
    pub pending: bool,
}

/// The emission policy of each mode.
pub open spec fn decision_of(
    mode: TxMode,
    prev: ControllerState,
    new: ControllerState,
    pending: bool,
) -> Decision {
    match mode {
        TxMode::OnEvent => Decision { emit: new != prev, pending },
        TxMode::Continuous => Decision { emit: true, pending },
        TxMode::OnRequest => Decision { emit: pending, pending: false },
    }
}

/// Decides whether `new` is emitted, given the mode, the last emitted
/// snapshot and the request flag.
pub fn decide(mode: TxMode, prev: &ControllerState, new: &ControllerState, pending: bool) -> (d:
    Decision)
    ensures
        d == decision_of(mode, *prev, *new, pending),
{
    match mode {
        TxMode::OnEvent => Decision { emit: *new != *prev, pending },
        TxMode::Continuous => Decision { emit: true, pending },
        TxMode::OnRequest => Decision { emit: pending, pending: false },
    }
}

impl Context {
    /// The session a device starts with.
    pub open spec fn initial() -> Context {
        Context {
            format: Format::Text,
            mode: TxMode::OnEvent,
            sample_request_pending: false,
            state: ControllerState { xaxis: 0, yaxis: 0, buttons: 0 },
        }
    }

    /// The session after the command byte `b`; bytes that name no command
    /// leave it as it is.
    pub open spec fn after_command(self, b: u8) -> Context {
        if b == CMD_BINARY {
            Context { format: Format::Binary, ..self }
        } else if b == CMD_TEXT {
            Context { format: Format::Text, ..self }
        } else if b == CMD_ON_REQUEST {
            Context { mode: TxMode::OnRequest, ..self }
        } else if b == CMD_ON_EVENT {
            Context { mode: TxMode::OnEvent, ..self }
        } else if b == CMD_CONTINUOUS {
            Context { mode: TxMode::Continuous, ..self }
        } else if b == CMD_SAMPLE {
            Context { sample_request_pending: true, ..self }
        } else {
            self
        }
    }

    /// The session after an optional input byte.
    pub open spec fn after_input(self, input: Option<u8>) -> Context {
        match input {
            Some(b) => self.after_command(b),
            None => self,
        }
    }

    /// The session after the scheduler has seen `reading`.
    pub open spec fn after_reading(self, reading: ControllerState) -> Context {
        let d = decision_of(self.mode, self.state, reading, self.sample_request_pending);
        Context {
            sample_request_pending: d.pending,
            state: if d.emit { reading } else { self.state },
            ..self
        }
    }

    /// Whether the scheduler emits `reading` in this session.
    pub open spec fn emits(self, reading: ControllerState) -> bool {
        decision_of(self.mode, self.state, reading, self.sample_request_pending).emit
    }

    /// The reading of this iteration: the buttons nibble, and the axes of a
    /// pair completed this iteration, or else those of the stored snapshot.
    pub open spec fn reading_of(self, low: Seq<bool>, pair: Option<(u16, u16)>) -> ControllerState {
        match pair {
            Some((x, y)) => ControllerState { xaxis: x, yaxis: y, buttons: nibble_of(low) },
            None => ControllerState {
                xaxis: self.state.xaxis,
                yaxis: self.state.yaxis,
                buttons: nibble_of(low),
            },
        }
    }

    pub fn new() -> (r: Context)
        ensures
            r == Context::initial(),
    {
        Context {
            format: Format::Text,
            mode: TxMode::OnEvent,
            sample_request_pending: false,
            state: ControllerState::zeroed(),
        }
    }

    pub fn set_format(&mut self, format: Format)
        ensures
            *final(self) == (Context { format, ..*old(self) }),
    {
        self.format = format;
    }

    pub fn set_txmode(&mut self, txmode: TxMode)
        ensures
            *final(self) == (Context { mode: txmode, ..*old(self) }),
    {
        self.mode = txmode;
    }

    pub fn request_sample(&mut self)
        ensures
            *final(self) == (Context { sample_request_pending: true, ..*old(self) }),
    {
        self.sample_request_pending = true;
    }

    /// Applies the command byte read this iteration, if any.
    pub fn apply_command(&mut self, input: Option<u8>)
        ensures
            *final(self) == old(self).after_input(input),
    {
        if let Some(b) = input {
            if b == CMD_BINARY {
                self.set_format(Format::Binary);
            } else if b == CMD_TEXT {
                self.set_format(Format::Text);
            } else if b == CMD_ON_REQUEST {
                self.set_txmode(TxMode::OnRequest);
            } else if b == CMD_ON_EVENT {
                self.set_txmode(TxMode::OnEvent);
            } else if b == CMD_CONTINUOUS {
                self.set_txmode(TxMode::Continuous);
            } else if b == CMD_SAMPLE {
                self.request_sample();
            }
        }
    }

    /// Runs the emission policy on a fresh reading: stores it and clears the
    /// request flag as the mode says, and returns whether it is to be emitted.
    pub fn schedule(&mut self, reading: ControllerState) -> (emit: bool)
        ensures
            emit == old(self).emits(reading),
            *final(self) == old(self).after_reading(reading),
    {
        let d = decide(self.mode, &self.state, &reading, self.sample_request_pending);
        self.sample_request_pending = d.pending;
        if d.emit {
            self.state = reading;
        }
        d.emit
    }

    /// One iteration on a reading that is already taken: the command byte,
    /// then the emission policy.
    pub fn tick(&mut self, input: Option<u8>, reading: ControllerState) -> (emit: bool)
        ensures
            emit == old(self).after_input(input).emits(reading),
            *final(self) == old(self).after_input(input).after_reading(reading),
    {
        self.apply_command(input);
        self.schedule(reading)
    }
    /// One iteration of the control loop on what was read this time: the
    /// command byte if one came, the four button levels, and the outcome of
    /// polling the channel that `sampler` named. A converter fault completes
    /// no pair and keeps the sampler's phase, so the conversion is retried.
    pub fn iterate<E>(
        &mut self,
        sampler: &mut AxisReadState,
        input: Option<u8>,
        low: [bool; 4],
        conversion: nb::Result<u16, E>,
    ) -> (emit: bool)
        ensures
            *final(sampler) == sampler_after(*old(sampler), conversion),
            emit == old(self).after_input(input).emits(
                old(self).reading_of(low@, pair_after(*old(sampler), conversion)),
            ),
            *final(self) == old(self).after_input(input).after_reading(
                old(self).reading_of(low@, pair_after(*old(sampler), conversion)),
            ),
            old(self).state.wf() && old(sampler).wf() && within_ten_bits(conversion) ==> {
                &&& final(self).state.wf()
                &&& final(sampler).wf()
            },
    {
        self.apply_command(input);
        let buttons = buttons_nibble(low);
        let mut reading = ControllerState {
            xaxis: self.state.xaxis,
            yaxis: self.state.yaxis,
            buttons,
        };
        if let Ok(Some((x, y))) = sampler.advance(conversion) {
            reading.xaxis = x;
            reading.yaxis = y;
        }
        self.schedule(reading)
    }
}

/// The sampler's phase after one step on `conversion`.
pub open spec fn sampler_after<E>(s: AxisReadState, conversion: nb::Result<u16, E>) -> AxisReadState {
    s.step(ready_value(conversion)).0
}

/// The pair that one step of the sampler on `conversion` completes, if any.
pub open spec fn pair_after<E>(s: AxisReadState, conversion: nb::Result<u16, E>) -> Option<(u16, u16)> {
    s.step(ready_value(conversion)).1
}

} // verus!
