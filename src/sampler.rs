use vstd::prelude::*;

verus! {

/// Declares nb's `Error`, the error side of the converter's non-blocking read,
/// with its two public variants: `Other` carries a fault, `WouldBlock` says the
/// conversion is still in flight.
#[verifier::external_type_specification]
#[verifier::reject_recursive_types(E)]
pub struct ExNbError<E>(nb::Error<E>);

/// The analog channel a conversion is started or polled on.
#[derive(Clone, Copy, Debug, PartialEq, Eq, Structural)]
pub enum Channel {
    X,
    Y,
}

/// Progress of the two-phase sampling of the axes: waiting for X, or waiting
/// for Y while holding the X value already converted.
#[derive(Clone, Copy, Debug, PartialEq, Eq, Structural)]
pub enum AxisReadState {
    ReadingX,
    ReadingY { x: u16 },
}

impl AxisReadState {
    /// A held X value is a converter reading, within ten bits.
    pub open spec fn wf(self) -> bool {
        match self {
            AxisReadState::ReadingX => true,
            AxisReadState::ReadingY { x } => x < 1024,
        }
    }

    pub open spec fn channel_of(self) -> Channel {
        match self {
            AxisReadState::ReadingX => Channel::X,
            AxisReadState::ReadingY { .. } => Channel::Y,
        }
    }

    /// One step on a conversion that finished with `v`: the next phase and
    /// the completed pair, if this step completed one.
    pub open spec fn on_ready(self, v: u16) -> (AxisReadState, Option<(u16, u16)>) {
        match self {
            AxisReadState::ReadingX => (AxisReadState::ReadingY { x: v }, None),
            AxisReadState::ReadingY { x } => (AxisReadState::ReadingX, Some((x, v))),
        }
    }

    /// One step, given the converted value if the conversion has finished.
    pub open spec fn step(self, ready: Option<u16>) -> (AxisReadState, Option<(u16, u16)>) {
        match ready {
            Some(v) => self.on_ready(v),
            None => (self, None),
        }
    }

    /// The channel whose conversion the next step polls.
    pub fn channel(&self) -> (c: Channel)
        ensures
            c == self.channel_of(),
    {
        match self {
            AxisReadState::ReadingX => Channel::X,
            AxisReadState::ReadingY { .. } => Channel::Y,
        }
    }

    /// Performs one step on the outcome of polling `self.channel()`.
    /// A finished conversion moves the phase on (and completes a pair in the
    /// Y phase); one still in flight gives `Ok(None)` and keeps the phase; a
    /// converter fault is handed back and keeps the phase too.
    pub fn advance<E>(&mut self, conversion: nb::Result<u16, E>) -> (r: Result<Option<(u16, u16)>, E>)
        ensures
            match conversion {
                Ok(v) => {
                    &&& *final(self) == old(self).on_ready(v).0
                    &&& r == Ok::<Option<(u16, u16)>, E>(old(self).on_ready(v).1)
                },
                Err(nb::Error::WouldBlock) => {
                    &&& *final(self) == *old(self)
                    &&& r == Ok::<Option<(u16, u16)>, E>(None)
                },
                Err(nb::Error::Other(e)) => {
                    &&& *final(self) == *old(self)
                    &&& r == Err::<Option<(u16, u16)>, E>(e)
                },
            },
    {
        match conversion {
            Ok(v) => match *self {
                AxisReadState::ReadingX => {
                    *self = AxisReadState::ReadingY { x: v };
                    Ok(None)
                },
                AxisReadState::ReadingY { x } => {
                    *self = AxisReadState::ReadingX;
                    Ok(Some((x, v)))
                },
            },
            Err(nb::Error::WouldBlock) => Ok(None),
            Err(nb::Error::Other(e)) => Err(e),
        }
    }
}

/// The converted value, if the conversion has finished.
pub open spec fn ready_value<E>(conversion: nb::Result<u16, E>) -> Option<u16> {
    match conversion {
        Ok(v) => Some(v),
        Err(_) => None,
    }
}

/// A finished conversion gave a value within the converter's ten bits.
pub open spec fn within_ten_bits<E>(conversion: nb::Result<u16, E>) -> bool {
    match ready_value(conversion) {
        Some(v) => v < 1024,
        None => true,
    }
}

} // verus!
