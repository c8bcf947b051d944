use vstd::prelude::*;

verus! {

/// A change to the sine controls, or a request to draw.
#[derive(Debug, Clone, Copy)]
pub enum SineMessage<S> {
    XFreq(S),
    YFreq(S),
    XExp(S),
    YExp(S),
    Draw,
}

/// The settings of the sinusoidal field: a frequency and an exponent for
/// each axis.
#[derive(Debug, Clone, Copy, PartialEq)]
pub struct SineControls<S> {
    pub xfreq: S,
    pub yfreq: S,
    pub xexp: S,
    pub yexp: S,
}

impl<S> SineControls<S> {
    pub fn new(xfreq: S, yfreq: S, xexp: S, yexp: S) -> (c: Self)
        ensures
            c == (SineControls { xfreq, yfreq, xexp, yexp }),
    {
        Self { xfreq, yfreq, xexp, yexp }
    }

    pub fn set_xfreq(self, xfreq: S) -> (c: Self)
        ensures
            c == (SineControls { xfreq, ..self }),
    {
        let mut c = self;
        c.xfreq = xfreq;
        c
    }

    pub fn set_yfreq(self, yfreq: S) -> (c: Self)
        ensures
            c == (SineControls { yfreq, ..self }),
    {
        let mut c = self;
        c.yfreq = yfreq;
        c
    }

    pub fn set_xexp(self, xexp: S) -> (c: Self)
        ensures
            c == (SineControls { xexp, ..self }),
    {
        let mut c = self;
        c.xexp = xexp;
        c
    }

    pub fn set_yexp(self, yexp: S) -> (c: Self)
        ensures
            c == (SineControls { yexp, ..self }),
    {
        let mut c = self;
        c.yexp = yexp;
        c
    }

    /// The controls after `message`.
    pub open spec fn updated(self, message: SineMessage<S>) -> Self {
        match message {
            SineMessage::XFreq(xfreq) => SineControls { xfreq, ..self },
            SineMessage::YFreq(yfreq) => SineControls { yfreq, ..self },
            SineMessage::XExp(xexp) => SineControls { xexp, ..self },
            SineMessage::YExp(yexp) => SineControls { yexp, ..self },
            SineMessage::Draw => self,
        }
    }

    pub fn update(&mut self, message: SineMessage<S>)
        ensures
            *final(self) == old(self).updated(message),
    {
        match message {
            SineMessage::XFreq(xfreq) => self.xfreq = xfreq,
            SineMessage::YFreq(yfreq) => self.yfreq = yfreq,
            SineMessage::XExp(xexp) => self.xexp = xexp,
            SineMessage::YExp(yexp) => self.yexp = yexp,
            SineMessage::Draw => (),
        }
    }
}

} // verus!
