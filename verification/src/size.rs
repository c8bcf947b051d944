use vstd::prelude::*;

verus! {

/// The axes along which the distance from the canvas centre is taken.
#[derive(Clone, Copy, Debug, PartialEq, Eq, Hash, Structural)]
pub enum Dir {
    Both,
    Horizontal,
    Vertical,
}

impl Dir {
    /// The name shown for the direction.
    pub open spec fn label(self) -> Seq<char> {
        match self {
            Dir::Both => "Both"@,
            Dir::Horizontal => "Horizontal"@,
            Dir::Vertical => "Vertical"@,
        }
    }

    pub fn to_string(&self) -> (s: String)
        ensures
            s@ == self.label(),
    {
        match self {
            Dir::Both => "Both".to_owned(),
            Dir::Horizontal => "Horizontal".to_owned(),
            Dir::Vertical => "Vertical".to_owned(),
        }
    }
}

/// The rules by which the size of a stroke follows its position.
#[derive(Clone, Copy, Debug, PartialEq, Eq, Hash, Structural)]
pub enum SizeFn {
    Expanding,
    Contracting,
    Constant,
    Periodic,
}

impl SizeFn {
    /// The name shown for the rule.
    pub open spec fn label(self) -> Seq<char> {
        match self {
            SizeFn::Constant => "Constant"@,
            SizeFn::Expanding => "Expanding"@,
            SizeFn::Contracting => "Contracting"@,
            SizeFn::Periodic => "Periodic"@,
        }
    }

    pub fn to_string(&self) -> (s: String)
        ensures
            s@ == self.label(),
    {
        match self {
            SizeFn::Constant => "Constant".to_owned(),
            SizeFn::Expanding => "Expanding".to_owned(),
            SizeFn::Contracting => "Contracting".to_owned(),
            SizeFn::Periodic => "Periodic".to_owned(),
        }
    }
}

/// A change to the size controls.
#[derive(Debug, Clone, Copy)]
pub enum SizeMessage<S> {
    SizeFn(SizeFn),
    Size(S),
    Direction(Dir),
    SizeScale(S),
    MinSize(S),
    Null,
}

/// The size settings of a stroke: the rule, the size it scales, the axes
/// it measures along, the scale of its noise and the smallest size allowed.
#[derive(Debug, Clone, Copy, PartialEq)]
pub struct SizeControls<S> {
    pub size_fn: Option<SizeFn>,
    pub size: S,
    pub direction: Option<Dir>,
    pub size_scale: S,
    pub min_size: S,
}

impl<S> SizeControls<S> {
    pub fn new(
        size_fn: Option<SizeFn>,
        size: S,
        direction: Option<Dir>,
        size_scale: S,
        min_size: S,
    ) -> (c: Self)
        ensures
            c == (SizeControls { size_fn, size, direction, size_scale, min_size }),
    {
        Self { size_fn, size, direction, size_scale, min_size }
    }

    pub fn set_size_fn(self, size_fn: Option<SizeFn>) -> (c: Self)
        ensures
            c == (SizeControls { size_fn, ..self }),
    {
        let mut c = self;
        c.size_fn = size_fn;
        c
    }

    pub fn set_size(self, size: S) -> (c: Self)
        ensures
            c == (SizeControls { size, ..self }),
    {
        let mut c = self;
        c.size = size;
        c
    }

    pub fn set_direction(self, direction: Option<Dir>) -> (c: Self)
        ensures
            c == (SizeControls { direction, ..self }),
    {
        let mut c = self;
        c.direction = direction;
        c
    }

    pub fn set_size_scale(self, size_scale: S) -> (c: Self)
        ensures
            c == (SizeControls { size_scale, ..self }),
    {
        let mut c = self;
        c.size_scale = size_scale;
        c
    }

    pub fn set_min_size(self, min_size: S) -> (c: Self)
        ensures
            c == (SizeControls { min_size, ..self }),
    {
        let mut c = self;
        c.min_size = min_size;
        c
    }

    /// The controls after `message`.
    pub open spec fn updated(self, message: SizeMessage<S>) -> Self {
        match message {
            SizeMessage::SizeFn(size_fn) => SizeControls { size_fn: Some(size_fn), ..self },
            SizeMessage::Size(size) => SizeControls { size, ..self },
            SizeMessage::Direction(direction) => SizeControls {
                direction: Some(direction),
                ..self
            },
            SizeMessage::SizeScale(size_scale) => SizeControls { size_scale, ..self },
            SizeMessage::MinSize(min_size) => SizeControls { min_size, ..self },
            SizeMessage::Null => self,
        }
    }

    pub fn update(&mut self, message: SizeMessage<S>)
        ensures
            *final(self) == old(self).updated(message),
    {
        match message {
            SizeMessage::SizeFn(size_fn) => {
                self.size_fn = Some(size_fn);
            },
            SizeMessage::Size(size) => {
                self.size = size;
            },
            SizeMessage::Direction(direction) => self.direction = Some(direction),
            SizeMessage::SizeScale(size_scale) => {
                self.size_scale = size_scale;
            },
            SizeMessage::MinSize(min_size) => {
                self.min_size = min_size;
            },
            SizeMessage::Null => (),
        }
    }
}

} // verus!
