use crate::gradient::GradStyle;
use crate::size::{SizeControls, SizeMessage};
use vstd::prelude::*;

verus! {

/// A change to the extrusion controls.
#[derive(Debug, Clone)]
pub enum ExtrudeMessage<S> {
    Size(SizeMessage<S>),
    GradStyle(GradStyle),
    Null,
}

/// The settings of curves painted as extruded ribbons.
#[derive(Debug, Clone, Copy, PartialEq)]
pub struct ExtrudeControls<S> {
    pub size_controls: SizeControls<S>,
    pub grad_style: Option<GradStyle>,
}

impl<S> ExtrudeControls<S> {
    pub fn new(size_controls: SizeControls<S>, grad_style: Option<GradStyle>) -> (c: Self)
        ensures
            c == (ExtrudeControls { size_controls, grad_style }),
    {
        Self { size_controls, grad_style }
    }

    /// The controls after `message`. A size message goes to the size
    /// controls.
    pub open spec fn updated(self, message: ExtrudeMessage<S>) -> Self {
        match message {
            ExtrudeMessage::Size(x) => ExtrudeControls {
                size_controls: self.size_controls.updated(x),
                ..self
            },
            ExtrudeMessage::GradStyle(grad_style) => ExtrudeControls {
                grad_style: Some(grad_style),
                ..self
            },
            ExtrudeMessage::Null => self,
        }
    }

    pub fn update(&mut self, message: ExtrudeMessage<S>)
        ensures
            *final(self) == old(self).updated(message),
    {
        match message {
            ExtrudeMessage::Size(x) => self.size_controls.update(x),
            ExtrudeMessage::GradStyle(grad_style) => self.grad_style = Some(grad_style),
            ExtrudeMessage::Null => (),
        }
    }
}

} // verus!
