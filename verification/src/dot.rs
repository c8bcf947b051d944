use crate::color::ColorPickerMessage;
use crate::size::{SizeControls, SizeMessage};
use vstd::prelude::*;

verus! {

/// A change to the dot controls.
#[derive(Debug, Clone)]
pub enum DotMessage<S, C> {
    DotStyle(DotStyle),
    Size(SizeMessage<S>),
    PearlSides(u32),
    PearlSmoothness(u32),
    DotStrokeColor(ColorPickerMessage<C>),
    Null,
}

/// The shapes a dot can take.
#[derive(Debug, Clone, Copy, PartialEq, Eq, Hash, Structural)]
pub enum DotStyle {
    Circle,
    Square,
    Pearl,
}

impl DotStyle {
    /// The name shown for the shape.
    pub open spec fn label(self) -> Seq<char> {
        match self {
            DotStyle::Circle => "Circle"@,
            DotStyle::Square => "Square"@,
            DotStyle::Pearl => "Pearl"@,
        }
    }

    pub fn to_string(&self) -> (s: String)
        ensures
            s@ == self.label(),
    {
        match self {
            DotStyle::Circle => "Circle".to_owned(),
            DotStyle::Square => "Square".to_owned(),
            DotStyle::Pearl => "Pearl".to_owned(),
        }
    }
}

/// The settings of curves painted as dots.
#[derive(Debug, Clone, Copy, PartialEq)]
pub struct DotControls<S, C> {
    pub dot_style: Option<DotStyle>,
    pub size_controls: SizeControls<S>,
    pub pearl_sides: u32,
    pub pearl_smoothness: u32,
    pub show_color_picker: bool,
    pub dot_stroke_color: C,
}

impl<S, C> DotControls<S, C> {
    pub fn new(
        dot_style: Option<DotStyle>,
        size_controls: SizeControls<S>,
        pearl_sides: u32,
        pearl_smoothness: u32,
        show_color_picker: bool,
        dot_stroke_color: C,
    ) -> (c: Self)
        ensures
            c == (DotControls {
                dot_style,
                size_controls,
                pearl_sides,
                pearl_smoothness,
                show_color_picker,
                dot_stroke_color,
            }),
    {
        Self {
            dot_style,
            size_controls,
            pearl_sides,
            pearl_smoothness,
            show_color_picker,
            dot_stroke_color,
        }
    }

    /// The controls after `message`. A size message goes to the size
    /// controls; the picker is shown once opened and hidden again when a
    /// colour is submitted or the choice is cancelled.
    pub open spec fn updated(self, message: DotMessage<S, C>) -> Self {
        match message {
            DotMessage::DotStyle(x) => DotControls { dot_style: Some(x), ..self },
            DotMessage::Size(x) => DotControls {
                size_controls: self.size_controls.updated(x),
                ..self
            },
            DotMessage::PearlSides(x) => DotControls { pearl_sides: x, ..self },
            DotMessage::PearlSmoothness(x) => DotControls { pearl_smoothness: x, ..self },
            DotMessage::DotStrokeColor(ColorPickerMessage::Choose) => DotControls {
                show_color_picker: true,
                ..self
            },
            DotMessage::DotStrokeColor(ColorPickerMessage::Submit(c)) => DotControls {
                dot_stroke_color: c,
                show_color_picker: false,
                ..self
            },
            DotMessage::DotStrokeColor(ColorPickerMessage::Cancel) => DotControls {
                show_color_picker: false,
                ..self
            },
            DotMessage::Null => self,
        }
    }

    pub fn update(&mut self, message: DotMessage<S, C>)
        ensures
            *final(self) == old(self).updated(message),
    {
        match message {
            DotMessage::DotStyle(x) => self.dot_style = Some(x),
            DotMessage::Size(x) => self.size_controls.update(x),
            DotMessage::PearlSides(x) => self.pearl_sides = x,
            DotMessage::PearlSmoothness(x) => self.pearl_smoothness = x,
            DotMessage::DotStrokeColor(x) => match x {
                ColorPickerMessage::Choose => self.show_color_picker = true,
                ColorPickerMessage::Submit(c) => {
                    self.dot_stroke_color = c;
                    self.show_color_picker = false;
                },
                ColorPickerMessage::Cancel => self.show_color_picker = false,
            },
            DotMessage::Null => (),
        }
    }
}

} // verus!
