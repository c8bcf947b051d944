use crate::background::Background;
use crate::color::{ColorMode, Palettes};
use crate::common::{CurveDirection, CurveStyle};
use crate::dot::DotStyle;
use crate::gradient::GradStyle;
use crate::location::Location;
use crate::noise::NoiseFunction;
use crate::size::{Dir, SizeFn};
use vstd::prelude::*;

verus! {

/// Whether every character of `s` is a decimal digit.
pub open spec fn all_digits(s: Seq<char>) -> bool {
    forall|i: int| 0 <= i < s.len() ==> '0' <= #[trigger] s[i] <= '9'
}

/// The number that the decimal digits `s` write.
pub open spec fn decimal(s: Seq<char>) -> nat
    decreases s.len(),
{
    if s.len() == 0 {
        0
    } else {
        (decimal(s.drop_last()) * 10 + (s.last() as u32 - '0' as u32)) as nat
    }
}

/// The number that `s` stands for as a canvas dimension: decimal digits, at
/// least one, with or without a `+` before them, that write a number of 32
/// bits. Anything else stands for no number.
pub open spec fn parsed(s: Seq<char>) -> Option<u32> {
    let digits = if s.len() > 0 && s[0] == '+' {
        s.drop_first()
    } else {
        s
    };
    if digits.len() > 0 && all_digits(digits) && decimal(digits) <= u32::MAX {
        Some(decimal(digits) as u32)
    } else {
        None
    }
}

/// Calls `str::parse::<u32>` of std and keeps the number where there is
/// one. std documents that the text is an optional `+` followed by decimal
/// digits only, and that an empty text, any other character and a number
/// too large for 32 bits are errors.
#[verifier::external_body]
fn parse_u32(s: &str) -> (n: Option<u32>)
    ensures
        n == parsed(s@),
{
    s.parse::<u32>().ok()
}

/// The canvas size asked for.
#[derive(Clone, Copy, Debug, PartialEq, Eq, Structural)]
pub struct CanvasRequest {
    pub width: u32,
    pub height: u32,
}

impl CanvasRequest {
    /// The request that the two texts make, if both are numbers.
    pub open spec fn requested(width: Seq<char>, height: Seq<char>) -> Option<CanvasRequest> {
        match (parsed(width), parsed(height)) {
            (Some(w), Some(h)) => Some(CanvasRequest { width: w, height: h }),
            _ => None,
        }
    }

    /// Reads a canvas size from the width and height as they were typed.
    /// Without a request the canvas keeps its default size.
    pub fn parse(width: &str, height: &str) -> (request: Option<CanvasRequest>)
        ensures
            request == Self::requested(width@, height@),
    {
        match parse_u32(width) {
            Some(w) => match parse_u32(height) {
                Some(h) => Some(CanvasRequest { width: w, height: h }),
                None => None,
            },
            None => None,
        }
    }

    /// Refuses a request for a canvas without width or without height, from
    /// which no aspect ratio can be taken.
    pub fn checked(self) -> (r: Result<CanvasRequest, ConfigError>)
        ensures
            r == if self.width == 0 || self.height == 0 {
                Err::<CanvasRequest, ConfigError>(ConfigError::CanvasSize)
            } else {
                Ok(self)
            },
    {
        if self.width == 0 || self.height == 0 {
            Err(ConfigError::CanvasSize)
        } else {
            Ok(self)
        }
    }

    /// Whether the canvas keeps its full width and takes its height from
    /// the aspect ratio; else it keeps its full height and the width follows.
    pub fn is_wide(&self) -> (wide: bool)
        ensures
            wide == (self.width >= self.height),
    {
        self.width >= self.height
    }

    /// The longer side asked for, by which a print is scaled.
    pub fn longer_side(&self) -> (side: u32)
        ensures
            side == if self.width >= self.height {
                self.width
            } else {
                self.height
            },
    {
        if self.width >= self.height {
            self.width
        } else {
            self.height
        }
    }
}

/// The selections of a drawing as the controls hold them: each may still be
/// open.
#[derive(Clone, Copy, Debug, PartialEq, Eq)]
pub struct Choices {
    pub background: Option<Background>,
    pub noise_function: Option<NoiseFunction>,
    pub location: Option<Location>,
    pub color_mode: Option<ColorMode>,
    pub palette_choice: Option<Palettes>,
    pub curve_style: Option<CurveStyle>,
    pub curve_direction: Option<CurveDirection>,
    pub dot_style: Option<DotStyle>,
    pub dot_size_fn: Option<SizeFn>,
    pub dot_direction: Option<Dir>,
    pub extrude_size_fn: Option<SizeFn>,
    pub extrude_direction: Option<Dir>,
    pub grad_style: Option<GradStyle>,
}

/// Where the colours of a drawing come from.
#[derive(Clone, Copy, Debug, PartialEq, Eq, Structural)]
pub enum Colors {
    Scale,
    Palette(Palettes),
}

/// How the curves of a drawing are painted.
#[derive(Clone, Copy, Debug, PartialEq, Eq, Structural)]
pub enum Stroke {
    Line,
    Dots(DotStyle),
    Extrusion(GradStyle),
}

/// A selection that a drawing needs and the controls left open.
#[derive(Clone, Copy, Debug, PartialEq, Eq, Structural)]
pub enum ConfigError {
    Background,
    NoiseFunction,
    Location,
    ColorMode,
    Palette,
    SizeFn,
    Direction,
    CurveDirection,
    CurveStyle,
    DotStyle,
    GradStyle,
    CanvasSize,
}

impl ConfigError {
    /// What the error says.
    pub open spec fn text(self) -> Seq<char> {
        match self {
            ConfigError::Background => "controls.background cannot be None"@,
            ConfigError::NoiseFunction => "controls.noise_function cannot be None"@,
            ConfigError::Location => "controls.location cannot be None"@,
            ConfigError::ColorMode => "controls.mode cannot be None"@,
            ConfigError::Palette => "controls.palette_choice cannot be None"@,
            ConfigError::SizeFn => "controls.size_fn cannot be None"@,
            ConfigError::Direction => "controls.direction cannot be None"@,
            ConfigError::CurveDirection => "controls.curve_direction cannot be None"@,
            ConfigError::CurveStyle => "controls.curve_style cannot be None"@,
            ConfigError::DotStyle => "controls.dot_style cannot be None"@,
            ConfigError::GradStyle => "controls.extrude_controls.grad_style cannot be None"@,
            ConfigError::CanvasSize => "controls.width and controls.height cannot be 0"@,
        }
    }

    pub fn to_string(&self) -> (s: String)
        ensures
            s@ == self.text(),
    {
        match self {
            ConfigError::Background => "controls.background cannot be None".to_owned(),
            ConfigError::NoiseFunction => "controls.noise_function cannot be None".to_owned(),
            ConfigError::Location => "controls.location cannot be None".to_owned(),
            ConfigError::ColorMode => "controls.mode cannot be None".to_owned(),
            ConfigError::Palette => "controls.palette_choice cannot be None".to_owned(),
            ConfigError::SizeFn => "controls.size_fn cannot be None".to_owned(),
            ConfigError::Direction => "controls.direction cannot be None".to_owned(),
            ConfigError::CurveDirection => "controls.curve_direction cannot be None".to_owned(),
            ConfigError::CurveStyle => "controls.curve_style cannot be None".to_owned(),
            ConfigError::DotStyle => "controls.dot_style cannot be None".to_owned(),
            ConfigError::GradStyle => "controls.extrude_controls.grad_style cannot be None"
                .to_owned(),
            ConfigError::CanvasSize => "controls.width and controls.height cannot be 0".to_owned(),
        }
    }
}

/// The selections of a drawing, all made.
#[derive(Clone, Copy, Debug, PartialEq, Eq, Structural)]
pub struct Plan {
    pub background: Background,
    pub noise_function: NoiseFunction,
    pub location: Location,
    pub colors: Colors,
    pub size_fn: SizeFn,
    pub direction: Dir,
    pub curve_direction: CurveDirection,
    pub stroke: Stroke,
}

impl Plan {
    /// Whether the sizes of the strokes are read from the dot controls:
    /// so for dots, while lines and ribbons read the extrusion controls.
    pub fn sized_as_dots(&self) -> (dots: bool)
        ensures
            dots == (self.stroke is Dots),
    {
        match self.stroke {
            Stroke::Dots(_) => true,
            _ => false,
        }
    }
}

impl Choices {
    /// Whether the sizes of the strokes come from the dot controls; for lines
    /// and ribbons they come from the extrusion controls.
    pub open spec fn sized_as_dots(self) -> bool {
        self.curve_style == Some(CurveStyle::Dots)
    }

    /// The size rule that the drawing reads.
    pub open spec fn size_fn(self) -> Option<SizeFn> {
        if self.sized_as_dots() {
            self.dot_size_fn
        } else {
            self.extrude_size_fn
        }
    }

    /// The size direction that the drawing reads.
    pub open spec fn direction(self) -> Option<Dir> {
        if self.sized_as_dots() {
            self.dot_direction
        } else {
            self.extrude_direction
        }
    }

    /// The first selection that the drawing needs and finds open, in the
    /// order in which it reads them: background, field, placement, colour
    /// mode, the palette where the mode is `Palette`, size rule and size
    /// direction, curve direction, curve style, and the dot shape or the
    /// colour ramp where the style asks for one.
    pub open spec fn missing(self) -> Option<ConfigError> {
        if self.background.is_none() {
            Some(ConfigError::Background)
        } else if self.noise_function.is_none() {
            Some(ConfigError::NoiseFunction)
        } else if self.location.is_none() {
            Some(ConfigError::Location)
        } else if self.color_mode.is_none() {
            Some(ConfigError::ColorMode)
        } else if self.color_mode == Some(ColorMode::Palette) && self.palette_choice.is_none() {
            Some(ConfigError::Palette)
        } else if self.size_fn().is_none() {
            Some(ConfigError::SizeFn)
        } else if self.direction().is_none() {
            Some(ConfigError::Direction)
        } else if self.curve_direction.is_none() {
            Some(ConfigError::CurveDirection)
        } else if self.curve_style.is_none() {
            Some(ConfigError::CurveStyle)
        } else if self.curve_style == Some(CurveStyle::Dots) && self.dot_style.is_none() {
            Some(ConfigError::DotStyle)
        } else if self.curve_style == Some(CurveStyle::Extrusion) && self.grad_style.is_none() {
            Some(ConfigError::GradStyle)
        } else {
            None
        }
    }

    /// The plan that the selections make where none is missing.
    pub open spec fn planned(self) -> Plan {
        Plan {
            background: self.background.unwrap(),
            noise_function: self.noise_function.unwrap(),
            location: self.location.unwrap(),
            colors: match self.color_mode.unwrap() {
                ColorMode::Scale => Colors::Scale,
                ColorMode::Palette => Colors::Palette(self.palette_choice.unwrap()),
            },
            size_fn: self.size_fn().unwrap(),
            direction: self.direction().unwrap(),
            curve_direction: self.curve_direction.unwrap(),
            stroke: match self.curve_style.unwrap() {
                CurveStyle::Line => Stroke::Line,
                CurveStyle::Dots => Stroke::Dots(self.dot_style.unwrap()),
                CurveStyle::Extrusion => Stroke::Extrusion(self.grad_style.unwrap()),
            },
        }
    }

    /// Checks the selections before anything is drawn: the plan where all
    /// that the drawing needs are made, else the first that is missing.
    pub fn plan(&self) -> (r: Result<Plan, ConfigError>)
        ensures
            r == match self.missing() {
                Some(e) => Err::<Plan, ConfigError>(e),
                None => Ok(self.planned()),
            },
    {
        let background = match self.background {
            Some(b) => b,
            None => return Err(ConfigError::Background),
        };
        let noise_function = match self.noise_function {
            Some(n) => n,
            None => return Err(ConfigError::NoiseFunction),
        };
        let location = match self.location {
            Some(l) => l,
            None => return Err(ConfigError::Location),
        };
        let colors = match self.color_mode {
            None => return Err(ConfigError::ColorMode),
            Some(ColorMode::Scale) => Colors::Scale,
            Some(ColorMode::Palette) => match self.palette_choice {
                Some(p) => Colors::Palette(p),
                None => return Err(ConfigError::Palette),
            },
        };
        let as_dots = match self.curve_style {
            Some(CurveStyle::Dots) => true,
            _ => false,
        };
        let size_fn = match if as_dots {
            self.dot_size_fn
        } else {
            self.extrude_size_fn
        } {
            Some(f) => f,
            None => return Err(ConfigError::SizeFn),
        };
        let direction = match if as_dots {
            self.dot_direction
        } else {
            self.extrude_direction
        } {
            Some(d) => d,
            None => return Err(ConfigError::Direction),
        };
        let curve_direction = match self.curve_direction {
            Some(d) => d,
            None => return Err(ConfigError::CurveDirection),
        };
        let stroke = match self.curve_style {
            None => return Err(ConfigError::CurveStyle),
            Some(CurveStyle::Line) => Stroke::Line,
            Some(CurveStyle::Dots) => match self.dot_style {
                Some(s) => Stroke::Dots(s),
                None => return Err(ConfigError::DotStyle),
            },
            Some(CurveStyle::Extrusion) => match self.grad_style {
                Some(g) => Stroke::Extrusion(g),
                None => return Err(ConfigError::GradStyle),
            },
        };
        Ok(
            Plan {
                background,
                noise_function,
                location,
                colors,
                size_fn,
                direction,
                curve_direction,
                stroke,
            },
        )
    }
}

} // verus!
