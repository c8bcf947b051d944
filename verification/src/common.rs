use crate::background::Background;
use crate::color::{ColorControls, ColorMessage, ColorPickerMessage};
use crate::dot::{DotControls, DotMessage};
use crate::extrude::{ExtrudeControls, ExtrudeMessage};
use crate::fractal::{FractalControls, FractalMessage};
use crate::location::Location;
use crate::noise::{NoiseControls, NoiseFunction};
use crate::presets::Preset;
use crate::sine::{SineControls, SineMessage};
use vstd::prelude::*;
use vstd::std_specs::convert::FromSpecImpl;

verus! {

/// Default canvas width in pixels.
pub const WIDTH: u32 = 1000;

/// Default canvas height in pixels.
pub const HEIGHT: u32 = 1000;

/// Seed of the generator that a drawing pass starts from.
pub const SEED: u64 = 98713;

/// Whether the controls still mirror the preset they were loaded from.
#[derive(Debug, Clone, Copy, PartialEq, Eq, Hash, Structural)]
pub enum PresetState {
    IsSet,
    NotSet,
}

/// How a traced curve is painted.
#[derive(Clone, Copy, Debug, PartialEq, Eq, Hash, Structural)]
pub enum CurveStyle {
    Line,
    Dots,
    Extrusion,
}

impl CurveStyle {
    /// The name shown for the style.
    pub open spec fn label(self) -> Seq<char> {
        match self {
            CurveStyle::Line => "Line"@,
            CurveStyle::Dots => "Dots"@,
            CurveStyle::Extrusion => "Extrusion"@,
        }
    }

    pub fn to_string(&self) -> (s: String)
        ensures
            s@ == self.label(),
    {
        match self {
            CurveStyle::Line => "Line".to_owned(),
            CurveStyle::Dots => "Dots".to_owned(),
            CurveStyle::Extrusion => "Extrusion".to_owned(),
        }
    }
}

/// Whether a curve grows forward only or both ways from its seed.
#[derive(Clone, Copy, Debug, PartialEq, Eq, Hash, Structural)]
pub enum CurveDirection {
    OneSided,
    TwoSided,
}

impl CurveDirection {
    /// The name shown for the direction.
    pub open spec fn label(self) -> Seq<char> {
        match self {
            CurveDirection::OneSided => "One Sided"@,
            CurveDirection::TwoSided => "Two Sided"@,
        }
    }
}

impl From<CurveDirection> for String {
    fn from(direction: CurveDirection) -> (s: String)
        ensures
            s@ == direction.label(),
    {
        match direction {
            CurveDirection::OneSided => "One Sided".to_owned(),
            CurveDirection::TwoSided => "Two Sided".to_owned(),
        }
    }
}

impl FromSpecImpl<CurveDirection> for String {
    open spec fn obeys_from_spec() -> bool {
        false
    }

    open spec fn from_spec(direction: CurveDirection) -> String {
        arbitrary()
    }
}

/// Every setting of a drawing.
#[derive(Clone, Debug, PartialEq)]
pub struct Controls<S, C> {
    pub preset: Option<Preset>,
    pub curve_style: Option<CurveStyle>,
    pub curve_direction: Option<CurveDirection>,
    pub spacing: S,
    pub curve_length: u32,
    pub grain_color: C,
    pub show_grain_color_picker: bool,
    pub location: Option<Location>,
    pub density: S,
    pub noise_controls: NoiseControls<S>,
    pub fractal_controls: FractalControls<S>,
    pub speed: S,
    pub exporting: bool,
    pub stroke_width: S,
    pub background: Option<Background>,
    pub width: String,
    pub height: String,
    pub border: bool,
    pub sin_controls: SineControls<S>,
    pub dot_controls: DotControls<S, C>,
    pub extrude_controls: ExtrudeControls<S>,
    pub color_mode_controls: ColorControls<C>,
}

/// What the user or the program asks of the controls.
#[derive(Debug, Clone)]
pub enum Message<S, C> {
    Preset(Preset),
    CurveStyle(CurveStyle),
    CurveDirection(CurveDirection),
    Space(S),
    CurveLength(u32),
    Export,
    Draw(PresetState),
    Loc(Location),
    Density(S),
    Fractal(FractalMessage<S>),
    Factor(S),
    NoiseScale(S),
    Noise(NoiseFunction),
    Speed(S),
    ExportComplete,
    StrokeWidth(S),
    WidthSet(String),
    Width,
    HeightSet(String),
    Height,
    GrainColor(ColorPickerMessage<C>),
    ColorMode(ColorMessage<C>),
    Background(Background),
    Border(bool),
    Sinusoid(SineMessage<S>),
    Dot(DotMessage<S, C>),
    Extrude(ExtrudeMessage<S>),
    Null,
}

/// What is to be done once a message has changed the controls.
#[derive(Debug, Clone, Copy, PartialEq, Eq, Structural)]
pub enum Effect {
    Nothing,
    Draw(PresetState),
    Export,
}

impl<S, C> Message<S, C> {
    /// What follows the message. Most changes redraw; typing a size, the end
    /// of an export, `Null`, and a colour picker that opens or is cancelled
    /// do not. Only a preset, or a request to draw as one, redraws with the
    /// preset kept.
    pub open spec fn effect(self) -> Effect {
        match self {
            Message::Preset(_) => Effect::Draw(PresetState::IsSet),
            Message::Draw(state) => Effect::Draw(state),
            Message::Export => Effect::Export,
            Message::ExportComplete | Message::WidthSet(_) | Message::HeightSet(_)
            | Message::Null => Effect::Nothing,
            Message::GrainColor(ColorPickerMessage::Submit(_)) => Effect::Draw(
                PresetState::NotSet,
            ),
            Message::GrainColor(_) => Effect::Nothing,
            Message::Dot(DotMessage::DotStrokeColor(ColorPickerMessage::Submit(_))) => Effect::Draw(
                PresetState::NotSet,
            ),
            Message::Dot(DotMessage::DotStrokeColor(_)) => Effect::Nothing,
            Message::ColorMode(ColorMessage::Anchor1(ColorPickerMessage::Submit(_)))
            | Message::ColorMode(
                ColorMessage::Anchor2(ColorPickerMessage::Submit(_)),
            ) => Effect::Draw(PresetState::NotSet),
            Message::ColorMode(ColorMessage::Anchor1(_)) | Message::ColorMode(
                ColorMessage::Anchor2(_),
            ) => Effect::Nothing,
            _ => Effect::Draw(PresetState::NotSet),
        }
    }

    /// What is to be done after the message.
    pub fn outcome(&self) -> (effect: Effect)
        ensures
            effect == self.effect(),
    {
        match self {
            Message::Preset(_) => Effect::Draw(PresetState::IsSet),
            Message::Draw(state) => Effect::Draw(*state),
            Message::Export => Effect::Export,
            Message::ExportComplete | Message::WidthSet(_) | Message::HeightSet(_)
            | Message::Null => Effect::Nothing,
            Message::GrainColor(c) => match c {
                ColorPickerMessage::Submit(_) => Effect::Draw(PresetState::NotSet),
                _ => Effect::Nothing,
            },
            Message::Dot(d) => match d {
                DotMessage::DotStrokeColor(ColorPickerMessage::Submit(_)) => Effect::Draw(
                    PresetState::NotSet,
                ),
                DotMessage::DotStrokeColor(_) => Effect::Nothing,
                _ => Effect::Draw(PresetState::NotSet),
            },
            Message::ColorMode(c) => match c {
                ColorMessage::Anchor1(ColorPickerMessage::Submit(_)) => Effect::Draw(
                    PresetState::NotSet,
                ),
                ColorMessage::Anchor1(_) => Effect::Nothing,
                ColorMessage::Anchor2(ColorPickerMessage::Submit(_)) => Effect::Draw(
                    PresetState::NotSet,
                ),
                ColorMessage::Anchor2(_) => Effect::Nothing,
                _ => Effect::Draw(PresetState::NotSet),
            },
            _ => Effect::Draw(PresetState::NotSet),
        }
    }
}

impl<S, C> Controls<S, C> {
    /// The controls after `message` has set what it names, where `loaded` is
    /// what the catalogue holds for the preset of a `Preset` message; the
    /// preset shown is not yet brought up to date.
    pub open spec fn changed(self, message: Message<S, C>, loaded: Self) -> Self {
        match message {
            Message::Preset(p) => Controls { preset: Some(p), ..loaded },
            Message::CurveStyle(cs) => Controls { curve_style: Some(cs), ..self },
            Message::CurveDirection(cd) => Controls { curve_direction: Some(cd), ..self },
            Message::Space(b) => Controls { spacing: b, ..self },
            Message::CurveLength(l) => Controls { curve_length: l, ..self },
            Message::Export => Controls { exporting: true, ..self },
            Message::Draw(_) => self,
            Message::Loc(loc) => Controls { location: Some(loc), ..self },
            Message::Density(s) => Controls { density: s, ..self },
            Message::Fractal(f) => Controls {
                fractal_controls: self.fractal_controls.updated(f),
                ..self
            },
            Message::Factor(f) => Controls {
                noise_controls: NoiseControls { noise_factor: f, ..self.noise_controls },
                ..self
            },
            Message::NoiseScale(s) => Controls {
                noise_controls: NoiseControls { noise_scale: s, ..self.noise_controls },
                ..self
            },
            Message::Noise(n) => Controls {
                noise_controls: NoiseControls { noise_function: Some(n), ..self.noise_controls },
                ..self
            },
            Message::Speed(s) => Controls { speed: s, ..self },
            Message::ExportComplete => Controls { exporting: false, ..self },
            Message::StrokeWidth(w) => Controls { stroke_width: w, ..self },
            Message::WidthSet(w) => Controls { width: w, ..self },
            Message::Width => self,
            Message::HeightSet(h) => Controls { height: h, ..self },
            Message::Height => self,
            Message::GrainColor(ColorPickerMessage::Choose) => Controls {
                show_grain_color_picker: true,
                ..self
            },
            Message::GrainColor(ColorPickerMessage::Submit(k)) => Controls {
                grain_color: k,
                show_grain_color_picker: false,
                ..self
            },
            Message::GrainColor(ColorPickerMessage::Cancel) => Controls {
                show_grain_color_picker: false,
                ..self
            },
            Message::ColorMode(c) => Controls {
                color_mode_controls: self.color_mode_controls.updated(c),
                ..self
            },
            Message::Background(b) => Controls { background: Some(b), ..self },
            Message::Border(b) => Controls { border: b, ..self },
            Message::Sinusoid(s) => Controls { sin_controls: self.sin_controls.updated(s), ..self },
            Message::Dot(d) => Controls { dot_controls: self.dot_controls.updated(d), ..self },
            Message::Extrude(e) => Controls {
                extrude_controls: self.extrude_controls.updated(e),
                ..self
            },
            Message::Null => self,
        }
    }

    /// The controls once `effect` has been carried out: a drawing that does
    /// not come from a preset leaves no preset shown.
    pub open spec fn settled(self, effect: Effect) -> Self {
        if effect == Effect::Draw(PresetState::NotSet) {
            Controls { preset: None, ..self }
        } else {
            self
        }
    }

    /// Sets in the controls what `message` names, and for a `Preset`
    /// message takes over what `catalogue` holds for it.
    fn change<P: Fn(Preset) -> Self>(&mut self, message: Message<S, C>, catalogue: &P)
        requires
            forall|p: Preset| call_requires(*catalogue, (p,)),
        ensures
            match message {
                Message::Preset(p) => exists|loaded: Self|
                    call_ensures(*catalogue, (p,), loaded) && *final(self) == old(self).changed(
                        message,
                        loaded,
                    ),
                _ => *final(self) == old(self).changed(message, *old(self)),
            },
    {
        match message {
            Message::Preset(p) => {
                let mut loaded = catalogue(p);
                let ghost held = loaded;
                loaded.preset = Some(p);
                *self = loaded;
                assert(call_ensures(*catalogue, (p,), held) && *self == old(self).changed(
                    message,
                    held,
                ));
            },
            Message::CurveStyle(cs) => {
                self.curve_style = Some(cs);
            },
            Message::CurveDirection(cd) => {
                self.curve_direction = Some(cd);
            },
            Message::Space(b) => {
                self.spacing = b;
            },
            Message::CurveLength(l) => {
                self.curve_length = l;
            },
            Message::Export => {
                self.exporting = true;
            },
            Message::Loc(loc) => {
                self.location = Some(loc);
            },
            Message::Density(s) => {
                self.density = s;
            },
            Message::Draw(_) => {},
            Message::Fractal(f) => {
                self.fractal_controls.update(f);
            },
            Message::Factor(f) => {
                self.noise_controls.noise_factor = f;
            },
            Message::NoiseScale(s) => {
                self.noise_controls.noise_scale = s;
            },
            Message::Noise(n) => {
                self.noise_controls.noise_function = Some(n);
            },
            Message::Speed(s) => {
                self.speed = s;
            },
            Message::Dot(d) => {
                self.dot_controls.update(d);
            },
            Message::Extrude(e) => {
                self.extrude_controls.update(e);
            },
            Message::ExportComplete => {
                self.exporting = false;
            },
            Message::StrokeWidth(w) => {
                self.stroke_width = w;
            },
            Message::WidthSet(w) => {
                self.width = w;
            },
            Message::Width => {},
            Message::HeightSet(h) => {
                self.height = h;
            },
            Message::Height => {},
            Message::GrainColor(c) => match c {
                ColorPickerMessage::Choose => {
                    self.show_grain_color_picker = true;
                },
                ColorPickerMessage::Submit(k) => {
                    self.grain_color = k;
                    self.show_grain_color_picker = false;
                },
                ColorPickerMessage::Cancel => {
                    self.show_grain_color_picker = false;
                },
            },
            Message::Background(b) => {
                self.background = Some(b);
            },
            Message::Border(b) => {
                self.border = b;
            },
            Message::Null => {},
            Message::Sinusoid(s) => {
                self.sin_controls.update(s);
            },
            Message::ColorMode(c) => {
                self.color_mode_controls.update(c);
            },
        }
    }

    /// Takes a message: changes the controls as it asks and says what is to
    /// be done next. `catalogue` gives the settings of a preset.
    pub fn update<P: Fn(Preset) -> Self>(&mut self, message: Message<S, C>, catalogue: &P) -> (effect:
        Effect)
        requires
            forall|p: Preset| call_requires(*catalogue, (p,)),
        ensures
            effect == message.effect(),
            match message {
                Message::Preset(p) => exists|loaded: Self|
                    call_ensures(*catalogue, (p,), loaded) && *final(self) == old(self).changed(
                        message,
                        loaded,
                    ).settled(effect),
                _ => *final(self) == old(self).changed(message, *old(self)).settled(effect),
            },
    {
        let effect = message.outcome();
        self.change(message, catalogue);
        match effect {
            Effect::Draw(PresetState::NotSet) => {
                self.preset = None;
            },
            _ => {},
        }
        effect
    }
}

} // verus!
