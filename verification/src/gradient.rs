use vstd::prelude::*;

verus! {

/// The colour ramps laid across an extruded stroke.
#[derive(Clone, Copy, Debug, PartialEq, Eq, Hash, Structural)]
pub enum GradStyle {
    Plain,
    Light,
    Dark,
    Fiber,
    LightFiber,
    DarkFiber,
}

impl GradStyle {
    /// The name shown for the ramp.
    pub open spec fn label(self) -> Seq<char> {
        match self {
            GradStyle::Plain => "Plain"@,
            GradStyle::Light => "Light"@,
            GradStyle::Dark => "Dark"@,
            GradStyle::Fiber => "Fiber"@,
            GradStyle::LightFiber => "LightFiber"@,
            GradStyle::DarkFiber => "DarkFiber"@,
        }
    }

    pub fn to_string(&self) -> (s: String)
        ensures
            s@ == self.label(),
    {
        match self {
            GradStyle::Plain => "Plain".to_owned(),
            GradStyle::Light => "Light".to_owned(),
            GradStyle::Dark => "Dark".to_owned(),
            GradStyle::Fiber => "Fiber".to_owned(),
            GradStyle::LightFiber => "LightFiber".to_owned(),
            GradStyle::DarkFiber => "DarkFiber".to_owned(),
        }
    }
}

} // verus!
