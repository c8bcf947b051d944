use vstd::prelude::*;

verus! {

/// The textures laid under the curves.
#[derive(Clone, Copy, Debug, PartialEq, Eq, Hash, Structural)]
pub enum Background {
    LightGrain,
    LightFiber,
    DarkGrain,
    DarkFiber,
    ColorGrain,
}

impl Background {
    /// The name shown for the texture.
    pub open spec fn label(self) -> Seq<char> {
        match self {
            Background::LightGrain => "Light Grain"@,
            Background::LightFiber => "Light Fiber"@,
            Background::DarkGrain => "Dark Grain"@,
            Background::DarkFiber => "Dark Fiber "@,
            Background::ColorGrain => "Color Grain"@,
        }
    }

    pub fn to_string(&self) -> (s: String)
        ensures
            s@ == self.label(),
    {
        match self {
            Background::LightGrain => "Light Grain".to_owned(),
            Background::LightFiber => "Light Fiber".to_owned(),
            Background::DarkGrain => "Dark Grain".to_owned(),
            Background::DarkFiber => "Dark Fiber ".to_owned(),
            Background::ColorGrain => "Color Grain".to_owned(),
        }
    }
}

} // verus!
