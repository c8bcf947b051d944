use vstd::prelude::*;

verus! {

/// The named bundles of settings.
#[derive(Clone, Copy, Debug, PartialEq, Eq, Hash, Structural)]
pub enum Preset {
    Ribbons,
    Solar,
    RiverStones,
    Vortex,
    Canyon,
    Fence,
    Splat,
    Tubes,
    Ducts,
    Symmetry,
    PomPom,
    RedDwarf,
    Ridges,
}

impl Preset {
    /// The name shown for the preset.
    pub open spec fn label(self) -> Seq<char> {
        match self {
            Preset::Ribbons => "Ribbons"@,
            Preset::Solar => "Solar"@,
            Preset::RiverStones => "River Stones"@,
            Preset::Vortex => "Vortex"@,
            Preset::Canyon => "Canyon"@,
            Preset::Fence => "Fence"@,
            Preset::Splat => "Splat"@,
            Preset::Tubes => "Tubes"@,
            Preset::Ducts => "Ducts"@,
            Preset::Symmetry => "Symmetry"@,
            Preset::PomPom => "Pom Pom"@,
            Preset::RedDwarf => "Red Dwarf"@,
            Preset::Ridges => "Ridges (slow!)"@,
        }
    }

    pub fn to_string(&self) -> (s: String)
        ensures
            s@ == self.label(),
    {
        match self {
            Preset::Ribbons => "Ribbons".to_owned(),
            Preset::Solar => "Solar".to_owned(),
            Preset::RiverStones => "River Stones".to_owned(),
            Preset::Vortex => "Vortex".to_owned(),
            Preset::Canyon => "Canyon".to_owned(),
            Preset::Fence => "Fence".to_owned(),
            Preset::Splat => "Splat".to_owned(),
            Preset::Tubes => "Tubes".to_owned(),
            Preset::Ducts => "Ducts".to_owned(),
            Preset::Symmetry => "Symmetry".to_owned(),
            Preset::PomPom => "Pom Pom".to_owned(),
            Preset::RedDwarf => "Red Dwarf".to_owned(),
            Preset::Ridges => "Ridges (slow!)".to_owned(),
        }
    }
}

} // verus!
